//! The options that an administrator writes after the module's name.

use vstd::prelude::*;
use vstd::string::*;
use vstd::utf8::*;

use crate::text::{characters, decode_lossy, parse_count, same_text};
#[allow(unused_imports)]
use crate::text::{count_round_trip, count_value, decimal, lossy_text};

verus! {

/// How many attempts each method gets where no option says otherwise.
pub const DEFAULT_TRIES: u32 = 3;

/// The settings of one run of the module.
#[derive(Debug, Clone, Copy, PartialEq, Eq, Structural)]
pub struct Options {
    /// Typed characters are answered by asterisks.
    pub show_stars: bool,
    /// How many wrong passwords are allowed.
    pub password_tries: u32,
    /// How many scans without a match are allowed.
    pub fingerprint_tries: u32,
}

/// The arguments as texts.
pub open spec fn texts(args: Seq<String>) -> Seq<Seq<char>> {
    args.map_values(|arg: String| arg@)
}

/// The arguments as texts, decoded from the bytes of C strings.
pub open spec fn decoded(argv: Seq<Vec<u8>>) -> Seq<Seq<char>> {
    argv.map_values(|arg: Vec<u8>| lossy_text(arg@))
}

/// Every argument is valid UTF-8.
pub open spec fn all_valid(argv: Seq<Vec<u8>>) -> bool {
    forall|i: int| 0 <= i < argv.len() ==> valid_utf8(#[trigger] argv[i]@)
}

/// The arguments as texts, where all of them are valid UTF-8.
pub open spec fn utf8_texts(argv: Seq<Vec<u8>>) -> Seq<Seq<char>> {
    argv.map_values(|arg: Vec<u8>| decode_utf8(arg@))
}

/// The count that an argument gives to the option `name`, which ends in `=`.
/// An argument for something else, or whose value is not a count, gives none.
pub open spec fn given_count(arg: Seq<char>, name: Seq<char>) -> Option<u32> {
    if name.is_prefix_of(arg) {
        count_value(arg.skip(name.len() as int))
    } else {
        None
    }
}

/// The count that the arguments give to the option `name`: the last one wins.
pub open spec fn last_count(args: Seq<Seq<char>>, name: Seq<char>) -> Option<u32>
    decreases args.len(),
{
    if args.len() == 0 {
        None
    } else if given_count(args.last(), name) is Some {
        given_count(args.last(), name)
    } else {
        last_count(args.drop_last(), name)
    }
}

/// The first setting that is given, or the default.
pub open spec fn tries_of(own: Option<u32>, both: Option<u32>) -> u32 {
    match own {
        Some(count) => count,
        None => match both {
            Some(count) => count,
            None => DEFAULT_TRIES,
        },
    }
}

/// The settings that the arguments ask for.
pub open spec fn options_of(args: Seq<Seq<char>>) -> Options {
    Options {
        show_stars: args.contains("show_stars"@),
        password_tries: tries_of(
            last_count(args, "password_tries="@),
            last_count(args, "tries="@),
        ),
        fingerprint_tries: tries_of(
            last_count(args, "fingerprint_tries="@),
            last_count(args, "tries="@),
        ),
    }
}

fn read_count(arg: &Vec<char>, name: &str) -> (count: Option<u32>)
    ensures
        count == given_count(arg@, name@),
{
    let letters: Vec<char> = characters(name);
    if arg.len() < letters.len() {
        return None;
    }
    let mut i: usize = 0;
    while i < letters.len()
        invariant
            letters@ == name@,
            i <= name@.len() <= arg@.len(),
            forall|j: int| 0 <= j < i ==> arg@[j] == name@[j],
        decreases name@.len() - i,
    {
        if arg[i] != letters[i] {
            assert(!name@.is_prefix_of(arg@)) by {
                if name@.is_prefix_of(arg@) {
                    assert(arg@.subrange(0, name@.len() as int)[i as int] == name@[i as int]);
                }
            }
            return None;
        }
        i += 1;
    }
    assert(name@ =~= arg@.subrange(0, name@.len() as int));
    parse_count(arg, letters.len())
}

fn pick_tries(own: Option<u32>, both: Option<u32>) -> (tries: u32)
    ensures
        tries == tries_of(own, both),
{
    match own {
        Some(count) => count,
        None => match both {
            Some(count) => count,
            None => DEFAULT_TRIES,
        },
    }
}

impl Options {
    /// Reads the arguments. One that is not an option is passed over.
    pub fn parse(args: &Vec<String>) -> (options: Options)
        ensures
            options == options_of(texts(args@)),
            options.show_stars <==> exists|i: int|
                0 <= i < args@.len() && (#[trigger] args@[i])@ == "show_stars"@,
    {
        let ghost all = texts(args@);
        let mut show_stars: bool = false;
        let mut both: Option<u32> = None;
        let mut password: Option<u32> = None;
        let mut fingerprint: Option<u32> = None;
        let mut i: usize = 0;
        assert(all.take(0) =~= Seq::<Seq<char>>::empty());
        while i < args.len()
            invariant
                i <= args@.len(),
                all == texts(args@),
                show_stars == all.take(i as int).contains("show_stars"@),
                both == last_count(all.take(i as int), "tries="@),
                password == last_count(all.take(i as int), "password_tries="@),
                fingerprint == last_count(all.take(i as int), "fingerprint_tries="@),
            decreases args@.len() - i,
        {
            let arg: &str = args[i].as_str();
            let ghost seen = all.take(i as int);
            let ghost more = all.take(i + 1);
            assert(more.drop_last() =~= seen);
            assert(more.last() == arg@);
            if same_text(arg, "show_stars") {
                show_stars = true;
                assert(more[i as int] == "show_stars"@);
            }
            proof {
                assert(more =~= seen.push(arg@));
                assert forall|t: Seq<char>| more.contains(t) == (seen.contains(t) || t == arg@) by {
                    if seen.contains(t) {
                        let k = seen.index_of(t);
                        assert(more[k] == t);
                    }
                    if t == arg@ {
                        assert(more[i as int] == t);
                    }
                    if more.contains(t) {
                        let k = more.index_of(t);
                        if k < i {
                            assert(seen[k] == t);
                        }
                    }
                }
            }
            let chars: Vec<char> = characters(arg);
            let count: Option<u32> = read_count(&chars, "tries=");
            if count.is_some() {
                both = count;
            }
            let count: Option<u32> = read_count(&chars, "password_tries=");
            if count.is_some() {
                password = count;
            }
            let count: Option<u32> = read_count(&chars, "fingerprint_tries=");
            if count.is_some() {
                fingerprint = count;
            }
            i += 1;
        }
        assert(all.take(args@.len() as int) =~= all);
        proof {
            if all.contains("show_stars"@) {
                let k = all.index_of("show_stars"@);
                assert(args@[k]@ == "show_stars"@);
            }
            if exists|k: int| 0 <= k < args@.len() && (#[trigger] args@[k])@ == "show_stars"@ {
                let k = choose|k: int| 0 <= k < args@.len() && (#[trigger] args@[k])@ == "show_stars"@;
                assert(all[k] == "show_stars"@);
            }
        }
        Options {
            show_stars,
            password_tries: pick_tries(password, both),
            fingerprint_tries: pick_tries(fingerprint, both),
        }
    }

    /// Reads the arguments as the application passes them. Arguments in valid
    /// UTF-8 are read as they stand.
    pub fn from_argv(argv: &Vec<Vec<u8>>) -> (options: Options)
        ensures
            options == options_of(decoded(argv@)),
            all_valid(argv@) ==> options == options_of(utf8_texts(argv@)),
    {
        let mut args: Vec<String> = Vec::new();
        let mut i: usize = 0;
        while i < argv.len()
            invariant
                i <= argv@.len(),
                args@.len() == i,
                forall|j: int| 0 <= j < i ==> #[trigger] args@[j]@ == lossy_text(argv@[j]@),
                forall|j: int|
                    0 <= j < i && valid_utf8(#[trigger] argv@[j]@) ==> args@[j]@ == decode_utf8(
                        argv@[j]@,
                    ),
            decreases argv@.len() - i,
        {
            args.push(decode_lossy(argv[i].as_slice()));
            i += 1;
        }
        assert(texts(args@) =~= decoded(argv@));
        proof {
            if all_valid(argv@) {
                assert forall|j: int| 0 <= j < argv@.len() implies #[trigger] args@[j]@
                    == decode_utf8(argv@[j]@) by {
                    assert(valid_utf8(argv@[j]@));
                }
                assert(texts(args@) =~= utf8_texts(argv@));
            }
        }
        Options::parse(&args)
    }
}

/// Without arguments nothing is shown while typing, and each method gets the
/// default number of attempts.
pub proof fn defaults()
    ensures
        options_of(Seq::empty()) == (Options {
            show_stars: false,
            password_tries: DEFAULT_TRIES,
            fingerprint_tries: DEFAULT_TRIES,
        }),
{
}

/// An option followed by a count in decimal gives that count.
pub proof fn written_count(name: Seq<char>, count: u32)
    ensures
        given_count(name + decimal(count as nat), name) == Some(count),
{
    let arg = name + decimal(count as nat);
    count_round_trip(count);
    assert(arg.subrange(0, name.len() as int) =~= name);
    assert(arg.skip(name.len() as int) =~= decimal(count as nat));
}

/// Of several settings of one option the last one wins.
pub proof fn last_setting_wins(args: Seq<Seq<char>>, name: Seq<char>, count: u32)
    ensures
        last_count(args.push(name + decimal(count as nat)), name) == Some(count),
{
    written_count(name, count);
    assert(args.push(name + decimal(count as nat)).last() == name + decimal(count as nat));
}

/// No argument sets two of the counts.
pub proof fn one_count_per_argument(arg: Seq<char>)
    ensures
        given_count(arg, "tries="@) is Some ==> given_count(arg, "password_tries="@) is None
            && given_count(arg, "fingerprint_tries="@) is None,
        given_count(arg, "password_tries="@) is Some ==> given_count(arg, "tries="@) is None
            && given_count(arg, "fingerprint_tries="@) is None,
        given_count(arg, "fingerprint_tries="@) is Some ==> given_count(arg, "tries="@) is None
            && given_count(arg, "password_tries="@) is None,
{
    reveal_strlit("tries=");
    reveal_strlit("password_tries=");
    reveal_strlit("fingerprint_tries=");
    assert("tries="@.is_prefix_of(arg) ==> arg[0] == 't') by {
        assert("tries="@[0] == 't');
    }
    assert("password_tries="@.is_prefix_of(arg) ==> arg[0] == 'p') by {
        assert("password_tries="@[0] == 'p');
    }
    assert("fingerprint_tries="@.is_prefix_of(arg) ==> arg[0] == 'f') by {
        assert("fingerprint_tries="@[0] == 'f');
    }
}

/// An argument that gives no count to an option can be left out.
pub proof fn last_count_without(
    front: Seq<Seq<char>>,
    arg: Seq<char>,
    back: Seq<Seq<char>>,
    name: Seq<char>,
)
    requires
        given_count(arg, name) is None,
    ensures
        last_count(front.push(arg) + back, name) == last_count(front + back, name),
    decreases back.len(),
{
    if back.len() == 0 {
        assert(front.push(arg) + back =~= front.push(arg));
        assert(front.push(arg).drop_last() =~= front);
        assert(front + back =~= front);
    } else {
        assert((front.push(arg) + back).drop_last() =~= front.push(arg) + back.drop_last());
        assert((front + back).drop_last() =~= front + back.drop_last());
        last_count_without(front, arg, back.drop_last(), name);
    }
}

proof fn contains_without(
    front: Seq<Seq<char>>,
    arg: Seq<char>,
    back: Seq<Seq<char>>,
    wanted: Seq<char>,
)
    requires
        arg != wanted,
    ensures
        (front.push(arg) + back).contains(wanted) == (front + back).contains(wanted),
{
    let with = front.push(arg) + back;
    let without = front + back;
    if with.contains(wanted) {
        let k = with.index_of(wanted);
        if k < front.len() {
            assert(without[k] == wanted);
        } else {
            assert(without[k - 1] == wanted);
        }
    }
    if without.contains(wanted) {
        let k = without.index_of(wanted);
        if k < front.len() {
            assert(with[k] == wanted);
        } else {
            assert(with[k + 1] == wanted);
        }
    }
}

/// An argument that is no option changes nothing, wherever it stands.
pub proof fn other_arguments_change_nothing(
    front: Seq<Seq<char>>,
    arg: Seq<char>,
    back: Seq<Seq<char>>,
)
    requires
        arg != "show_stars"@,
        given_count(arg, "tries="@) is None,
        given_count(arg, "password_tries="@) is None,
        given_count(arg, "fingerprint_tries="@) is None,
    ensures
        options_of(front.push(arg) + back) == options_of(front + back),
{
    contains_without(front, arg, back, "show_stars"@);
    last_count_without(front, arg, back, "tries="@);
    last_count_without(front, arg, back, "password_tries="@);
    last_count_without(front, arg, back, "fingerprint_tries="@);
}

/// A method's own count overrides the count for both methods, in whatever
/// order the arguments stand: putting a `tries=` anywhere changes neither.
pub proof fn own_count_overrides(front: Seq<Seq<char>>, back: Seq<Seq<char>>, both: u32)
    ensures
        ({
            let args = front + back;
            let more = front.push("tries="@ + decimal(both as nat)) + back;
            &&& last_count(args, "password_tries="@) matches Some(own)
                ==> options_of(more).password_tries == own
            &&& last_count(args, "fingerprint_tries="@) matches Some(own)
                ==> options_of(more).fingerprint_tries == own
        }),
{
    let arg = "tries="@ + decimal(both as nat);
    written_count("tries="@, both);
    one_count_per_argument(arg);
    last_count_without(front, arg, back, "password_tries="@);
    last_count_without(front, arg, back, "fingerprint_tries="@);
}

/// Where neither method has a count of its own, the last `tries=` sets both.
pub proof fn tries_sets_both(args: Seq<Seq<char>>, both: u32)
    requires
        last_count(args, "password_tries="@) is None,
        last_count(args, "fingerprint_tries="@) is None,
    ensures
        options_of(args.push("tries="@ + decimal(both as nat))).password_tries == both,
        options_of(args.push("tries="@ + decimal(both as nat))).fingerprint_tries == both,
{
    let arg = "tries="@ + decimal(both as nat);
    last_setting_wins(args, "tries="@, both);
    written_count("tries="@, both);
    one_count_per_argument(arg);
    assert(args.push(arg).drop_last() =~= args);
    assert(args.push(arg).last() == arg);
}

} // verus!
