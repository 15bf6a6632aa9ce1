//! What the administrator's arguments mean, by what is written in them.

use vstd::prelude::*;
#[allow(unused_imports)]
use vstd::string::*;
#[allow(unused_imports)]
use vstd::utf8::*;

#[allow(unused_imports)]
use crate::options::{
    all_valid, decoded, given_count, last_count, last_count_without, options_of, texts, utf8_texts,
    Options,
};
#[allow(unused_imports)]
use crate::text::{count_is_the_number_written, count_value, lossy_text, writes};

verus! {

/// The argument is `name` with a number behind it that fits in 32 bits.
pub open spec fn sets(arg: Seq<char>, name: Seq<char>, number: int) -> bool {
    &&& 0 <= number <= 0xffff_ffff
    &&& exists|digits: Seq<char>| arg == #[trigger] (name + digits) && writes(digits, number)
}

/// No argument is `name` with a number behind it.
pub open spec fn never_set(args: Seq<Seq<char>>, name: Seq<char>) -> bool {
    forall|i: int, number: int| 0 <= i < args.len() ==> !#[trigger] sets(args[i], name, number)
}

/// The argument at `at` is `name` with this number, and none after it is `name`
/// with a number.
pub open spec fn set_last_at(args: Seq<Seq<char>>, name: Seq<char>, at: int, number: int) -> bool {
    &&& 0 <= at < args.len()
    &&& sets(args[at], name, number)
    &&& forall|i: int, later: int|
        at < i < args.len() ==> !#[trigger] sets(args[i], name, later)
}

proof fn setting_is_given(arg: Seq<char>, name: Seq<char>, count: u32)
    ensures
        given_count(arg, name) == Some(count) <==> sets(arg, name, count as int),
{
    if sets(arg, name, count as int) {
        let digits = choose|digits: Seq<char>|
            arg == #[trigger] (name + digits) && writes(digits, count as int);
        assert(arg.subrange(0, name.len() as int) =~= name);
        assert(arg.skip(name.len() as int) =~= digits);
        count_is_the_number_written(digits, count);
    }
    if given_count(arg, name) == Some(count) {
        let digits = arg.skip(name.len() as int);
        assert(arg =~= name + digits);
        count_is_the_number_written(digits, count);
    }
}

proof fn no_setting_gives_nothing(arg: Seq<char>, name: Seq<char>)
    ensures
        given_count(arg, name) is None <==> forall|number: int| !#[trigger] sets(arg, name, number),
{
    if given_count(arg, name) is None {
        assert forall|number: int| !#[trigger] sets(arg, name, number) by {
            if 0 <= number <= 0xffff_ffff {
                setting_is_given(arg, name, number as u32);
            }
        }
    } else {
        let count = given_count(arg, name)->0;
        setting_is_given(arg, name, count);
        assert(sets(arg, name, count as int));
    }
}

proof fn never_set_counts_nothing(args: Seq<Seq<char>>, name: Seq<char>)
    requires
        never_set(args, name),
    ensures
        last_count(args, name) is None,
    decreases args.len(),
{
    if args.len() > 0 {
        let front = args.drop_last();
        assert forall|i: int, number: int| 0 <= i < front.len() implies !#[trigger] sets(
            front[i],
            name,
            number,
        ) by {
            assert(!sets(args[i], name, number));
        }
        never_set_counts_nothing(front, name);
        no_setting_gives_nothing(args.last(), name);
        assert forall|number: int| !#[trigger] sets(args.last(), name, number) by {
            assert(!sets(args[args.len() - 1], name, number));
        }
    }
}

proof fn last_setting_counts(args: Seq<Seq<char>>, name: Seq<char>, at: int, count: u32)
    requires
        set_last_at(args, name, at, count as int),
    ensures
        last_count(args, name) == Some(count),
    decreases args.len(),
{
    let last = args.len() - 1;
    if at == last {
        setting_is_given(args[at], name, count);
    } else {
        let front = args.drop_last();
        assert forall|i: int, later: int| at < i < front.len() implies !#[trigger] sets(
            front[i],
            name,
            later,
        ) by {
            assert(!sets(args[i], name, later));
        }
        assert(front[at] == args[at]);
        last_setting_counts(front, name, at, count);
        no_setting_gives_nothing(args.last(), name);
        assert forall|number: int| !#[trigger] sets(args.last(), name, number) by {
            assert(!sets(args[last], name, number));
        }
    }
}

/// Asterisks are shown if and only if one of the arguments is `show_stars`.
pub proof fn stars_are_asked_for_by_name(args: Seq<Seq<char>>)
    ensures
        options_of(args).show_stars <==> exists|i: int|
            0 <= i < args.len() && #[trigger] args[i] == "show_stars"@,
{
}

/// A method's own option gives its number of attempts, whatever the other
/// arguments are and wherever they stand.
pub proof fn own_option_gives_the_attempts(args: Seq<Seq<char>>, at: int, count: u32)
    ensures
        set_last_at(args, "password_tries="@, at, count as int)
            ==> options_of(args).password_tries == count,
        set_last_at(args, "fingerprint_tries="@, at, count as int)
            ==> options_of(args).fingerprint_tries == count,
{
    if set_last_at(args, "password_tries="@, at, count as int) {
        last_setting_counts(args, "password_tries="@, at, count);
    }
    if set_last_at(args, "fingerprint_tries="@, at, count as int) {
        last_setting_counts(args, "fingerprint_tries="@, at, count);
    }
}

/// A method without an option of its own gets the number of the last `tries=`.
pub proof fn common_option_gives_the_attempts(args: Seq<Seq<char>>, at: int, count: u32)
    requires
        set_last_at(args, "tries="@, at, count as int),
    ensures
        never_set(args, "password_tries="@) ==> options_of(args).password_tries == count,
        never_set(args, "fingerprint_tries="@) ==> options_of(args).fingerprint_tries == count,
{
    last_setting_counts(args, "tries="@, at, count);
    if never_set(args, "password_tries="@) {
        never_set_counts_nothing(args, "password_tries="@);
    }
    if never_set(args, "fingerprint_tries="@) {
        never_set_counts_nothing(args, "fingerprint_tries="@);
    }
}

/// Where no argument gives a number to a method it gets three attempts,
/// whatever the arguments are.
pub proof fn three_attempts_where_none_are_given(args: Seq<Seq<char>>)
    requires
        never_set(args, "tries="@),
    ensures
        never_set(args, "password_tries="@) ==> options_of(args).password_tries == 3,
        never_set(args, "fingerprint_tries="@) ==> options_of(args).fingerprint_tries == 3,
{
    never_set_counts_nothing(args, "tries="@);
    if never_set(args, "password_tries="@) {
        never_set_counts_nothing(args, "password_tries="@);
    }
    if never_set(args, "fingerprint_tries="@) {
        never_set_counts_nothing(args, "fingerprint_tries="@);
    }
}

/// `show_stars` switches the asterisks on and changes neither number of
/// attempts, wherever it stands among the arguments.
pub proof fn show_stars_changes_no_number(front: Seq<Seq<char>>, back: Seq<Seq<char>>)
    ensures
        options_of(front.push("show_stars"@) + back) == (Options {
            show_stars: true,
            ..options_of(front + back)
        }),
{
    let word = "show_stars"@;
    reveal_strlit("show_stars");
    reveal_strlit("tries=");
    reveal_strlit("password_tries=");
    reveal_strlit("fingerprint_tries=");
    assert("tries="@[0] == 't' && "password_tries="@[0] == 'p' && "fingerprint_tries="@[0] == 'f');
    assert(word[0] == 's');
    assert(!("tries="@.is_prefix_of(word)));
    assert(!("password_tries="@.is_prefix_of(word)));
    assert(!("fingerprint_tries="@.is_prefix_of(word)));
    last_count_without(front, word, back, "tries="@);
    last_count_without(front, word, back, "password_tries="@);
    last_count_without(front, word, back, "fingerprint_tries="@);
    assert((front.push(word) + back)[front.len() as int] == word);
}

/// The arguments are taken as they are passed: all of them, each as it is, in
/// their order.
pub proof fn arguments_are_taken_as_they_are(args: Seq<String>, argv: Seq<Vec<u8>>)
    ensures
        texts(args).len() == args.len(),
        forall|i: int| 0 <= i < args.len() ==> #[trigger] texts(args)[i] == args[i]@,
        all_valid(argv) <==> forall|i: int|
            0 <= i < argv.len() ==> valid_utf8((#[trigger] argv[i])@),
        decoded(argv).len() == argv.len(),
        forall|i: int| 0 <= i < argv.len() ==> #[trigger] decoded(argv)[i] == lossy_text(argv[i]@),
        utf8_texts(argv).len() == argv.len(),
        forall|i: int|
            0 <= i < argv.len() ==> #[trigger] utf8_texts(argv)[i] == decode_utf8(argv[i]@),
{
}

} // verus!
