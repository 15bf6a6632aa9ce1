//! Typing a password on a terminal that shows asterisks.

use vstd::prelude::*;
use vstd::string::*;

use crate::codes::PAM_CONV_ERR;

verus! {

/// The password as it is being typed.
#[derive(Debug)]
pub struct PasswordLine {
    pub typed: String,
}

/// What a key did to the line.
#[derive(Debug, Clone, Copy, PartialEq, Eq, Structural)]
pub enum KeyOutcome {
    /// More keys are to follow.
    Reading,
    /// The line is complete.
    Entered,
    /// No key could be read; this is the error for the application.
    Failed { code: i32 },
    /// The user broke off.
    Cancelled,
}

/// What a key brings about.
#[derive(Debug, Clone, Copy)]
pub struct KeyReply {
    /// To be written to the terminal.
    pub echo: &'static str,
    pub outcome: KeyOutcome,
}

/// The key types a character: a letter, a digit, a punctuation mark or a space.
pub open spec fn types_character(key: u8) -> bool {
    0x20 <= key <= 0x7e
}

/// Enter, as either of the two bytes that terminals send for it.
pub open spec fn is_enter(key: u8) -> bool {
    key == 10 || key == 13
}

/// Backspace, as either of the two bytes that terminals send for it.
pub open spec fn is_backspace(key: u8) -> bool {
    key == 8 || key == 127
}

/// Ctrl+C.
pub open spec fn is_interrupt(key: u8) -> bool {
    key == 3
}

/// The line after a key.
pub open spec fn line_after_key(typed: Seq<char>, key: u8) -> Seq<char> {
    if types_character(key) {
        typed.push(key as char)
    } else if is_backspace(key) && typed.len() > 0 {
        typed.drop_last()
    } else {
        typed
    }
}

/// What the terminal shows in answer to a key.
pub open spec fn echo_of(typed: Seq<char>, key: u8) -> Seq<char> {
    if types_character(key) {
        "*"@
    } else if is_backspace(key) && typed.len() > 0 {
        "\x08 \x08"@
    } else if is_enter(key) || is_interrupt(key) {
        "\n"@
    } else {
        ""@
    }
}

/// What a key, or the failure to read one, does to the line.
pub open spec fn outcome_of(key: Option<u8>) -> KeyOutcome {
    match key {
        None => KeyOutcome::Failed { code: PAM_CONV_ERR },
        Some(key) => if is_enter(key) {
            KeyOutcome::Entered
        } else if is_interrupt(key) {
            KeyOutcome::Cancelled
        } else {
            KeyOutcome::Reading
        },
    }
}

impl PasswordLine {
    /// An empty line.
    pub fn new() -> (line: PasswordLine)
        ensures
            line.typed@ == Seq::<char>::empty(),
    {
        PasswordLine { typed: String::new() }
    }
}

/// Takes in a key, or the failure to read one. The password is what was typed
/// when the outcome is [`KeyOutcome::Entered`].
pub fn read_password_with_stars(line: &mut PasswordLine, key: Option<u8>) -> (reply: KeyReply)
    ensures
        final(line).typed@ == (match key {
            Some(key) => line_after_key(old(line).typed@, key),
            None => old(line).typed@,
        }),
        reply.echo@ == (match key {
            Some(key) => echo_of(old(line).typed@, key),
            None => ""@,
        }),
        reply.outcome == outcome_of(key),
        key matches Some(key) ==> 0x20 <= key <= 0x7e ==> final(line).typed@
            == old(line).typed@.push(key as char) && reply.echo@ == "*"@ && reply.outcome
            == KeyOutcome::Reading,
        key == Some(8u8) || key == Some(127u8) ==> reply.outcome == KeyOutcome::Reading
            && if old(line).typed@.len() > 0 {
            final(line).typed@ == old(line).typed@.drop_last() && reply.echo@ == "\x08 \x08"@
        } else {
            final(line).typed@ == old(line).typed@ && reply.echo@ == ""@
        },
        key == Some(10u8) || key == Some(13u8) ==> final(line).typed@ == old(line).typed@
            && reply.echo@ == "\n"@ && reply.outcome == KeyOutcome::Entered,
        key == Some(3u8) ==> reply.echo@ == "\n"@ && reply.outcome == KeyOutcome::Cancelled,
        key is None ==> reply.outcome == (KeyOutcome::Failed { code: 19 }),
{
    match key {
        None => KeyReply { echo: "", outcome: KeyOutcome::Failed { code: PAM_CONV_ERR } },
        Some(key) => {
            if key == 10 || key == 13 {
                KeyReply { echo: "\n", outcome: KeyOutcome::Entered }
            } else if key == 8 || key == 127 {
                match line.typed.pop() {
                    Some(_) => KeyReply { echo: "\x08 \x08", outcome: KeyOutcome::Reading },
                    None => KeyReply { echo: "", outcome: KeyOutcome::Reading },
                }
            } else if key == 3 {
                KeyReply { echo: "\n", outcome: KeyOutcome::Cancelled }
            } else if 0x20 <= key && key <= 0x7e {
                line.typed.push(key as char);
                KeyReply { echo: "*", outcome: KeyOutcome::Reading }
            } else {
                KeyReply { echo: "", outcome: KeyOutcome::Reading }
            }
        },
    }
}

/// Takes in a key while no password is taken: it is swallowed, and only Ctrl+C
/// does anything.
pub fn swallow_key(key: Option<u8>) -> (reply: KeyReply)
    ensures
        key matches Some(key) && is_interrupt(key) ==> reply.echo@ == "\n"@ && reply.outcome
            == KeyOutcome::Cancelled,
        !(key matches Some(key) && is_interrupt(key)) ==> reply.echo@ == ""@ && reply.outcome
            == KeyOutcome::Reading,
        key == Some(3u8) <==> reply.outcome == KeyOutcome::Cancelled,
        key != Some(3u8) ==> reply.echo@ == ""@ && reply.outcome == KeyOutcome::Reading,
{
    match key {
        Some(3) => KeyReply { echo: "\n", outcome: KeyOutcome::Cancelled },
        _ => KeyReply { echo: "", outcome: KeyOutcome::Reading },
    }
}

/// The terminal's local flags for typing a password: as they were, but without
/// the two flags for line editing and for echo.
pub fn typing_flags(flags: u32, line_editing: u32, echo: u32) -> (result: u32)
    ensures
        result == flags & !(line_editing | echo),
        result & line_editing == 0,
        result & echo == 0,
        result | (flags & (line_editing | echo)) == flags,
{
    let result: u32 = flags & !(line_editing | echo);
    assert(result & line_editing == 0 && result & echo == 0 && result | (flags & (line_editing
        | echo)) == flags) by (bit_vector)
        requires
            result == flags & !(line_editing | echo),
    ;
    result
}

/// The line after a series of keys.
pub open spec fn line_after(keys: Seq<u8>) -> Seq<char>
    decreases keys.len(),
{
    if keys.len() == 0 {
        Seq::empty()
    } else {
        line_after_key(line_after(keys.drop_last()), keys.last())
    }
}

/// How many asterisks stand on the terminal after a series of keys.
pub open spec fn stars_after(keys: Seq<u8>) -> int
    decreases keys.len(),
{
    if keys.len() == 0 {
        0
    } else {
        let echo = echo_of(line_after(keys.drop_last()), keys.last());
        stars_after(keys.drop_last()) + (if echo == "*"@ {
            1int
        } else if echo == "\x08 \x08"@ {
            -1int
        } else {
            0int
        })
    }
}

/// There is always one asterisk for each character typed.
pub proof fn one_star_per_character(keys: Seq<u8>)
    ensures
        stars_after(keys) == line_after(keys).len(),
    decreases keys.len(),
{
    if keys.len() > 0 {
        one_star_per_character(keys.drop_last());
        reveal_strlit("*");
        reveal_strlit("\x08 \x08");
        reveal_strlit("\n");
        reveal_strlit("");
        assert("*"@.len() == 1 && "\x08 \x08"@.len() == 3 && "\n"@.len() == 1 && ""@.len() == 0);
        assert("*"@[0] != "\n"@[0]);
    }
}

/// A password holds nothing but letters, digits, punctuation marks and spaces.
pub proof fn password_is_printable(keys: Seq<u8>)
    ensures
        forall|i: int|
            0 <= i < line_after(keys).len() ==> 0x20 <= (#[trigger] line_after(keys)[i]) as int <= 0x7e,
    decreases keys.len(),
{
    if keys.len() > 0 {
        password_is_printable(keys.drop_last());
        let before = line_after(keys.drop_last());
        let after = line_after(keys);
        assert forall|i: int| 0 <= i < after.len() implies 0x20 <= (#[trigger] after[i]) as int
            <= 0x7e by {
            if i < before.len() {
                assert(after[i] == before[i]);
            }
        }
    }
}

/// Backspace takes back the character typed last.
pub proof fn backspace_takes_back(typed: Seq<char>, key: u8, backspace: u8)
    requires
        types_character(key),
        is_backspace(backspace),
    ensures
        line_after_key(line_after_key(typed, key), backspace) == typed,
{
    assert(typed.push(key as char).drop_last() =~= typed);
}

/// Keys that type characters make up the password as they were typed.
pub proof fn typed_keys_are_the_password(keys: Seq<u8>)
    requires
        forall|i: int| 0 <= i < keys.len() ==> types_character(#[trigger] keys[i]),
    ensures
        line_after(keys) == Seq::new(keys.len(), |i: int| keys[i] as char),
    decreases keys.len(),
{
    let whole = Seq::new(keys.len(), |i: int| keys[i] as char);
    if keys.len() > 0 {
        let front = keys.drop_last();
        assert forall|i: int| 0 <= i < front.len() implies types_character(#[trigger] front[i]) by {
            assert(front[i] == keys[i]);
        }
        typed_keys_are_the_password(front);
        assert(types_character(keys[keys.len() - 1]));
        assert(line_after(keys) =~= whole);
    } else {
        assert(line_after(keys) =~= whole);
    }
}

/// The terminal shows the same for every character, so that it does not tell
/// which one was typed.
pub proof fn echo_tells_nothing(typed: Seq<char>, one: u8, other: u8)
    requires
        types_character(one),
        types_character(other),
    ensures
        echo_of(typed, one) == echo_of(typed, other),
{
}

/// What the terminal has shown after a series of keys.
pub open spec fn screen_after(keys: Seq<u8>) -> Seq<char>
    decreases keys.len(),
{
    if keys.len() == 0 {
        Seq::empty()
    } else {
        screen_after(keys.drop_last()) + echo_of(line_after(keys.drop_last()), keys.last())
    }
}

/// Two series of keys have the same shape: they are the same but for which
/// characters they type.
pub open spec fn same_shape(one: Seq<u8>, other: Seq<u8>) -> bool {
    &&& one.len() == other.len()
    &&& forall|i: int|
        0 <= i < one.len() ==> #[trigger] one[i] == #[trigger] other[i] || (types_character(one[i])
            && types_character(other[i]))
}

/// Two series of keys of the same shape look alike on the terminal from the
/// first key to the last: it tells how long the password is, and nothing of
/// what it is.
pub proof fn screen_tells_only_the_shape(one: Seq<u8>, other: Seq<u8>)
    requires
        same_shape(one, other),
    ensures
        screen_after(one) == screen_after(other),
        line_after(one).len() == line_after(other).len(),
    decreases one.len(),
{
    if one.len() > 0 {
        let last = one.len() - 1;
        assert(one[last] == other[last] || (types_character(one[last]) && types_character(
            other[last],
        )));
        assert forall|i: int| 0 <= i < last implies #[trigger] one.drop_last()[i]
            == #[trigger] other.drop_last()[i] || (types_character(one.drop_last()[i])
            && types_character(other.drop_last()[i])) by {
            assert(one[i] == other[i] || (types_character(one[i]) && types_character(other[i])));
        }
        screen_tells_only_the_shape(one.drop_last(), other.drop_last());
    }
}

/// Every key from the space, 0x20, to the tilde, 0x7e, adds its character to
/// the password, whatever is typed already, and shows one asterisk.
pub proof fn every_printable_key_is_typed(typed: Seq<char>, key: u8)
    requires
        0x20 <= key <= 0x7e,
    ensures
        line_after_key(typed, key) == typed.push(key as char),
        echo_of(typed, key) == "*"@,
        outcome_of(Some(key)) == KeyOutcome::Reading,
{
}

/// Any number of such keys make up the password, character by character, and
/// show as many asterisks.
pub proof fn printable_keys_are_the_password(keys: Seq<u8>)
    requires
        forall|i: int| 0 <= i < keys.len() ==> 0x20 <= #[trigger] keys[i] <= 0x7e,
    ensures
        line_after(keys).len() == keys.len(),
        forall|i: int| 0 <= i < keys.len() ==> #[trigger] line_after(keys)[i] as int == keys[i],
        screen_after(keys).len() == keys.len(),
        forall|i: int| 0 <= i < keys.len() ==> #[trigger] screen_after(keys)[i] == '*',
    decreases keys.len(),
{
    if keys.len() > 0 {
        let front = keys.drop_last();
        let last = keys.len() - 1;
        assert forall|i: int| 0 <= i < front.len() implies 0x20 <= #[trigger] front[i] <= 0x7e by {
            assert(front[i] == keys[i]);
        }
        printable_keys_are_the_password(front);
        assert(0x20 <= keys[last] <= 0x7e);
        reveal_strlit("*");
        assert forall|i: int| 0 <= i < keys.len() implies #[trigger] line_after(keys)[i] as int
            == keys[i] by {
            if i < last {
                assert(line_after(keys)[i] == line_after(front)[i]);
                assert(front[i] == keys[i]);
            }
        }
        assert forall|i: int| 0 <= i < keys.len() implies #[trigger] screen_after(keys)[i]
            == '*' by {
            if i < last {
                assert(screen_after(keys)[i] == screen_after(front)[i]);
            }
        }
    }
}

/// The two bytes for Backspace, 8 and 127, take back the character typed last
/// and wipe its asterisk; on an empty line they do nothing.
pub proof fn backspace_corrects(keys: Seq<u8>, typed: u8, backspace: u8)
    requires
        0x20 <= typed <= 0x7e,
        backspace == 8 || backspace == 127,
    ensures
        line_after(keys.push(typed).push(backspace)) == line_after(keys),
        echo_of(line_after(keys.push(typed)), backspace) == "\x08 \x08"@,
        line_after_key(Seq::empty(), backspace) == Seq::<char>::empty(),
        echo_of(Seq::empty(), backspace) == ""@,
        outcome_of(Some(backspace)) == KeyOutcome::Reading,
{
    let one = keys.push(typed);
    let two = one.push(backspace);
    assert(two.drop_last() =~= one);
    assert(one.drop_last() =~= keys);
    assert(line_after(one) == line_after_key(line_after(keys), typed));
    assert(line_after(two) == line_after_key(line_after(one), backspace));
    assert(line_after(keys).push(typed as char).drop_last() =~= line_after(keys));
}

/// Enter, as 10 or 13, ends the line, and Ctrl+C, 3, breaks it off; both move
/// to the next line of the terminal and leave the password as it is. A key that
/// cannot be read ends the line with an error.
pub proof fn line_ends_by_key(typed: Seq<char>)
    ensures
        outcome_of(Some(10)) == KeyOutcome::Entered,
        outcome_of(Some(13)) == KeyOutcome::Entered,
        outcome_of(Some(3)) == KeyOutcome::Cancelled,
        outcome_of(None) == (KeyOutcome::Failed { code: 19 }),
        line_after_key(typed, 10) == typed,
        line_after_key(typed, 13) == typed,
        line_after_key(typed, 3) == typed,
        echo_of(typed, 10) == "\n"@,
        echo_of(typed, 13) == "\n"@,
        echo_of(typed, 3) == "\n"@,
{
}

/// Every other key changes nothing and shows nothing.
pub proof fn other_keys_are_passed_over(typed: Seq<char>, key: u8)
    requires
        key < 0x20 || key > 0x7e,
        key != 3 && key != 8 && key != 10 && key != 13 && key != 127,
    ensures
        line_after_key(typed, key) == typed,
        echo_of(typed, key) == ""@,
        outcome_of(Some(key)) == KeyOutcome::Reading,
{
}

} // verus!
