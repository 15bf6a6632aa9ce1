//! Where the notices of a whole run stand on the terminal.
//!
//! Rows are counted from the row in which the first prompt was written.

use vstd::prelude::*;
#[allow(unused_imports)]
use vstd::string::*;

#[allow(unused_imports)]
use crate::fingerprint::{
    error_words, fingerprint_step, notice_colour, notice_words, shown, EventView, FingerprintState,
    Notice,
};
#[allow(unused_imports)]
use crate::password::{password_step, PasswordEventView, PasswordState, PasswordStep};
#[allow(unused_imports)]
use crate::run_laws::{invariant_holds, run_after, run_step, Run, RunEvent, Setting};
#[allow(unused_imports)]
use crate::session::{
    attempt_text, cleared_lines, colour_code, left_prompt, lines_to_clear, notice_lead, notice_text,
    password_left, prompt_of, warning_of, Colour, Session, WAITING_PROMPT,
};
#[allow(unused_imports)]
use crate::text::decimal;

verus! {

/// The text begins with the control sequence that moves the cursor one row up.
pub open spec fn moves_up(text: Seq<char>) -> bool {
    text.len() >= 4 && text[0] == '\x1b' && text[1] == '[' && text[2] == '1' && text[3] == 'A'
}

/// The row of the cursor after a text is written with the cursor in `row`.
pub open spec fn row_after(row: int, text: Seq<char>) -> int
    decreases text.len(),
{
    if text.len() == 0 {
        row
    } else if moves_up(text) {
        row_after(row - 1, text.skip(4))
    } else if text[0] == '\n' {
        row_after(row + 1, text.skip(1))
    } else {
        row_after(row, text.skip(1))
    }
}

/// The text keeps the cursor in its row, whatever is written after it.
pub open spec fn level(text: Seq<char>) -> bool {
    forall|i: int|
        0 <= i < text.len() ==> #[trigger] text[i] != '\n' && (text[i] == '\x1b' ==> i + 2
            < text.len() && text[i + 2] != '1')
}

proof fn level_keeps_the_row(row: int, text: Seq<char>, rest: Seq<char>)
    requires
        level(text),
    ensures
        row_after(row, text + rest) == row_after(row, rest),
    decreases text.len(),
{
    if text.len() == 0 {
        assert(text + rest =~= rest);
    } else {
        let tail = text.skip(1);
        assert((text + rest).skip(1) =~= tail + rest);
        assert forall|i: int| 0 <= i < tail.len() implies #[trigger] tail[i] != '\n' && (tail[i]
            == '\x1b' ==> i + 2 < tail.len() && tail[i + 2] != '1') by {
            assert(tail[i] == text[i + 1]);
        }
        assert((text + rest)[0] == text[0]);
        if text[0] == '\x1b' {
            assert((text + rest)[2] == text[2]);
        }
        level_keeps_the_row(row, tail, rest);
    }
}

proof fn level_texts_join(left: Seq<char>, right: Seq<char>)
    requires
        level(left),
        level(right),
    ensures
        level(left + right),
{
    let whole = left + right;
    assert forall|i: int| 0 <= i < whole.len() implies #[trigger] whole[i] != '\n' && (whole[i]
        == '\x1b' ==> i + 2 < whole.len() && whole[i + 2] != '1') by {
        if i < left.len() {
            assert(whole[i] == left[i]);
        } else {
            assert(whole[i] == right[i - left.len()]);
        }
    }
}

proof fn up_sequences_move_up(row: int, lines: nat, rest: Seq<char>)
    ensures
        row_after(row, cleared_lines(lines) + rest) == row_after(row - lines, rest),
    decreases lines,
{
    if lines == 0 {
        assert(cleared_lines(lines) + rest =~= rest);
    } else {
        let up = "\x1b[1A\r\x1b[2K"@;
        let fewer = (lines - 1) as nat;
        assert(cleared_lines(lines) + rest =~= cleared_lines(fewer) + (up + rest));
        up_sequences_move_up(row, fewer, up + rest);
        reveal_strlit("\x1b[1A\r\x1b[2K");
        let clear = up.skip(4);
        assert((up + rest).skip(4) =~= clear + rest);
        assert(moves_up(up + rest));
        assert(level(clear));
        level_keeps_the_row(row - lines, clear, rest);
    }
}

/// A notice is written `lines` rows above the cursor, and the prompt in the row
/// below the notice.
proof fn notice_rows(row: int, lines: nat, colour: Colour, words: Seq<char>, prompt: Seq<char>)
    requires
        level(words),
        level(prompt),
    ensures
        row_after(row, notice_lead(lines, colour)) == row - lines,
        row_after(row, notice_text(lines, colour, words, prompt)) == row - lines + 1,
{
    reveal_strlit("\r\x1b[2K");
    reveal_strlit("\x1b[31m");
    reveal_strlit("\x1b[32m");
    reveal_strlit("\x1b[0m\n");
    let clear = "\r\x1b[2K"@;
    let code = colour_code(colour);
    assert(level(clear));
    assert(level(code));

    assert(notice_lead(lines, colour) =~= clear + (cleared_lines(lines) + code));
    level_keeps_the_row(row, clear, cleared_lines(lines) + code);
    up_sequences_move_up(row, lines, code);
    assert(code + Seq::<char>::empty() =~= code);
    level_keeps_the_row(row - lines, code, Seq::empty());

    let reset = "\x1b[0m\n"@.take(4);
    let below = seq!['\n'] + prompt;
    let tail = code + (words + (reset + below));
    assert("\x1b[0m\n"@ =~= reset + seq!['\n']);
    assert(notice_text(lines, colour, words, prompt) =~= clear + (cleared_lines(lines) + tail));
    level_keeps_the_row(row, clear, cleared_lines(lines) + tail);
    up_sequences_move_up(row, lines, tail);
    level_keeps_the_row(row - lines, code, words + (reset + below));
    level_keeps_the_row(row - lines, words, reset + below);
    assert(level(reset));
    level_keeps_the_row(row - lines, reset, below);
    assert(below.skip(1) =~= prompt);
    assert(prompt + Seq::<char>::empty() =~= prompt);
    level_keeps_the_row(row - lines + 1, prompt, Seq::empty());
}

proof fn decimals_are_level(number: nat)
    ensures
        level(decimal(number)),
    decreases number,
{
    if number >= 10 {
        decimals_are_level(number / 10);
    }
}

proof fn attempts_are_level(lead: Seq<char>, failures: nat, tries: nat)
    requires
        level(lead),
    ensures
        level(attempt_text(lead, failures, tries)),
{
    reveal_strlit(" (attempt ");
    reveal_strlit("/");
    reveal_strlit(").");
    decimals_are_level(failures);
    decimals_are_level(tries);
    level_texts_join(lead, " (attempt "@);
    level_texts_join(lead + " (attempt "@, decimal(failures));
    level_texts_join(lead + " (attempt "@ + decimal(failures), "/"@);
    level_texts_join(lead + " (attempt "@ + decimal(failures) + "/"@, decimal(tries));
    level_texts_join(
        lead + " (attempt "@ + decimal(failures) + "/"@ + decimal(tries),
        ")."@,
    );
}

proof fn warnings_are_level(s: Session)
    ensures
        level(warning_of(s)),
{
    reveal_strlit("Password incorrect");
    reveal_strlit("Fingerprint did not match");
    reveal_strlit(" - ");
    let password = attempt_text(
        "Password incorrect"@,
        s.password_failures as nat,
        s.options.password_tries as nat,
    );
    let fingerprint = attempt_text(
        "Fingerprint did not match"@,
        s.fingerprint_failures as nat,
        s.options.fingerprint_tries as nat,
    );
    assert(level("Password incorrect"@));
    assert(level("Fingerprint did not match"@));
    assert(level(" - "@));
    attempts_are_level(
        "Password incorrect"@,
        s.password_failures as nat,
        s.options.password_tries as nat,
    );
    attempts_are_level(
        "Fingerprint did not match"@,
        s.fingerprint_failures as nat,
        s.options.fingerprint_tries as nat,
    );
    level_texts_join(password, " - "@);
    level_texts_join(password + " - "@, fingerprint);
}

proof fn prompts_are_level(s: Session)
    ensures
        level(prompt_of(s)),
        level(WAITING_PROMPT@),
{
    reveal_strlit("Password: ");
    reveal_strlit("Waiting for fingerprint...");
}

proof fn errors_are_level(text: Seq<char>)
    ensures
        error_words(text) matches Some(words) ==> level(words),
{
    reveal_strlit("[PAM] Permission denied accessing fingerprint reader.");
    reveal_strlit("[PAM] Fingerprint reader initialization failed.");
}

/// The text is a notice that is written `lines` rows above the cursor.
#[verifier::opaque]
pub open spec fn is_notice(lines: nat, text: Seq<char>) -> bool {
    exists|colour: Colour, words: Seq<char>, prompt: Seq<char>|
        level(words) && level(prompt) && text == #[trigger] notice_text(
            lines,
            colour,
            words,
            prompt,
        )
}

proof fn shown_is_a_notice(s: Session, notice: Notice)
    requires
        s.tty,
        notice matches Notice::Error { words } ==> level(words),
    ensures
        shown(s, notice) matches Some(text) && is_notice(lines_to_clear(s), text),
{
    reveal(shown);
    reveal(is_notice);
    reveal_strlit("Fingerprint reader is busy.");
    reveal_strlit("Fingerprint scanner was reconnected.");
    warnings_are_level(s);
    prompts_are_level(s);
    let words = notice_words(s, notice);
    assert(level(words));
    assert(shown(s, notice) == Some(
        notice_text(lines_to_clear(s), notice_colour(notice), words, prompt_of(s)),
    ));
}

#[verifier::spinoff_prover]
#[verifier::rlimit(40)]
proof fn fingerprint_keeps_its_place(f: FingerprintState, s: Session, e: EventView)
    requires
        s.tty,
    ensures
        ({
            let (g, t, reply) = fingerprint_step(f, s, e);
            &&& t.tty
            &&& match reply.notice {
                Some(text) => is_notice(lines_to_clear(s), text) && t.line_above && !t.below_prompt,
                None => t.line_above == s.line_above && t.below_prompt == s.below_prompt,
            }
        }),
{
    assert forall|u: Session, notice: Notice|
        u.tty && (notice matches Notice::Error { words } ==> level(words)) implies (
    #[trigger] shown(u, notice) matches Some(text) && is_notice(lines_to_clear(u), text)) by {
        shown_is_a_notice(u, notice);
    }
    assert forall|text: Seq<char>| #[trigger] error_words(text) matches Some(words) ==> level(
        words,
    ) by {
        errors_are_level(text);
    }
}

/// The user's key moves the cursor to the line below the prompt: Enter, or
/// Ctrl+C.
pub open spec fn leaves_prompt(run: Run, event: RunEvent) -> bool {
    match event {
        RunEvent::Password(event) => {
            ||| run.password.step == PasswordStep::Prompting && (event is Entered
                || event is Cancelled)
            ||| run.password.step == PasswordStep::Waiting && event is Cancelled
        },
        RunEvent::Fingerprint(_) => false,
    }
}

/// What is written to the terminal in reply to an event, if anything.
pub open spec fn told(run: Run, event: RunEvent) -> Option<Seq<char>> {
    match event {
        RunEvent::Password(event) => password_step(run.password, run.session, event).2.notice,
        RunEvent::Fingerprint(event) => fingerprint_step(
            run.fingerprint,
            run.session,
            event,
        ).2.notice,
    }
}

/// The row of the cursor when a reply comes, where it was in `row` before the
/// event.
pub open spec fn row_at_reply(run: Run, event: RunEvent, row: int) -> int {
    if leaves_prompt(run, event) {
        row + 1
    } else {
        row
    }
}

/// The row of the cursor after a series of events and the replies to them. A
/// prompt and the asterisks behind it stay in the row.
pub open spec fn cursor_after(setting: Setting, events: Seq<RunEvent>) -> int
    decreases events.len(),
{
    if events.len() == 0 {
        0
    } else {
        let run = run_after(setting, events.drop_last());
        let row = row_at_reply(run, events.last(), cursor_after(setting, events.drop_last()));
        match told(run, events.last()) {
            Some(text) => row_after(row, text),
            None => row,
        }
    }
}

/// While a password is asked for, or keys are swallowed, the cursor stands in
/// the line of the prompt.
pub open spec fn at_prompt(run: Run) -> bool {
    run.password.step != PasswordStep::Hashing && run.password.step != PasswordStep::Done
        ==> !run.session.below_prompt
}

/// The first reply of the password method where no password is taken: the
/// prompt that asks for a finger.
pub open spec fn opens_with_waiting(run: Run, event: RunEvent) -> bool {
    &&& run.password.step == PasswordStep::Idle
    &&& event == RunEvent::Password(PasswordEventView::Begin)
    &&& told(run, event) == Some(WAITING_PROMPT@)
}

#[verifier::spinoff_prover]
proof fn password_keeps_its_place(p: PasswordState, s: Session, e: PasswordEventView)
    requires
        s.tty,
        p.step == PasswordStep::Prompting || p.step == PasswordStep::Hashing ==> password_left(s),
        p.step != PasswordStep::Hashing && p.step != PasswordStep::Done ==> !s.below_prompt,
    ensures
        ({
            let (q, t, reply) = password_step(p, s, e);
            let entered = p.step == PasswordStep::Prompting && (e is Entered || e is Cancelled)
                || p.step == PasswordStep::Waiting && e is Cancelled;
            let at_reply = if entered {
                left_prompt(s)
            } else {
                s
            };
            &&& t.tty
            &&& q.step != PasswordStep::Hashing && q.step != PasswordStep::Done ==> !t.below_prompt
            &&& match reply.notice {
                Some(text) => {
                    ||| p.step == PasswordStep::Idle && e is Begin && text == WAITING_PROMPT@ && t
                        == s
                    ||| is_notice(lines_to_clear(at_reply), text) && t.line_above
                        && !t.below_prompt
                },
                None => t.line_above == at_reply.line_above && t.below_prompt
                    == at_reply.below_prompt,
            }
        }),
{
    assert forall|u: Session, prompt: Seq<char>| level(prompt) implies is_notice(
        lines_to_clear(u),
        #[trigger] notice_text(lines_to_clear(u), Colour::Red, warning_of(u), prompt),
    ) by {
        reveal(is_notice);
        warnings_are_level(u);
    }
    assert forall|u: Session| level(#[trigger] prompt_of(u)) by {
        prompts_are_level(u);
    }
    assert(level(Seq::empty()));
}

proof fn place_is_kept(setting: Setting, events: Seq<RunEvent>, event: RunEvent)
    requires
        setting.tty,
        run_after(setting, events).session.tty,
        at_prompt(run_after(setting, events)),
    ensures
        ({
            let run = run_after(setting, events);
            let next = run_step(run, event);
            let row = row_at_reply(run, event, lines_to_clear(run.session) as int);
            &&& next.session.tty
            &&& at_prompt(next)
            &&& match told(run, event) {
                Some(text) => {
                    ||| opens_with_waiting(run, event) && next.session == run.session
                    ||| row >= 0 && is_notice(row as nat, text) && lines_to_clear(next.session)
                        == 1
                },
                None => lines_to_clear(next.session) == row,
            }
        }),
{
    let run = run_after(setting, events);
    invariant_holds(setting, events);
    match event {
        RunEvent::Password(event) => {
            password_keeps_its_place(run.password, run.session, event);
        },
        RunEvent::Fingerprint(event) => {
            fingerprint_keeps_its_place(run.fingerprint, run.session, event);
        },
    }
}

proof fn notice_is_written_in_the_first_row(row: nat, text: Seq<char>)
    requires
        is_notice(row, text),
    ensures
        in_first_row(row as int, text),
{
    reveal(is_notice);
    let (colour, words, prompt) = choose|colour: Colour, words: Seq<char>, prompt: Seq<char>|
        level(words) && level(prompt) && text == #[trigger] notice_text(
            row,
            colour,
            words,
            prompt,
        );
    notice_rows(row as int, row, colour, words, prompt);
}

/// The text is a notice whose words are written in the first row, with the
/// cursor in `row`, and whose prompt stands in the row below them.
pub open spec fn in_first_row(row: int, text: Seq<char>) -> bool {
    exists|lines: nat, colour: Colour, words: Seq<char>, prompt: Seq<char>|
        {
            &&& text == #[trigger] notice_text(lines, colour, words, prompt)
            &&& level(words) && level(prompt)
            &&& row_after(row, notice_lead(lines, colour)) == 0
            &&& row_after(row, text) == 1
        }
}

/// At every moment of a run on a terminal the session knows where the cursor
/// is: as many rows below the first one as the next notice will clear. While a
/// password is asked for the cursor stands in the line of the prompt.
pub proof fn session_knows_the_cursor(setting: Setting, events: Seq<RunEvent>)
    requires
        setting.tty,
    ensures
        cursor_after(setting, events) == lines_to_clear(run_after(setting, events).session),
        at_prompt(run_after(setting, events)),
        run_after(setting, events).session.tty,
    decreases events.len(),
{
    if events.len() > 0 {
        let front = events.drop_last();
        let run = run_after(setting, front);
        session_knows_the_cursor(setting, front);
        place_is_kept(setting, front, events.last());
        match told(run, events.last()) {
            Some(text) => {
                let row = row_at_reply(run, events.last(), cursor_after(setting, front));
                if opens_with_waiting(run, events.last()) && run_step(run, events.last()).session
                    == run.session {
                    prompts_are_level(run.session);
                    assert(text + Seq::<char>::empty() =~= text);
                    level_keeps_the_row(row, text, Seq::empty());
                } else {
                    notice_is_written_in_the_first_row(row as nat, text);
                }
            },
            None => {},
        }
    }
}

/// All notices of a run share a single line: in whatever order the events of
/// both methods come, each notice is written in the row of the first prompt, in
/// place of the one before it, and the prompt then stands directly below it.
/// Nothing else is written but the prompt that asks for a finger from the
/// start, where no password is taken.
pub proof fn notices_share_one_line(setting: Setting, events: Seq<RunEvent>, event: RunEvent)
    requires
        setting.tty,
    ensures
        ({
            let run = run_after(setting, events);
            let row = row_at_reply(run, event, cursor_after(setting, events));
            told(run, event) matches Some(text) ==> opens_with_waiting(run, event)
                || in_first_row(row, text)
        }),
{
    session_knows_the_cursor(setting, events);
    place_is_kept(setting, events, event);
    let run = run_after(setting, events);
    let row = row_at_reply(run, event, cursor_after(setting, events));
    if let Some(text) = told(run, event) {
        if !opens_with_waiting(run, event) {
            notice_is_written_in_the_first_row(row as nat, text);
        }
    }
}

} // verus!
