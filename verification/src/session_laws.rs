//! What the session means, by its counts and flags.

use vstd::prelude::*;
#[allow(unused_imports)]
use vstd::string::*;

#[allow(unused_imports)]
use crate::options::Options;
#[allow(unused_imports)]
use crate::session::{
    answer_of, fingerprint_left, fresh, is_over, left_prompt, lines_to_clear, notice_text, notified,
    password_left, prompt_of, recorded, warning_of, Colour, Report, Session,
};
#[allow(unused_imports)]
use crate::text::decimal;

verus! {

/// Nobody has been let in and nobody has broken off.
pub open spec fn undecided(s: Session) -> bool {
    !s.succeeded && !s.cancelled
}

/// A password can still let the user in: there have been fewer wrong ones than
/// the options allow.
pub open spec fn password_counts(s: Session) -> bool {
    undecided(s) && s.password_open && s.password_failures < s.options.password_tries
}

/// A scan can still let the user in: there have been fewer without a match than
/// the options allow.
pub open spec fn scan_counts(s: Session) -> bool {
    undecided(s) && s.fingerprint_open && s.fingerprint_failures < s.options.fingerprint_tries
}

/// The run goes on exactly as long as a password or a scan can still let the
/// user in, however many of the other kind have failed.
pub proof fn run_goes_on_while_either_counts(s: Session)
    ensures
        !is_over(s) <==> password_counts(s) || scan_counts(s),
        password_counts(s) <==> !is_over(s) && password_left(s),
        scan_counts(s) <==> !is_over(s) && fingerprint_left(s),
        password_left(s) <==> s.password_open && s.password_failures < s.options.password_tries,
        fingerprint_left(s) <==> s.fingerprint_open && s.fingerprint_failures
            < s.options.fingerprint_tries,
{
}

/// A run begins with nothing used up, and with the attempts that the options
/// give.
pub proof fn run_begins_with_everything_left(options: Options, tty: bool)
    ensures
        ({
            let s = fresh(options, tty);
            &&& s.options == options && s.tty == tty
            &&& s.password_failures == 0 && s.fingerprint_failures == 0
            &&& s.password_open && s.fingerprint_open && !s.succeeded && !s.cancelled
            &&& !s.line_above && !s.below_prompt
            &&& password_counts(s) <==> options.password_tries > 0
            &&& scan_counts(s) <==> options.fingerprint_tries > 0
        }),
{
}

/// An accepted password lets the user in if a password still counts, and a
/// match if a scan still counts; nothing else changes.
pub proof fn success_is_recorded(s: Session)
    ensures
        password_counts(s) ==> recorded(s, Report::PasswordAccepted) == (Session {
            succeeded: true,
            ..s
        }),
        !password_counts(s) ==> recorded(s, Report::PasswordAccepted) == s,
        scan_counts(s) ==> recorded(s, Report::FingerprintMatched) == (Session {
            succeeded: true,
            ..s
        }),
        !scan_counts(s) ==> recorded(s, Report::FingerprintMatched) == s,
{
}

/// A wrong password, and a scan without a match, use up one attempt of their
/// own kind if it still counts; nothing else changes.
pub proof fn failure_is_recorded(s: Session)
    ensures
        ({
            let t = recorded(s, Report::PasswordRejected);
            if password_counts(s) {
                t.password_failures == s.password_failures + 1 && t == (Session {
                    password_failures: t.password_failures,
                    ..s
                })
            } else {
                t == s
            }
        }),
        ({
            let t = recorded(s, Report::FingerprintRejected);
            if scan_counts(s) {
                t.fingerprint_failures == s.fingerprint_failures + 1 && t == (Session {
                    fingerprint_failures: t.fingerprint_failures,
                    ..s
                })
            } else {
                t == s
            }
        }),
{
}

/// The end of a method closes that method alone, and Ctrl+C ends the run,
/// unless it has ended already; nothing else changes.
pub proof fn endings_are_recorded(s: Session)
    ensures
        password_counts(s) || scan_counts(s) ==> {
            &&& recorded(s, Report::PasswordClosed) == (Session { password_open: false, ..s })
            &&& recorded(s, Report::FingerprintClosed) == (Session { fingerprint_open: false, ..s })
            &&& recorded(s, Report::Cancelled) == (Session { cancelled: true, ..s })
        },
        !password_counts(s) && !scan_counts(s) ==> {
            &&& recorded(s, Report::PasswordClosed) == s
            &&& recorded(s, Report::FingerprintClosed) == s
            &&& recorded(s, Report::Cancelled) == s
        },
{
}

/// The application is answered 0 where the user was let in, and 7 otherwise.
pub proof fn answer_tells_success(s: Session)
    ensures
        s.succeeded ==> answer_of(s) == 0,
        !s.succeeded ==> answer_of(s) == 7,
{
}

/// The warning tells of each method that has failed how often it has failed
/// and how often it may, the password first, in one line.
pub proof fn warning_tells_both_counts(s: Session)
    ensures
        ({
            let password = decimal(s.password_failures as nat) + "/"@ + decimal(
                s.options.password_tries as nat,
            );
            let scan = decimal(s.fingerprint_failures as nat) + "/"@ + decimal(
                s.options.fingerprint_tries as nat,
            );
            &&& s.password_failures > 0 && s.fingerprint_failures > 0 ==> warning_of(s)
                =~= "Password incorrect (attempt "@ + password
                + "). - Fingerprint did not match (attempt "@ + scan + ")."@
            &&& s.password_failures > 0 && s.fingerprint_failures == 0 ==> warning_of(s)
                =~= "Password incorrect (attempt "@ + password + ")."@
            &&& s.password_failures == 0 && s.fingerprint_failures > 0 ==> warning_of(s)
                =~= "Fingerprint did not match (attempt "@ + scan + ")."@
            &&& s.password_failures == 0 && s.fingerprint_failures == 0 ==> warning_of(s).len() == 0
        }),
{
    reveal_strlit("Password incorrect (attempt ");
    reveal_strlit("Password incorrect");
    reveal_strlit(" (attempt ");
    reveal_strlit("/");
    reveal_strlit(").");
    reveal_strlit(" - ");
    reveal_strlit("). - Fingerprint did not match (attempt ");
    reveal_strlit("Fingerprint did not match (attempt ");
    reveal_strlit("Fingerprint did not match");
    assert("Password incorrect (attempt "@ =~= "Password incorrect"@ + " (attempt "@);
    assert("Fingerprint did not match (attempt "@ =~= "Fingerprint did not match"@
        + " (attempt "@);
    assert("). - Fingerprint did not match (attempt "@ =~= ")."@ + " - "@
        + "Fingerprint did not match"@ + " (attempt "@);
}

/// The prompt asks for a password while wrong ones are left, then for a finger
/// while scans are left, and then for nothing.
pub proof fn prompt_follows_the_counts(s: Session)
    ensures
        s.password_failures < s.options.password_tries ==> prompt_of(s) == "Password: "@,
        s.password_failures >= s.options.password_tries ==> if s.fingerprint_open
            && s.fingerprint_failures < s.options.fingerprint_tries {
            prompt_of(s) == "Waiting for fingerprint..."@
        } else {
            prompt_of(s).len() == 0
        },
{
}

/// A notice clears its own line and each line above that it replaces, shows
/// its words in its colour, and puts the prompt in the next line.
pub proof fn notice_is_written_out(
    s: Session,
    colour: Colour,
    words: Seq<char>,
    prompt: Seq<char>,
)
    ensures
        ({
            let up = "\x1b[1A\r\x1b[2K"@;
            let cleared = if s.line_above && s.below_prompt {
                up + up
            } else if s.line_above || s.below_prompt {
                up
            } else {
                Seq::empty()
            };
            let code = if colour == Colour::Red {
                "\x1b[31m"@
            } else {
                "\x1b[32m"@
            };
            notice_text(lines_to_clear(s), colour, words, prompt) =~= "\r\x1b[2K"@ + cleared + code
                + words + "\x1b[0m\n"@ + prompt
        }),
{
    reveal_with_fuel(crate::session::cleared_lines, 3);
}

/// After a notice on a terminal it stands above the prompt and the cursor
/// behind the prompt; without a terminal, and otherwise, nothing changes. A key
/// that leaves the prompt changes nothing but where the cursor is.
pub proof fn screen_is_kept_apart(s: Session)
    ensures
        s.tty ==> notified(s) == (Session { line_above: true, below_prompt: false, ..s }),
        !s.tty ==> notified(s) == s,
        left_prompt(s) == (Session { below_prompt: true, ..s }),
{
}

} // verus!
