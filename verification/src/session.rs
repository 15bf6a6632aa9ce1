//! What the two methods share: the attempts they have used, how the run ended,
//! and the line above the prompt.

use vstd::prelude::*;
use vstd::string::*;

use crate::codes::{PAM_AUTH_ERR, PAM_SUCCESS};
use crate::options::Options;
use crate::text::append_decimal;
#[allow(unused_imports)]
use crate::text::decimal;

verus! {

/// The prompt while passwords are taken.
pub const PASSWORD_PROMPT: &'static str = "Password: ";

/// The prompt when no password is taken any more and a scan may still match.
pub const WAITING_PROMPT: &'static str = "Waiting for fingerprint...";

/// The state of one run of the module.
#[derive(Debug, Clone, Copy, PartialEq, Eq, Structural)]
pub struct Session {
    pub options: Options,
    /// Wrong passwords so far.
    pub password_failures: u32,
    /// Scans without a match so far.
    pub fingerprint_failures: u32,
    /// The user can still be asked for a password.
    pub password_open: bool,
    /// The reader can still be used.
    pub fingerprint_open: bool,
    /// One of the methods has recognised the user.
    pub succeeded: bool,
    /// The user has broken off.
    pub cancelled: bool,
    /// There is a terminal to write notices to.
    pub tty: bool,
    /// A notice stands in the line above the prompt.
    pub line_above: bool,
    /// The cursor has left the prompt and stands in the line below it.
    pub below_prompt: bool,
}

/// What a method has to tell the session.
#[derive(Debug, Clone, Copy, PartialEq, Eq, Structural)]
pub enum Report {
    PasswordAccepted,
    PasswordRejected,
    /// There will be no further password.
    PasswordClosed,
    /// The user pressed Ctrl+C.
    Cancelled,
    FingerprintMatched,
    FingerprintRejected,
    /// There will be no further scan.
    FingerprintClosed,
}

/// The colour of a notice.
#[derive(Debug, Clone, Copy, PartialEq, Eq, Structural)]
pub enum Colour {
    Red,
    Green,
}

/// The password method has attempts left.
pub open spec fn password_left(s: Session) -> bool {
    s.password_open && s.password_failures < s.options.password_tries
}

/// The fingerprint method has attempts left.
pub open spec fn fingerprint_left(s: Session) -> bool {
    s.fingerprint_open && s.fingerprint_failures < s.options.fingerprint_tries
}

/// The run has come to its end.
pub open spec fn is_over(s: Session) -> bool {
    s.succeeded || s.cancelled || !(password_left(s) || fingerprint_left(s))
}

/// No method has used more attempts than it was given.
pub open spec fn within_limits(s: Session) -> bool {
    s.password_failures <= s.options.password_tries && s.fingerprint_failures
        <= s.options.fingerprint_tries
}

/// A run that has just begun.
pub open spec fn fresh(options: Options, tty: bool) -> Session {
    Session {
        options,
        password_failures: 0,
        fingerprint_failures: 0,
        password_open: true,
        fingerprint_open: true,
        succeeded: false,
        cancelled: false,
        tty,
        line_above: false,
        below_prompt: false,
    }
}

/// The session after a report. A method without attempts left can neither
/// succeed nor fail, and a run that is over stays as it is.
pub open spec fn recorded(s: Session, report: Report) -> Session {
    if is_over(s) {
        s
    } else {
        match report {
            Report::PasswordAccepted => Session {
                succeeded: password_left(s),
                ..s
            },
            Report::PasswordRejected => if password_left(s) {
                Session { password_failures: (s.password_failures + 1) as u32, ..s }
            } else {
                s
            },
            Report::PasswordClosed => Session { password_open: false, ..s },
            Report::Cancelled => Session { cancelled: true, ..s },
            Report::FingerprintMatched => Session {
                succeeded: fingerprint_left(s),
                ..s
            },
            Report::FingerprintRejected => if fingerprint_left(s) {
                Session { fingerprint_failures: (s.fingerprint_failures + 1) as u32, ..s }
            } else {
                s
            },
            Report::FingerprintClosed => Session { fingerprint_open: false, ..s },
        }
    }
}

/// The session after a series of reports.
pub open spec fn after_reports(s: Session, reports: Seq<Report>) -> Session
    decreases reports.len(),
{
    if reports.len() == 0 {
        s
    } else {
        recorded(after_reports(s, reports.drop_last()), reports.last())
    }
}

/// What the module returns to the application.
pub open spec fn answer_of(s: Session) -> i32 {
    if s.succeeded {
        PAM_SUCCESS
    } else {
        PAM_AUTH_ERR
    }
}

/// One method's part of the warning: `lead (attempt failures/tries).`
pub open spec fn attempt_text(lead: Seq<char>, failures: nat, tries: nat) -> Seq<char> {
    lead + " (attempt "@ + decimal(failures) + "/"@ + decimal(tries) + ")."@
}

/// The warning that both methods share: a part for each method that has
/// failed, with a dash between them.
pub open spec fn warning_of(s: Session) -> Seq<char> {
    let password = attempt_text(
        "Password incorrect"@,
        s.password_failures as nat,
        s.options.password_tries as nat,
    );
    let fingerprint = attempt_text(
        "Fingerprint did not match"@,
        s.fingerprint_failures as nat,
        s.options.fingerprint_tries as nat,
    );
    if s.password_failures > 0 && s.fingerprint_failures > 0 {
        password + " - "@ + fingerprint
    } else if s.password_failures > 0 {
        password
    } else if s.fingerprint_failures > 0 {
        fingerprint
    } else {
        Seq::empty()
    }
}

/// The prompt that stands on the terminal.
pub open spec fn prompt_of(s: Session) -> Seq<char> {
    if s.password_failures < s.options.password_tries {
        PASSWORD_PROMPT@
    } else if fingerprint_left(s) {
        WAITING_PROMPT@
    } else {
        Seq::empty()
    }
}

/// The control sequence that begins a colour.
pub open spec fn colour_code(colour: Colour) -> Seq<char> {
    match colour {
        Colour::Red => "\x1b[31m"@,
        Colour::Green => "\x1b[32m"@,
    }
}

/// What comes before the words of a notice: the current line is cleared, then
/// `lines` lines above it, and the colour begins.
pub open spec fn notice_lead(lines: nat, colour: Colour) -> Seq<char> {
    "\r\x1b[2K"@ + cleared_lines(lines) + colour_code(colour)
}

/// Clears the current line, then `lines` lines above it, and writes the notice
/// and the prompt from there.
pub open spec fn notice_text(
    lines: nat,
    colour: Colour,
    text: Seq<char>,
    prompt: Seq<char>,
) -> Seq<char> {
    notice_lead(lines, colour) + text + "\x1b[0m\n"@ + prompt
}

/// Moves up and clears, `lines` times.
pub open spec fn cleared_lines(lines: nat) -> Seq<char>
    decreases lines,
{
    if lines == 0 {
        Seq::empty()
    } else {
        cleared_lines((lines - 1) as nat) + "\x1b[1A\r\x1b[2K"@
    }
}

/// How many lines above the cursor a new notice takes the place of: the old
/// notice, and the prompt where the cursor has already left it.
pub open spec fn lines_to_clear(s: Session) -> nat {
    (if s.below_prompt {
        1nat
    } else {
        0nat
    }) + (if s.line_above {
        1nat
    } else {
        0nat
    })
}

/// The session after a notice: on a terminal there is now a line above the
/// prompt, and the cursor stands in the line of the prompt.
pub open spec fn notified(s: Session) -> Session {
    if s.tty {
        Session { line_above: true, below_prompt: false, ..s }
    } else {
        s
    }
}

/// The session after a key that moves the cursor to the line below the prompt:
/// Enter, or Ctrl+C.
pub open spec fn left_prompt(s: Session) -> Session {
    Session { below_prompt: true, ..s }
}

impl Session {
    /// A run that has just begun. `tty` tells whether notices can be shown.
    pub fn new(options: Options, tty: bool) -> (session: Session)
        ensures
            session == fresh(options, tty),
    {
        Session {
            options,
            password_failures: 0,
            fingerprint_failures: 0,
            password_open: true,
            fingerprint_open: true,
            succeeded: false,
            cancelled: false,
            tty,
            line_above: false,
            below_prompt: false,
        }
    }

    /// Whether the password method has attempts left.
    pub fn password_left(&self) -> (left: bool)
        ensures
            left == password_left(*self),
    {
        self.password_open && self.password_failures < self.options.password_tries
    }

    /// Whether the fingerprint method has attempts left.
    pub fn fingerprint_left(&self) -> (left: bool)
        ensures
            left == fingerprint_left(*self),
    {
        self.fingerprint_open && self.fingerprint_failures < self.options.fingerprint_tries
    }

    /// Whether the run has come to its end.
    pub fn is_over(&self) -> (over: bool)
        ensures
            over == is_over(*self),
    {
        self.succeeded || self.cancelled || !(self.password_left() || self.fingerprint_left())
    }

    /// What the module returns to the application.
    pub fn answer(&self) -> (code: i32)
        ensures
            code == answer_of(*self),
    {
        if self.succeeded {
            PAM_SUCCESS
        } else {
            PAM_AUTH_ERR
        }
    }

    /// Takes a report in.
    pub fn record(&mut self, report: Report)
        ensures
            *final(self) == recorded(*old(self), report),
    {
        if self.is_over() {
            return;
        }
        match report {
            Report::PasswordAccepted => {
                self.succeeded = self.password_left();
            },
            Report::PasswordRejected => {
                if self.password_left() {
                    self.password_failures = self.password_failures + 1;
                }
            },
            Report::PasswordClosed => {
                self.password_open = false;
            },
            Report::Cancelled => {
                self.cancelled = true;
            },
            Report::FingerprintMatched => {
                self.succeeded = self.fingerprint_left();
            },
            Report::FingerprintRejected => {
                if self.fingerprint_left() {
                    self.fingerprint_failures = self.fingerprint_failures + 1;
                }
            },
            Report::FingerprintClosed => {
                self.fingerprint_open = false;
            },
        }
    }

    /// Takes in that the cursor has moved to the line below the prompt.
    pub fn leave_prompt(&mut self)
        ensures
            *final(self) == left_prompt(*old(self)),
    {
        self.below_prompt = true;
    }

    /// The warning that both methods share.
    pub fn warning(&self) -> (text: String)
        ensures
            text@ == warning_of(*self),
    {
        let mut text: String = String::new();
        if self.password_failures > 0 {
            append_attempt(
                &mut text,
                "Password incorrect",
                self.password_failures,
                self.options.password_tries,
            );
            if self.fingerprint_failures > 0 {
                text.append(" - ");
            }
        }
        if self.fingerprint_failures > 0 {
            append_attempt(
                &mut text,
                "Fingerprint did not match",
                self.fingerprint_failures,
                self.options.fingerprint_tries,
            );
        }
        proof {
            assert(text@ =~= warning_of(*self));
        }
        text
    }

    /// The prompt that stands on the terminal.
    pub fn prompt(&self) -> (prompt: &'static str)
        ensures
            prompt@ == prompt_of(*self),
    {
        if self.password_failures < self.options.password_tries {
            PASSWORD_PROMPT
        } else if self.fingerprint_left() {
            WAITING_PROMPT
        } else {
            proof {
                reveal_strlit("");
                assert(""@ =~= Seq::<char>::empty());
            }
            ""
        }
    }

    /// What to write to the terminal to show a notice in the line above the
    /// prompt, in place of the notice that stands there. Without a terminal
    /// nothing is written.
    pub fn notice(&mut self, colour: Colour, text: &str, prompt: &str) -> (written: Option<String>)
        ensures
            *final(self) == notified(*old(self)),
            written is Some <==> old(self).tty,
            written matches Some(out) ==> out@ == notice_text(
                lines_to_clear(*old(self)),
                colour,
                text@,
                prompt@,
            ),
    {
        if !self.tty {
            return None;
        }
        let mut out: String = "\r\x1b[2K".to_owned();
        if self.below_prompt {
            out.append("\x1b[1A\r\x1b[2K");
        }
        if self.line_above {
            out.append("\x1b[1A\r\x1b[2K");
        }
        match colour {
            Colour::Red => out.append("\x1b[31m"),
            Colour::Green => out.append("\x1b[32m"),
        }
        out.append(text);
        out.append("\x1b[0m\n");
        out.append(prompt);
        proof {
            reveal_with_fuel(cleared_lines, 3);
            assert(out@ =~= notice_text(
                lines_to_clear(*old(self)),
                colour,
                text@,
                prompt@,
            ));
        }
        self.line_above = true;
        self.below_prompt = false;
        Some(out)
    }
}

fn append_attempt(text: &mut String, lead: &str, failures: u32, tries: u32)
    ensures
        final(text)@ == old(text)@ + attempt_text(lead@, failures as nat, tries as nat),
{
    text.append(lead);
    text.append(" (attempt ");
    append_decimal(text, failures as u64);
    text.append("/");
    append_decimal(text, tries as u64);
    text.append(").");
    proof {
        assert(text@ =~= old(text)@ + attempt_text(lead@, failures as nat, tries as nat));
    }
}

/// A run that is over stays as it is, whatever is reported.
pub proof fn over_is_final(s: Session, report: Report)
    requires
        is_over(s),
    ensures
        recorded(s, report) == s,
{
}

/// In every run no method uses more attempts than it was given.
pub proof fn limits_are_kept(options: Options, tty: bool, reports: Seq<Report>)
    ensures
        within_limits(after_reports(fresh(options, tty), reports)),
        after_reports(fresh(options, tty), reports).options == options,
    decreases reports.len(),
{
    if reports.len() > 0 {
        limits_are_kept(options, tty, reports.drop_last());
    }
}

/// The run stays active as long as at least one method has attempts left,
/// unless the user was recognised or broke off.
pub proof fn active_while_attempts_remain(s: Session)
    requires
        !s.succeeded,
        !s.cancelled,
    ensures
        is_over(s) <==> !password_left(s) && !fingerprint_left(s),
{
}

/// A method without attempts left or that is closed leaves the other one what
/// it had: a reader that fails or is missing costs no password attempt, and a
/// password that is refused or cannot be asked for costs no scan.
pub proof fn methods_do_not_use_each_other_up(s: Session)
    ensures
        password_left(recorded(s, Report::FingerprintRejected)) == password_left(s),
        password_left(recorded(s, Report::FingerprintClosed)) == password_left(s),
        fingerprint_left(recorded(s, Report::PasswordRejected)) == fingerprint_left(s),
        fingerprint_left(recorded(s, Report::PasswordClosed)) == fingerprint_left(s),
        !is_over(s) && password_left(s) ==> !is_over(recorded(s, Report::FingerprintRejected))
            && !is_over(recorded(s, Report::FingerprintClosed)),
        !is_over(s) && fingerprint_left(s) ==> !is_over(recorded(s, Report::PasswordRejected))
            && !is_over(recorded(s, Report::PasswordClosed)),
{
}

/// Each wrong password uses one attempt, until none is left; then the prompt
/// asks for a finger, if a finger is still taken.
pub proof fn wrong_passwords_use_attempts_up(options: Options, tty: bool, reports: Seq<Report>)
    requires
        forall|i: int| 0 <= i < reports.len() ==> #[trigger] reports[i] == Report::PasswordRejected,
    ensures
        ({
            let s = after_reports(fresh(options, tty), reports);
            &&& s.password_failures as nat == (if reports.len() <= options.password_tries {
                reports.len()
            } else {
                options.password_tries as nat
            })
            &&& password_left(s) <==> reports.len() < options.password_tries
            &&& reports.len() < options.password_tries ==> prompt_of(s) == PASSWORD_PROMPT@
            &&& reports.len() >= options.password_tries && options.fingerprint_tries > 0
                ==> prompt_of(s) == WAITING_PROMPT@ && !is_over(s)
            &&& s.fingerprint_failures == 0 && s.fingerprint_open && s.password_open
            &&& s.options == options && !s.succeeded && !s.cancelled
        }),
    decreases reports.len(),
{
    if reports.len() > 0 {
        assert(reports.last() == Report::PasswordRejected);
        assert forall|i: int| 0 <= i < reports.drop_last().len() implies #[trigger] reports.drop_last()[i]
            == Report::PasswordRejected by {
            assert(reports[i] == Report::PasswordRejected);
        }
        wrong_passwords_use_attempts_up(options, tty, reports.drop_last());
    }
}

/// Something holds after the moment `at` if it held before or has a cause then.
pub open spec fn follows(
    held: spec_fn(int) -> bool,
    cause: spec_fn(int) -> bool,
    at: int,
) -> bool {
    held(at + 1) == (held(at) || cause(at))
}

/// What begins to hold with a cause, and holds from then on, holds at `end` if
/// and only if there was a cause before.
pub proof fn holds_from_its_cause(
    held: spec_fn(int) -> bool,
    cause: spec_fn(int) -> bool,
    end: int,
)
    requires
        0 <= end,
        !held(0),
        forall|at: int| 0 <= at < end ==> #[trigger] follows(held, cause, at),
    ensures
        held(end) <==> exists|at: int| 0 <= at < end && #[trigger] cause(at),
    decreases end,
{
    if end > 0 {
        holds_from_its_cause(held, cause, end - 1);
        assert(follows(held, cause, end - 1));
    }
}

/// The report at `at` recognises the user: it is an accepted password or a
/// match, in a run that is not over, from a method with attempts left.
pub open spec fn recognised_at(s: Session, reports: Seq<Report>, at: int) -> bool {
    let before = after_reports(s, reports.take(at));
    &&& 0 <= at < reports.len()
    &&& !is_over(before)
    &&& (reports[at] == Report::PasswordAccepted && password_left(before)) || (reports[at]
        == Report::FingerprintMatched && fingerprint_left(before))
}

/// The module answers `PAM_SUCCESS` if and only if one of the reports
/// recognised the user, and `PAM_AUTH_ERR` otherwise.
pub proof fn success_is_recognition(options: Options, tty: bool, reports: Seq<Report>)
    ensures
        ({
            let s = fresh(options, tty);
            let end = after_reports(s, reports);
            &&& answer_of(end) == PAM_SUCCESS <==> exists|at: int| recognised_at(s, reports, at)
            &&& answer_of(end) == PAM_SUCCESS || answer_of(end) == PAM_AUTH_ERR
        }),
{
    let s = fresh(options, tty);
    let held = |at: int| after_reports(s, reports.take(at)).succeeded;
    let cause = |at: int| recognised_at(s, reports, at);
    assert forall|at: int| 0 <= at < reports.len() implies #[trigger] follows(
        held,
        cause,
        at,
    ) by {
        assert(reports.take(at + 1).drop_last() =~= reports.take(at));
    }
    holds_from_its_cause(held, cause, reports.len() as int);
    assert(reports.take(reports.len() as int) =~= reports);
    if exists|at: int| recognised_at(s, reports, at) {
        let at = choose|at: int| recognised_at(s, reports, at);
        assert(cause(at));
    }
}

} // verus!
