//! The entries in the system log: how urgent they are, and their words, to
//! which the caller adds the time since the run began.

use vstd::prelude::*;
use vstd::string::*;

use crate::authenticate::Refusal;
use crate::fingerprint::{Action, Log};
use crate::password::PasswordRecord;
use crate::session::Session;
use crate::text::append_decimal;
#[allow(unused_imports)]
use crate::{
    authenticate::refusal_text,
    fingerprint::{ActionView, LogView},
    password::{
        attempted, courses_alike, log_after, log_tells_only_the_verdict,
        logs_of_like_runs_are_equal, PasswordEventView, PasswordState, PasswordStep,
    },
    shadow::{hash_confirms, shadow_error_text},
    text::decimal,
};

verus! {

/// How urgent an entry is.
#[derive(Debug, Clone, Copy, PartialEq, Eq, Structural)]
pub enum Priority {
    Error,
    Warning,
    Info,
    Debug,
}

/// An entry in the log.
#[derive(Debug)]
pub struct Record {
    pub priority: Priority,
    pub text: String,
}

/// An entry in the log, with its words as a sequence of characters.
pub ghost struct RecordView {
    pub priority: Priority,
    pub text: Seq<char>,
}

impl View for Record {
    type V = RecordView;

    open spec fn view(&self) -> RecordView {
        RecordView { priority: self.priority, text: self.text@ }
    }
}

/// A whole number in decimal.
pub open spec fn signed_decimal(number: int) -> Seq<char> {
    if number < 0 {
        "-"@ + decimal((-number) as nat)
    } else {
        decimal(number as nat)
    }
}

/// The entry for what the password method has to say.
pub open spec fn password_entry(record: PasswordRecord) -> RecordView {
    match record {
        PasswordRecord::PromptStarting => RecordView {
            priority: Priority::Debug,
            text: "Password thread: prompt starting..."@,
        },
        PasswordRecord::PromptReturned => RecordView {
            priority: Priority::Debug,
            text: "Password thread: prompt returned."@,
        },
        PasswordRecord::PromptFailed { code } => RecordView {
            priority: Priority::Debug,
            text: "Password thread: prompt interrupted or failed: "@ + signed_decimal(code as int),
        },
        PasswordRecord::CryptStarting => RecordView {
            priority: Priority::Debug,
            text: "Password thread: crypt verification starting..."@,
        },
        PasswordRecord::Accepted => RecordView {
            priority: Priority::Info,
            text: "Password thread: verification successful."@,
        },
        PasswordRecord::Refused => RecordView {
            priority: Priority::Warning,
            text: "Password thread: verification failed."@,
        },
    }
}

/// The entry for what the fingerprint method has to say, if anything.
pub open spec fn fingerprint_entry(log: LogView) -> Option<RecordView> {
    match log {
        LogView::Nothing => None,
        LogView::Starting => Some(
            RecordView {
                priority: Priority::Debug,
                text: "Fingerprint thread: starting DBus connection..."@,
            },
        ),
        LogView::NoFingers => Some(
            RecordView {
                priority: Priority::Info,
                text: "Fingerprint thread: no enrolled fingers, exiting."@,
            },
        ),
        LogView::Busy => Some(
            RecordView {
                priority: Priority::Info,
                text: "Fingerprint reader is busy, starting background claim retries..."@,
            },
        ),
        LogView::Claimed { attempt } => Some(
            RecordView {
                priority: Priority::Info,
                text: "Fingerprint reader successfully claimed on attempt "@ + decimal(
                    attempt as nat,
                ) + "."@,
            },
        ),
        LogView::StillBusy { attempt } => Some(
            RecordView {
                priority: Priority::Debug,
                text: "Fingerprint reader claim retry "@ + decimal(attempt as nat)
                    + " still busy..."@,
            },
        ),
        LogView::Failed { text } => Some(
            RecordView { priority: Priority::Error, text: "Fingerprint thread error: "@ + text },
        ),
    }
}

/// The entry that announces an action of the fingerprint method, if any.
pub open spec fn action_entry(action: ActionView) -> Option<RecordView> {
    match action {
        ActionView::StartVerify { .. } => Some(
            RecordView {
                priority: Priority::Debug,
                text: "Fingerprint thread: starting VerifyStart..."@,
            },
        ),
        ActionView::Subscribe => Some(
            RecordView {
                priority: Priority::Debug,
                text: "Fingerprint thread: VerifyStart completed. Waiting for signals..."@,
            },
        ),
        _ => None,
    }
}

/// The entry for a signal of the reader.
pub open spec fn signal_entry(result: Seq<char>, done: bool) -> RecordView {
    RecordView {
        priority: Priority::Debug,
        text: "Fingerprint signal received: "@ + result + ", done: "@ + if done {
            "true"@
        } else {
            "false"@
        },
    }
}

/// The entry for a call that ends before either method begins.
pub open spec fn refusal_entry(refusal: Refusal) -> RecordView {
    RecordView { priority: Priority::Error, text: refusal_text(refusal) }
}

/// The entry for the beginning of a run.
pub open spec fn starting_entry(username: Seq<char>) -> RecordView {
    RecordView {
        priority: Priority::Info,
        text: "pam_sm_authenticate started for user: "@ + username,
    }
}

/// The entry for the moment when both methods have ended.
pub open spec fn joined_entry() -> RecordView {
    RecordView { priority: Priority::Info, text: "Thread scope joined."@ }
}

/// The entry for the end of a run.
pub open spec fn ending_entry(session: Session, username: Seq<char>) -> RecordView {
    if session.succeeded {
        RecordView {
            priority: Priority::Info,
            text: "Authentication successful for user "@ + username + "."@,
        }
    } else {
        RecordView {
            priority: Priority::Warning,
            text: "Authentication failed for user "@ + username + "."@,
        }
    }
}

fn entry(priority: Priority, text: &str) -> (record: Record)
    ensures
        record@ == (RecordView { priority, text: text@ }),
{
    Record { priority, text: text.to_owned() }
}

fn append_signed(text: &mut String, number: i32)
    ensures
        final(text)@ == old(text)@ + signed_decimal(number as int),
{
    if number < 0 {
        text.append("-");
        append_decimal(text, (-(number as i64)) as u64);
    } else {
        append_decimal(text, number as u64);
    }
    proof {
        assert(text@ =~= old(text)@ + signed_decimal(number as int));
    }
}

/// The entry for what the password method has to say.
pub fn password_record(record: PasswordRecord) -> (entry_for: Record)
    ensures
        entry_for@ == password_entry(record),
{
    match record {
        PasswordRecord::PromptStarting => entry(
            Priority::Debug,
            "Password thread: prompt starting...",
        ),
        PasswordRecord::PromptReturned => entry(
            Priority::Debug,
            "Password thread: prompt returned.",
        ),
        PasswordRecord::PromptFailed { code } => {
            let mut text: String = "Password thread: prompt interrupted or failed: ".to_owned();
            append_signed(&mut text, code);
            Record { priority: Priority::Debug, text }
        },
        PasswordRecord::CryptStarting => entry(
            Priority::Debug,
            "Password thread: crypt verification starting...",
        ),
        PasswordRecord::Accepted => entry(
            Priority::Info,
            "Password thread: verification successful.",
        ),
        PasswordRecord::Refused => entry(
            Priority::Warning,
            "Password thread: verification failed.",
        ),
    }
}

/// The view of an entry that may be missing.
pub open spec fn entry_view(record: Option<Record>) -> Option<RecordView> {
    match record {
        Some(record) => Some(record@),
        None => None,
    }
}

/// The entry for what the fingerprint method has to say, if anything.
pub fn fingerprint_record(log: &Log) -> (record: Option<Record>)
    ensures
        entry_view(record) == fingerprint_entry(log@),
{
    match log {
        Log::Nothing => None,
        Log::Starting => Some(
            entry(Priority::Debug, "Fingerprint thread: starting DBus connection..."),
        ),
        Log::NoFingers => Some(
            entry(Priority::Info, "Fingerprint thread: no enrolled fingers, exiting."),
        ),
        Log::Busy => Some(
            entry(
                Priority::Info,
                "Fingerprint reader is busy, starting background claim retries...",
            ),
        ),
        Log::Claimed { attempt } => {
            let mut text: String = "Fingerprint reader successfully claimed on attempt ".to_owned();
            append_decimal(&mut text, *attempt);
            text.append(".");
            Some(Record { priority: Priority::Info, text })
        },
        Log::StillBusy { attempt } => {
            let mut text: String = "Fingerprint reader claim retry ".to_owned();
            append_decimal(&mut text, *attempt);
            text.append(" still busy...");
            Some(Record { priority: Priority::Debug, text })
        },
        Log::Failed { text: error } => {
            let mut text: String = "Fingerprint thread error: ".to_owned();
            text.append(error.as_str());
            Some(Record { priority: Priority::Error, text })
        },
    }
}

/// The entry that announces an action of the fingerprint method, if any.
pub fn action_record(action: &Action) -> (record: Option<Record>)
    ensures
        entry_view(record) == action_entry(action@),
{
    match action {
        Action::StartVerify { .. } => Some(
            entry(Priority::Debug, "Fingerprint thread: starting VerifyStart..."),
        ),
        Action::Subscribe => Some(
            entry(
                Priority::Debug,
                "Fingerprint thread: VerifyStart completed. Waiting for signals...",
            ),
        ),
        _ => None,
    }
}

/// The entry for a signal of the reader.
pub fn signal_record(result: &str, done: bool) -> (record: Record)
    ensures
        record@ == signal_entry(result@, done),
{
    let mut text: String = "Fingerprint signal received: ".to_owned();
    text.append(result);
    text.append(", done: ");
    if done {
        text.append("true");
    } else {
        text.append("false");
    }
    Record { priority: Priority::Debug, text }
}

/// The entry for a call that ends before either method begins. No time goes
/// with it.
pub fn refusal_record(refusal: &Refusal) -> (record: Record)
    ensures
        record@ == refusal_entry(*refusal),
{
    Record { priority: Priority::Error, text: refusal.message() }
}

/// The entry for the beginning of a run.
pub fn starting_record(username: &str) -> (record: Record)
    ensures
        record@ == starting_entry(username@),
{
    let mut text: String = "pam_sm_authenticate started for user: ".to_owned();
    text.append(username);
    Record { priority: Priority::Info, text }
}

/// The entry for the moment when both methods have ended.
pub fn joined_record() -> (record: Record)
    ensures
        record@ == joined_entry(),
{
    entry(Priority::Info, "Thread scope joined.")
}

/// The entry for the end of a run.
pub fn ending_record(session: &Session, username: &str) -> (record: Record)
    ensures
        record@ == ending_entry(*session, username@),
{
    if session.succeeded {
        let mut text: String = "Authentication successful for user ".to_owned();
        text.append(username);
        text.append(".");
        Record { priority: Priority::Info, text }
    } else {
        let mut text: String = "Authentication failed for user ".to_owned();
        text.append(username);
        text.append(".");
        Record { priority: Priority::Warning, text }
    }
}

/// The entries of the password method as they stand in the log.
pub open spec fn written(records: Seq<PasswordRecord>) -> Seq<RecordView> {
    records.map_values(|record: PasswordRecord| password_entry(record))
}

/// Whatever the passwords and the hashes, two attempts with the same verdict
/// write the same entries, in priority and words. The verdict itself is written
/// as information where the password was right, and as a warning where it was
/// wrong.
pub proof fn attempt_writes_only_the_verdict(
    one: PasswordState,
    other: PasswordState,
    s: Session,
    password_one: Seq<char>,
    password_other: Seq<char>,
    encrypted_one: Option<Seq<char>>,
    encrypted_other: Option<Seq<char>>,
)
    requires
        one.step == PasswordStep::Prompting,
        other.step == PasswordStep::Prompting,
        hash_confirms(password_one, one.hash, encrypted_one) == hash_confirms(
            password_other,
            other.hash,
            encrypted_other,
        ),
    ensures
        ({
            let entries = written(attempted(one, s, password_one, encrypted_one).2);
            let verdict = hash_confirms(password_one, one.hash, encrypted_one);
            &&& entries == written(attempted(other, s, password_other, encrypted_other).2)
            &&& entries[2].priority == (if verdict {
                Priority::Info
            } else {
                Priority::Warning
            })
            &&& entries[2].text == (if verdict {
                "Password thread: verification successful."@
            } else {
                "Password thread: verification failed."@
            })
        }),
{
    log_tells_only_the_verdict(
        one,
        other,
        s,
        password_one,
        password_other,
        encrypted_one,
        encrypted_other,
    );
}

/// Two whole runs of the password method that differ in passwords and hashes
/// alone, and not in whether a password was right, write the same log.
pub proof fn like_runs_write_the_same_log(
    hash_one: Seq<char>,
    hash_other: Seq<char>,
    stars: bool,
    one: Seq<(Session, PasswordEventView)>,
    other: Seq<(Session, PasswordEventView)>,
)
    requires
        courses_alike(hash_one, hash_other, stars, one, other),
    ensures
        written(log_after(hash_one, stars, one)) == written(log_after(hash_other, stars, other)),
{
    logs_of_like_runs_are_equal(hash_one, hash_other, stars, one, other);
}

/// The entries of the password method are its fixed words; only a question
/// without an answer names something, the code that says why.
pub proof fn password_entries_in_words(code: i32)
    ensures
        password_entry(PasswordRecord::PromptStarting) == (RecordView {
            priority: Priority::Debug,
            text: "Password thread: prompt starting..."@,
        }),
        password_entry(PasswordRecord::PromptReturned) == (RecordView {
            priority: Priority::Debug,
            text: "Password thread: prompt returned."@,
        }),
        password_entry(PasswordRecord::CryptStarting) == (RecordView {
            priority: Priority::Debug,
            text: "Password thread: crypt verification starting..."@,
        }),
        password_entry(PasswordRecord::Accepted) == (RecordView {
            priority: Priority::Info,
            text: "Password thread: verification successful."@,
        }),
        password_entry(PasswordRecord::Refused) == (RecordView {
            priority: Priority::Warning,
            text: "Password thread: verification failed."@,
        }),
        ({
            let entry = password_entry(PasswordRecord::PromptFailed { code });
            &&& entry.priority == Priority::Debug
            &&& code >= 0 ==> entry.text == "Password thread: prompt interrupted or failed: "@
                + decimal(code as nat)
            &&& code < 0 ==> entry.text =~= "Password thread: prompt interrupted or failed: "@
                + "-"@ + decimal((-code) as nat)
        }),
{
}

/// The entries of the fingerprint method name the number of the claim, or the
/// error in full.
pub proof fn fingerprint_entries_in_words(attempt: u64, text: Seq<char>)
    ensures
        fingerprint_entry(LogView::Nothing) is None,
        fingerprint_entry(LogView::Starting) == Some(
            RecordView {
                priority: Priority::Debug,
                text: "Fingerprint thread: starting DBus connection..."@,
            },
        ),
        fingerprint_entry(LogView::NoFingers) == Some(
            RecordView {
                priority: Priority::Info,
                text: "Fingerprint thread: no enrolled fingers, exiting."@,
            },
        ),
        fingerprint_entry(LogView::Busy) == Some(
            RecordView {
                priority: Priority::Info,
                text: "Fingerprint reader is busy, starting background claim retries..."@,
            },
        ),
        fingerprint_entry(LogView::Claimed { attempt }) == Some(
            RecordView {
                priority: Priority::Info,
                text: "Fingerprint reader successfully claimed on attempt "@ + decimal(
                    attempt as nat,
                ) + "."@,
            },
        ),
        fingerprint_entry(LogView::StillBusy { attempt }) == Some(
            RecordView {
                priority: Priority::Debug,
                text: "Fingerprint reader claim retry "@ + decimal(attempt as nat)
                    + " still busy..."@,
            },
        ),
        fingerprint_entry(LogView::Failed { text }) == Some(
            RecordView { priority: Priority::Error, text: "Fingerprint thread error: "@ + text },
        ),
{
}

/// The start of a scan and the wait for its signals are announced, whatever the
/// finger; no other action is.
pub proof fn actions_in_words(action: ActionView)
    ensures
        action is StartVerify ==> action_entry(action) == Some(
            RecordView {
                priority: Priority::Debug,
                text: "Fingerprint thread: starting VerifyStart..."@,
            },
        ),
        action == ActionView::Subscribe ==> action_entry(action) == Some(
            RecordView {
                priority: Priority::Debug,
                text: "Fingerprint thread: VerifyStart completed. Waiting for signals..."@,
            },
        ),
        !(action is StartVerify) && action != ActionView::Subscribe ==> action_entry(action)
            is None,
{
}

/// A signal is logged with its result in full and whether the scan has ended.
pub proof fn signals_in_words(result: Seq<char>)
    ensures
        signal_entry(result, true) == (RecordView {
            priority: Priority::Debug,
            text: "Fingerprint signal received: "@ + result + ", done: "@ + "true"@,
        }),
        signal_entry(result, false) == (RecordView {
            priority: Priority::Debug,
            text: "Fingerprint signal received: "@ + result + ", done: "@ + "false"@,
        }),
{
}

/// A run is logged under the user's full name: when it begins, and when it
/// ends, as information where the user was let in and as a warning otherwise.
pub proof fn runs_in_words(s: Session, username: Seq<char>)
    ensures
        starting_entry(username) == (RecordView {
            priority: Priority::Info,
            text: "pam_sm_authenticate started for user: "@ + username,
        }),
        joined_entry() == (RecordView { priority: Priority::Info, text: "Thread scope joined."@ }),
        s.succeeded ==> ending_entry(s, username) == (RecordView {
            priority: Priority::Info,
            text: "Authentication successful for user "@ + username + "."@,
        }),
        !s.succeeded ==> ending_entry(s, username) == (RecordView {
            priority: Priority::Warning,
            text: "Authentication failed for user "@ + username + "."@,
        }),
{
}

/// A call that ends early is logged as an error that says why.
pub proof fn refusals_in_words(refusal: Refusal)
    ensures
        refusal_entry(refusal).priority == Priority::Error,
        refusal is NoUser ==> refusal_entry(refusal).text == "Failed to retrieve username."@,
        refusal matches Refusal::NoHash { username, error } ==> refusal_entry(refusal).text
            == "Failed to retrieve password hash for "@ + username@ + ": "@ + shadow_error_text(
            error,
        ),
{
}

/// An entry is seen as it is.
pub proof fn entries_are_seen_as_they_are(record: Record)
    ensures
        record@.priority == record.priority,
        record@.text == record.text@,
        entry_view(Some(record)) == Some(record@),
        entry_view(None) is None,
{
}

} // verus!
