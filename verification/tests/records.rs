use pam_password_fingerprint::authenticate::Refusal;
use pam_password_fingerprint::fingerprint::{Action, Log};
use pam_password_fingerprint::options::Options;
use pam_password_fingerprint::password::PasswordRecord;
use pam_password_fingerprint::records::{
    action_record, ending_record, fingerprint_record, joined_record, password_record,
    refusal_record, signal_record, starting_record, Priority, Record,
};
use pam_password_fingerprint::session::{Report, Session};
use pam_password_fingerprint::shadow::ShadowError;

fn parts(record: Record) -> (Priority, String) {
    (record.priority, record.text)
}

fn expected(priority: Priority, text: &str) -> (Priority, String) {
    (priority, text.to_string())
}

#[test]
fn entries_of_the_password_method() {
    for (record, priority, text) in [
        (PasswordRecord::PromptStarting, Priority::Debug, "Password thread: prompt starting..."),
        (PasswordRecord::PromptReturned, Priority::Debug, "Password thread: prompt returned."),
        (
            PasswordRecord::PromptFailed { code: 19 },
            Priority::Debug,
            "Password thread: prompt interrupted or failed: 19",
        ),
        (
            PasswordRecord::PromptFailed { code: i32::MIN },
            Priority::Debug,
            "Password thread: prompt interrupted or failed: -2147483648",
        ),
        (
            PasswordRecord::CryptStarting,
            Priority::Debug,
            "Password thread: crypt verification starting...",
        ),
        (PasswordRecord::Accepted, Priority::Info, "Password thread: verification successful."),
        (PasswordRecord::Refused, Priority::Warning, "Password thread: verification failed."),
    ] {
        assert_eq!(parts(password_record(record)), expected(priority, text));
    }
}

#[test]
fn entries_of_the_fingerprint_method() {
    assert!(fingerprint_record(&Log::Nothing).is_none());
    for (log, priority, text) in [
        (
            Log::Starting,
            Priority::Debug,
            "Fingerprint thread: starting DBus connection...",
        ),
        (
            Log::NoFingers,
            Priority::Info,
            "Fingerprint thread: no enrolled fingers, exiting.",
        ),
        (
            Log::Busy,
            Priority::Info,
            "Fingerprint reader is busy, starting background claim retries...",
        ),
        (
            Log::Claimed { attempt: 12 },
            Priority::Info,
            "Fingerprint reader successfully claimed on attempt 12.",
        ),
        (
            Log::StillBusy { attempt: 20 },
            Priority::Debug,
            "Fingerprint reader claim retry 20 still busy...",
        ),
        (
            Log::Failed { text: "broken".to_string() },
            Priority::Error,
            "Fingerprint thread error: broken",
        ),
    ] {
        assert_eq!(fingerprint_record(&log).map(parts), Some(expected(priority, text)));
    }
}

#[test]
fn entries_that_announce_an_action() {
    assert_eq!(
        action_record(&Action::StartVerify { finger: "any" }).map(parts),
        Some(expected(Priority::Debug, "Fingerprint thread: starting VerifyStart..."))
    );
    assert_eq!(
        action_record(&Action::Subscribe).map(parts),
        Some(expected(
            Priority::Debug,
            "Fingerprint thread: VerifyStart completed. Waiting for signals..."
        ))
    );
    assert!(action_record(&Action::Connect).is_none());
}

#[test]
fn entry_for_a_signal() {
    assert_eq!(
        parts(signal_record("verify-match", true)),
        expected(Priority::Debug, "Fingerprint signal received: verify-match, done: true")
    );
    assert_eq!(
        parts(signal_record("verify-retry-scan", false)),
        expected(Priority::Debug, "Fingerprint signal received: verify-retry-scan, done: false")
    );
}

#[test]
fn entry_for_the_end_of_a_run() {
    let options = Options { show_stars: false, password_tries: 1, fingerprint_tries: 1 };
    let mut session = Session::new(options, false);
    assert_eq!(
        parts(ending_record(&session, "ada")),
        expected(Priority::Warning, "Authentication failed for user ada.")
    );
    session.record(Report::PasswordAccepted);
    assert_eq!(
        parts(ending_record(&session, "ada")),
        expected(Priority::Info, "Authentication successful for user ada.")
    );
}

#[test]
fn entries_around_a_run() {
    assert_eq!(
        parts(starting_record("ada")),
        expected(Priority::Info, "pam_sm_authenticate started for user: ada")
    );
    assert_eq!(parts(joined_record()), expected(Priority::Info, "Thread scope joined."));
}

#[test]
fn entry_for_a_refusal() {
    assert_eq!(
        parts(refusal_record(&Refusal::NoUser { code: 10 })),
        expected(Priority::Error, "Failed to retrieve username.")
    );
    let refusal = Refusal::NoHash { username: "ada".to_string(), error: ShadowError::NoEntry };
    assert_eq!(
        parts(refusal_record(&refusal)),
        expected(
            Priority::Error,
            "Failed to retrieve password hash for ada: User not found in shadow database or permission denied"
        )
    );
}
