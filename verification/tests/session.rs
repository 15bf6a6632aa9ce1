use pam_password_fingerprint::codes::{PAM_AUTH_ERR, PAM_SUCCESS};
use pam_password_fingerprint::options::Options;
use pam_password_fingerprint::session::{Colour, Report, Session};

fn session(password_tries: u32, fingerprint_tries: u32, tty: bool) -> Session {
    Session::new(Options { show_stars: false, password_tries, fingerprint_tries }, tty)
}

fn with(mut session: Session, reports: &[Report]) -> Session {
    for report in reports {
        session.record(*report);
    }
    session
}

#[test]
fn fresh_session_is_open() {
    let s = session(3, 3, true);
    assert!(!s.is_over());
    assert!(s.password_left());
    assert!(s.fingerprint_left());
    assert_eq!(s.answer(), PAM_AUTH_ERR);
    assert_eq!(s.prompt(), "Password: ");
    assert_eq!(s.warning(), "");
}

#[test]
fn either_method_succeeds() {
    for report in [Report::PasswordAccepted, Report::FingerprintMatched] {
        let s = with(session(3, 3, true), &[Report::PasswordRejected, report]);
        assert!(s.is_over());
        assert_eq!(s.answer(), PAM_SUCCESS);
    }
}

#[test]
fn documented_warning_line() {
    let s = with(
        session(4, 4, true),
        &[
            Report::PasswordRejected,
            Report::FingerprintRejected,
            Report::PasswordRejected,
            Report::FingerprintRejected,
            Report::PasswordRejected,
        ],
    );
    assert_eq!(
        s.warning(),
        "Password incorrect (attempt 3/4). - Fingerprint did not match (attempt 2/4)."
    );
}

#[test]
fn warning_of_a_single_method() {
    let s = with(session(12, 3, true), &[Report::PasswordRejected; 10]);
    assert_eq!(s.warning(), "Password incorrect (attempt 10/12).");
    let s = with(session(12, 3, true), &[Report::FingerprintRejected]);
    assert_eq!(s.warning(), "Fingerprint did not match (attempt 1/3).");
}

#[test]
fn attempts_run_out_one_by_one() {
    let s = with(session(2, 1, true), &[Report::PasswordRejected]);
    assert!(s.password_left());
    let s = with(s, &[Report::PasswordRejected]);
    assert!(!s.password_left());
    assert!(!s.is_over());
    assert_eq!(s.prompt(), "Waiting for fingerprint...");
    let s = with(s, &[Report::PasswordRejected, Report::PasswordAccepted]);
    assert_eq!(s.password_failures, 2);
    assert_eq!(s.answer(), PAM_AUTH_ERR);
    let s = with(s, &[Report::FingerprintRejected]);
    assert!(s.is_over());
    assert_eq!(s.prompt(), "");
    assert_eq!(s.answer(), PAM_AUTH_ERR);
}

#[test]
fn closed_reader_leaves_the_password() {
    let s = with(session(1, 3, true), &[Report::FingerprintClosed]);
    assert!(!s.is_over());
    assert!(s.password_left());
    assert_eq!(with(s, &[Report::PasswordAccepted]).answer(), PAM_SUCCESS);
    assert!(with(s, &[Report::PasswordRejected]).is_over());
    assert!(with(s, &[Report::PasswordClosed]).is_over());
}

#[test]
fn late_reports_change_nothing() {
    let s = with(session(3, 3, true), &[Report::Cancelled]);
    assert!(s.is_over());
    let late = with(
        s,
        &[Report::FingerprintMatched, Report::PasswordAccepted, Report::PasswordRejected],
    );
    assert_eq!(late, s);
    assert_eq!(late.answer(), PAM_AUTH_ERR);
}

#[test]
fn no_tries_means_no_run() {
    assert!(session(0, 0, true).is_over());
    assert!(!session(0, 1, true).is_over());
    assert_eq!(session(0, 1, true).prompt(), "Waiting for fingerprint...");
}

#[test]
fn first_notice_opens_a_line() {
    let mut s = session(3, 3, true);
    assert_eq!(
        s.notice(Colour::Red, "Fingerprint reader is busy.", "Password: "),
        Some("\r\x1b[2K\x1b[31mFingerprint reader is busy.\x1b[0m\nPassword: ".to_string())
    );
    assert!(s.line_above);
}

#[test]
fn further_notice_takes_the_place_of_the_first() {
    let mut s = session(3, 3, true);
    s.notice(Colour::Red, "a", "Password: ");
    assert_eq!(
        s.notice(Colour::Green, "b", "Password: "),
        Some("\r\x1b[2K\x1b[1A\r\x1b[2K\x1b[32mb\x1b[0m\nPassword: ".to_string())
    );
    s.leave_prompt();
    assert!(s.below_prompt);
    assert_eq!(
        s.notice(Colour::Red, "c", ""),
        Some("\r\x1b[2K\x1b[1A\r\x1b[2K\x1b[1A\r\x1b[2K\x1b[31mc\x1b[0m\n".to_string())
    );
    assert!(s.line_above && !s.below_prompt);
}

#[test]
fn no_notice_without_a_terminal() {
    let mut s = session(3, 3, false);
    assert_eq!(s.notice(Colour::Red, "a", "Password: "), None);
    assert!(!s.line_above);
}
