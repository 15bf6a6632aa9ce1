use pam_password_fingerprint::options::Options;
use pam_password_fingerprint::password::{
    run_password_auth, PasswordAction, PasswordAuth, PasswordEvent, PasswordRecord, PasswordReply,
    PasswordStep,
};
use pam_password_fingerprint::session::{Report, Session};

const HASH: &str = "$6$salt$abc";

fn session(password_tries: u32, fingerprint_tries: u32) -> Session {
    Session::new(Options { show_stars: true, password_tries, fingerprint_tries }, true)
}

fn prompting(session: &mut Session) -> PasswordAuth {
    let mut auth = PasswordAuth::new(HASH.to_string(), false);
    let reply = run_password_auth(&mut auth, session, PasswordEvent::Begin);
    assert!(matches!(reply.action, PasswordAction::Converse { prompt: "Password: " }));
    assert_eq!(reply.notice, None);
    auth
}

fn enter(auth: &mut PasswordAuth, session: &mut Session, password: &str) -> PasswordReply {
    run_password_auth(auth, session, PasswordEvent::Entered { password: password.to_string() })
}

fn hashed(auth: &mut PasswordAuth, session: &mut Session, reply: &str) -> PasswordReply {
    let reply = Some(reply.as_bytes().to_vec());
    run_password_auth(auth, session, PasswordEvent::Hashed { reply })
}

#[test]
fn right_password_logs_the_user_in() {
    let mut s = session(3, 3);
    let mut auth = prompting(&mut s);
    let reply = enter(&mut auth, &mut s, "secret");
    match reply.action {
        PasswordAction::Crypt { request } => {
            assert_eq!(request.key, b"secret".to_vec());
            assert_eq!(request.salt, HASH.as_bytes().to_vec());
        }
        other => panic!("{:?}", other),
    }
    let reply = hashed(&mut auth, &mut s, HASH);
    assert!(matches!(reply.action, PasswordAction::Finish));
    assert_eq!(reply.checked, Some(true));
    assert!(s.succeeded);
    assert_eq!(auth.entered, "");
}

#[test]
fn stars_are_shown_where_asked_for() {
    let mut s = session(3, 3);
    let mut auth = PasswordAuth::new(HASH.to_string(), true);
    let reply = run_password_auth(&mut auth, &mut s, PasswordEvent::Begin);
    assert!(matches!(reply.action, PasswordAction::ReadStars { prompt: "Password: " }));
}

#[test]
fn wrong_password_is_asked_again() {
    let mut s = session(2, 3);
    let mut auth = prompting(&mut s);
    enter(&mut auth, &mut s, "wrong");
    let reply = hashed(&mut auth, &mut s, "$6$salt$xyz");
    assert!(matches!(reply.action, PasswordAction::Converse { prompt: "Password: " }));
    assert_eq!(reply.checked, Some(false));
    assert_eq!(
        reply.notice,
        Some(
            "\r\x1b[2K\x1b[1A\r\x1b[2K\x1b[31mPassword incorrect (attempt 1/2).\x1b[0m\n"
                .to_string()
        )
    );
    assert_eq!(s.password_failures, 1);
}

#[test]
fn last_wrong_password_leaves_the_reader() {
    let mut s = session(1, 3);
    let mut auth = prompting(&mut s);
    enter(&mut auth, &mut s, "wrong");
    let reply = run_password_auth(&mut auth, &mut s, PasswordEvent::Hashed { reply: None });
    assert!(matches!(reply.action, PasswordAction::Swallow { millis: 100 }));
    assert_eq!(
        reply.notice,
        Some(
            "\r\x1b[2K\x1b[1A\r\x1b[2K\x1b[31mPassword incorrect (attempt 1/1).\x1b[0m\nWaiting for fingerprint..."
                .to_string()
        )
    );
    let reply = run_password_auth(&mut auth, &mut s, PasswordEvent::Elapsed);
    assert!(matches!(reply.action, PasswordAction::Swallow { millis: 100 }));
    s.record(Report::FingerprintMatched);
    let reply = run_password_auth(&mut auth, &mut s, PasswordEvent::Elapsed);
    assert!(matches!(reply.action, PasswordAction::Finish));
}

#[test]
fn last_wrong_password_without_a_reader_ends_the_run() {
    let mut s = session(1, 3);
    s.record(Report::FingerprintClosed);
    let mut auth = prompting(&mut s);
    enter(&mut auth, &mut s, "wrong");
    let reply = hashed(&mut auth, &mut s, "*0");
    assert!(matches!(reply.action, PasswordAction::Finish));
    assert_eq!(
        reply.notice,
        Some(
            "\r\x1b[2K\x1b[1A\r\x1b[2K\x1b[31mPassword incorrect (attempt 1/1).\x1b[0m\n"
                .to_string()
        )
    );
    assert!(s.is_over());
}

#[test]
fn password_with_a_zero_byte_is_wrong() {
    let mut s = session(3, 3);
    let mut auth = prompting(&mut s);
    let reply = enter(&mut auth, &mut s, "a\0b");
    assert!(matches!(reply.action, PasswordAction::Converse { prompt: "Password: " }));
    assert_eq!(s.password_failures, 1);
}

#[test]
fn failed_prompt_closes_the_method_only() {
    let mut s = session(3, 3);
    let mut auth = prompting(&mut s);
    let reply = run_password_auth(&mut auth, &mut s, PasswordEvent::Failed { code: 19 });
    assert!(matches!(reply.action, PasswordAction::Finish));
    assert!(!s.is_over());
    assert!(!s.password_left());
    assert!(s.fingerprint_left());
}

#[test]
fn interrupt_ends_the_run_at_once() {
    let mut s = session(3, 3);
    let mut auth = prompting(&mut s);
    let reply = run_password_auth(&mut auth, &mut s, PasswordEvent::Cancelled);
    assert!(matches!(reply.action, PasswordAction::Finish));
    assert_eq!(reply.checked, None);
    assert!(s.is_over());
    assert!(!s.succeeded);

    let mut s = session(1, 3);
    let mut auth = prompting(&mut s);
    enter(&mut auth, &mut s, "wrong");
    hashed(&mut auth, &mut s, "*0");
    assert_eq!(auth.step, PasswordStep::Waiting);
    run_password_auth(&mut auth, &mut s, PasswordEvent::Cancelled);
    assert!(s.is_over());
}

#[test]
fn match_during_crypt_is_kept() {
    let mut s = session(3, 3);
    let mut auth = prompting(&mut s);
    enter(&mut auth, &mut s, "wrong");
    s.record(Report::FingerprintMatched);
    let reply = hashed(&mut auth, &mut s, "*0");
    assert!(matches!(reply.action, PasswordAction::Finish));
    assert_eq!(reply.notice, None);
    assert!(s.succeeded);
    assert_eq!(s.password_failures, 0);
}

#[test]
fn no_tries_waits_for_the_finger() {
    let mut s = session(0, 1);
    let mut auth = PasswordAuth::new(HASH.to_string(), false);
    let reply = run_password_auth(&mut auth, &mut s, PasswordEvent::Begin);
    assert!(matches!(reply.action, PasswordAction::Swallow { millis: 100 }));
    assert_eq!(reply.notice, Some("Waiting for fingerprint...".to_string()));
}

#[test]
fn password_events_out_of_turn_change_nothing() {
    let mut s = session(3, 3);
    let mut auth = prompting(&mut s);
    let reply = hashed(&mut auth, &mut s, HASH);
    assert!(matches!(reply.action, PasswordAction::Converse { prompt: "Password: " }));
    assert!(!s.succeeded);
}

#[test]
fn password_notices_need_a_terminal() {
    let options = Options { show_stars: false, password_tries: 2, fingerprint_tries: 1 };
    let mut s = Session::new(options, false);
    let mut auth = prompting(&mut s);
    enter(&mut auth, &mut s, "wrong");
    let reply = hashed(&mut auth, &mut s, "*0");
    assert_eq!(reply.notice, None);
    assert!(matches!(reply.action, PasswordAction::Converse { prompt: "Password: " }));
}

#[test]
fn late_password_is_checked_and_then_dropped() {
    let mut s = session(3, 3);
    let mut auth = prompting(&mut s);
    s.record(Report::FingerprintMatched);
    let reply = enter(&mut auth, &mut s, "secret");
    assert!(matches!(reply.action, PasswordAction::Crypt { .. }));
    let before = s;
    let reply = hashed(&mut auth, &mut s, HASH);
    assert!(matches!(reply.action, PasswordAction::Finish));
    assert_eq!(s, before);
}

#[test]
fn log_follows_the_prompt_and_the_verdict() {
    let mut s = session(2, 3);
    let mut auth = PasswordAuth::new(HASH.to_string(), false);
    let reply = run_password_auth(&mut auth, &mut s, PasswordEvent::Begin);
    assert_eq!(reply.records, vec![PasswordRecord::PromptStarting]);
    let asked = vec![PasswordRecord::PromptReturned, PasswordRecord::CryptStarting];
    assert_eq!(enter(&mut auth, &mut s, "wrong").records, asked);
    assert_eq!(
        hashed(&mut auth, &mut s, "*0").records,
        vec![PasswordRecord::Refused, PasswordRecord::PromptStarting]
    );
    assert_eq!(enter(&mut auth, &mut s, "secret").records, asked);
    assert_eq!(hashed(&mut auth, &mut s, HASH).records, vec![PasswordRecord::Accepted]);
}

#[test]
fn unusable_password_is_logged_like_a_wrong_one() {
    let mut s = session(1, 0);
    let mut auth = prompting(&mut s);
    assert_eq!(
        enter(&mut auth, &mut s, "a\0b").records,
        vec![
            PasswordRecord::PromptReturned,
            PasswordRecord::CryptStarting,
            PasswordRecord::Refused,
        ]
    );
}

#[test]
fn prompt_without_a_password_is_logged_with_its_code() {
    for (event, code) in
        [(PasswordEvent::Failed { code: 6 }, 6), (PasswordEvent::Cancelled, 19)]
    {
        let mut s = session(3, 3);
        let mut auth = prompting(&mut s);
        assert_eq!(
            run_password_auth(&mut auth, &mut s, event).records,
            vec![PasswordRecord::PromptReturned, PasswordRecord::PromptFailed { code }]
        );
    }
}

#[test]
fn equal_verdicts_look_alike() {
    let mut first = session(2, 3);
    let mut one = prompting(&mut first);
    let mut second = session(2, 3);
    let mut other = PasswordAuth::new("$y$other$hash".to_string(), false);
    run_password_auth(&mut other, &mut second, PasswordEvent::Begin);
    enter(&mut one, &mut first, "hunter2");
    enter(&mut other, &mut second, "correct horse battery staple");
    let left = hashed(&mut one, &mut first, "*0");
    let right = run_password_auth(&mut other, &mut second, PasswordEvent::Hashed { reply: None });
    assert_eq!(left.records, right.records);
    assert_eq!(left.notice, right.notice);
    assert_eq!(left.checked, right.checked);
    assert_eq!(first, second);
}
