use pam_password_fingerprint::fingerprint::{
    error_notice, run_fingerprint_auth, Action, Event, FingerprintAuth, Log, Outcome, Reply, Step,
};
use pam_password_fingerprint::options::Options;
use pam_password_fingerprint::session::{Report, Session};

fn session(fingerprint_tries: u32) -> Session {
    Session::new(Options { show_stars: false, password_tries: 3, fingerprint_tries }, true)
}

fn claim() -> Action {
    Action::Claim { username: "ada".to_string() }
}

fn failed(text: &str) -> Event {
    Event::Failed { text: text.to_string() }
}

fn signal(result: &str, done: bool) -> Event {
    Event::Signal { result: result.to_string(), done }
}

fn fingers(count: usize) -> Event {
    Event::Fingers { enrolled: vec!["right-index-finger".to_string(); count] }
}

fn feed(auth: &mut FingerprintAuth, session: &mut Session, events: Vec<Event>) -> Vec<Reply> {
    events.into_iter().map(|event| run_fingerprint_auth(auth, session, event)).collect()
}

fn claiming(session: &mut Session) -> FingerprintAuth {
    let mut auth = FingerprintAuth::new("ada".to_string());
    let replies = feed(
        &mut auth,
        session,
        vec![
            Event::Begin,
            Event::Completed,
            Event::Completed,
            Event::Completed,
            Event::Completed,
            fingers(1),
        ],
    );
    let actions: Vec<Action> = replies.into_iter().map(|reply| reply.action).collect();
    assert_eq!(
        actions,
        vec![
            Action::Connect,
            Action::FindManager,
            Action::FindDevice,
            Action::OpenDevice,
            Action::ListFingers { username: "ada".to_string() },
            claim(),
        ]
    );
    auth
}

fn waiting(session: &mut Session) -> FingerprintAuth {
    let mut auth = claiming(session);
    let replies =
        feed(&mut auth, session, vec![Event::Completed, Event::Completed, Event::Completed]);
    assert_eq!(replies[0].action, Action::StartVerify { finger: "any" });
    assert_eq!(replies[1].action, Action::Subscribe);
    assert_eq!(replies[2].action, Action::AwaitSignal { millis: 100 });
    auth
}

fn tidy(auth: &mut FingerprintAuth, session: &mut Session) {
    let replies = feed(auth, session, vec![Event::Elapsed, failed("no reply")]);
    assert_eq!(replies[0].action, Action::Release { millis: 10 });
    assert_eq!(replies[1].action, Action::Finish);
    assert_eq!(auth.step, Step::Done);
    assert!(session.is_over() || !session.fingerprint_open);
}

#[test]
fn match_logs_the_user_in() {
    let mut s = session(3);
    let mut auth = waiting(&mut s);
    let reply = run_fingerprint_auth(&mut auth, &mut s, signal("verify-match", true));
    assert!(s.succeeded);
    assert!(reply.interrupt);
    assert_eq!(reply.action, Action::StopVerify { millis: 10 });
    tidy(&mut auth, &mut s);
    assert!(matches!(auth.outcome, Outcome::Matched));
}

#[test]
fn scan_without_a_match_is_followed_by_another() {
    let mut s = session(2);
    let mut auth = waiting(&mut s);
    let reply = run_fingerprint_auth(&mut auth, &mut s, signal("verify-no-match", true));
    assert_eq!(
        reply.notice,
        Some(
            "\r\x1b[2K\x1b[31mFingerprint did not match (attempt 1/2).\x1b[0m\nPassword: "
                .to_string()
        )
    );
    assert_eq!(reply.action, Action::FinishScan);
    let replies = feed(&mut auth, &mut s, vec![Event::Completed, Event::Completed]);
    assert_eq!(replies[0].action, Action::StartVerify { finger: "any" });
    assert_eq!(replies[1].action, Action::AwaitSignal { millis: 100 });
    let reply = run_fingerprint_auth(&mut auth, &mut s, signal("verify-no-match", true));
    assert_eq!(
        reply.notice,
        Some(
            "\r\x1b[2K\x1b[1A\r\x1b[2K\x1b[31mFingerprint did not match (attempt 2/2).\x1b[0m\nPassword: "
                .to_string()
        )
    );
    assert_eq!(reply.action, Action::StopVerify { millis: 10 });
    tidy(&mut auth, &mut s);
    assert!(!s.is_over());
    assert_eq!(s.fingerprint_failures, 2);
}

#[test]
fn single_try_ends_with_the_first_scan() {
    let mut s = session(1);
    let mut auth = waiting(&mut s);
    let replies = feed(
        &mut auth,
        &mut s,
        vec![
            signal("verify-no-match", false),
            signal("verify-retry-scan", false),
            Event::Elapsed,
            signal("verify-no-match", true),
        ],
    );
    assert_eq!(replies[0].action, Action::AwaitSignal { millis: 100 });
    assert_eq!(replies[1].action, Action::AwaitSignal { millis: 100 });
    assert_eq!(replies[2].action, Action::AwaitSignal { millis: 100 });
    assert_eq!(replies[3].action, Action::StopVerify { millis: 10 });
    tidy(&mut auth, &mut s);
    assert!(matches!(auth.outcome, Outcome::Unmatched));
}

#[test]
fn other_ends_of_a_scan_end_the_method() {
    for event in [signal("verify-disconnected", true), Event::Closed] {
        let mut s = session(3);
        let mut auth = waiting(&mut s);
        let reply = run_fingerprint_auth(&mut auth, &mut s, event);
        assert_eq!(reply.action, Action::StopVerify { millis: 10 });
        assert_eq!(reply.notice, None);
        tidy(&mut auth, &mut s);
        assert_eq!(s.fingerprint_failures, 0);
        assert!(s.password_left());
    }
}

#[test]
fn no_enrolled_finger_skips_the_reader() {
    let mut s = session(3);
    let mut auth = FingerprintAuth::new("ada".to_string());
    let replies = feed(
        &mut auth,
        &mut s,
        vec![
            Event::Begin,
            Event::Completed,
            Event::Completed,
            Event::Completed,
            Event::Completed,
            fingers(0),
        ],
    );
    assert_eq!(replies[5].action, Action::Finish);
    assert!(matches!(replies[5].log, Log::NoFingers));
    assert!(!s.fingerprint_open);
    assert!(!s.is_over());
}

#[test]
fn busy_reader_is_announced_and_retried() {
    let mut s = session(3);
    let mut auth = claiming(&mut s);
    let busy = "net.reactivated.Fprint.Error.AlreadyInUse";
    let reply = run_fingerprint_auth(&mut auth, &mut s, failed(busy));
    assert_eq!(
        reply.notice,
        Some("\r\x1b[2K\x1b[31mFingerprint reader is busy.\x1b[0m\nPassword: ".to_string())
    );
    assert_eq!(reply.action, Action::Pause { millis: 100 });
    assert!(matches!(reply.log, Log::Busy));
    for attempt in 1..=10u64 {
        let reply = run_fingerprint_auth(&mut auth, &mut s, Event::Elapsed);
        assert_eq!(reply.action, claim());
        let reply = run_fingerprint_auth(&mut auth, &mut s, failed("any other error"));
        assert_eq!(reply.action, Action::Pause { millis: 100 });
        assert_eq!(reply.notice, None);
        if attempt == 10 {
            assert!(matches!(reply.log, Log::StillBusy { attempt: 10 }));
        } else {
            assert!(matches!(reply.log, Log::Nothing));
        }
    }
    run_fingerprint_auth(&mut auth, &mut s, Event::Elapsed);
    let reply = run_fingerprint_auth(&mut auth, &mut s, Event::Completed);
    assert_eq!(
        reply.notice,
        Some(
            "\r\x1b[2K\x1b[1A\r\x1b[2K\x1b[32mFingerprint scanner was reconnected.\x1b[0m\nPassword: "
                .to_string()
        )
    );
    assert!(matches!(reply.log, Log::Claimed { attempt: 11 }));
    assert_eq!(reply.action, Action::StartVerify { finger: "any" });
}

#[test]
fn retries_stop_when_the_run_is_over() {
    let mut s = session(3);
    let mut auth = claiming(&mut s);
    run_fingerprint_auth(&mut auth, &mut s, failed("AlreadyInUse"));
    s.record(Report::PasswordAccepted);
    let reply = run_fingerprint_auth(&mut auth, &mut s, Event::Elapsed);
    assert_eq!(reply.action, Action::Finish);
    assert!(s.succeeded);
}

#[test]
fn errors_before_the_claim_end_the_method() {
    for (text, words) in [
        (
            "org.freedesktop.DBus.Error.ServiceUnknown",
            "[PAM] Fingerprint reader initialization failed.",
        ),
        (
            "net.reactivated.Fprint.Error.PermissionDenied: no",
            "[PAM] Permission denied accessing fingerprint reader.",
        ),
    ] {
        assert_eq!(error_notice(text), Some(words));
        let mut s = session(3);
        let mut auth = claiming(&mut s);
        let reply = run_fingerprint_auth(&mut auth, &mut s, failed(text));
        assert_eq!(reply.action, Action::Finish);
        assert_eq!(
            reply.notice,
            Some(format!("\r\x1b[2K\x1b[31m{}\x1b[0m\nPassword: ", words))
        );
        assert!(matches!(&reply.log, Log::Failed { text: logged } if logged == text));
        assert!(s.password_left());
    }
    assert_eq!(error_notice("x AlreadyInUse PermissionDenied"), None);
}

#[test]
fn error_of_each_preparation_ends_the_method() {
    for done in 1..=5usize {
        let mut s = session(3);
        let mut auth = FingerprintAuth::new("ada".to_string());
        run_fingerprint_auth(&mut auth, &mut s, Event::Begin);
        for _ in 1..done {
            run_fingerprint_auth(&mut auth, &mut s, Event::Completed);
        }
        let reply = run_fingerprint_auth(&mut auth, &mut s, failed("broken"));
        assert_eq!(reply.action, Action::Finish);
        assert!(matches!(&auth.outcome, Outcome::Failed { text } if text == "broken"));
        assert!(!s.fingerprint_open);
    }
}

#[test]
fn failed_start_gives_the_reader_back() {
    let mut s = session(3);
    let mut auth = claiming(&mut s);
    let replies = feed(&mut auth, &mut s, vec![Event::Completed, failed("AlreadyInUse")]);
    assert_eq!(replies[1].action, Action::Release { millis: 10 });
    let reply = run_fingerprint_auth(&mut auth, &mut s, Event::Completed);
    assert_eq!(reply.action, Action::Finish);
    assert_eq!(reply.notice, None);
    assert!(matches!(&reply.log, Log::Failed { text } if text == "AlreadyInUse"));
}

#[test]
fn failed_subscription_stops_the_scan_first() {
    let mut s = session(3);
    let mut auth = claiming(&mut s);
    let replies = feed(
        &mut auth,
        &mut s,
        vec![Event::Completed, Event::Completed, failed("broken"), Event::Completed],
    );
    assert_eq!(replies[2].action, Action::StopVerify { millis: 10 });
    assert_eq!(replies[3].action, Action::Release { millis: 10 });
    s.record(Report::PasswordAccepted);
    let reply = run_fingerprint_auth(&mut auth, &mut s, Event::Completed);
    assert!(matches!(reply.log, Log::Nothing));
}

#[test]
fn failed_end_of_a_scan_is_an_error() {
    let mut s = session(3);
    let mut auth = waiting(&mut s);
    let replies = feed(
        &mut auth,
        &mut s,
        vec![signal("verify-no-match", true), failed("broken")],
    );
    assert_eq!(replies[1].action, Action::StopVerify { millis: 10 });
    tidy(&mut auth, &mut s);
}

#[test]
fn password_success_ends_each_step_soon() {
    let mut s = session(3);
    let mut auth = waiting(&mut s);
    s.record(Report::PasswordAccepted);
    let reply = run_fingerprint_auth(&mut auth, &mut s, Event::Elapsed);
    assert_eq!(reply.action, Action::StopVerify { millis: 10 });
    tidy(&mut auth, &mut s);

    let mut s = session(3);
    let mut auth = claiming(&mut s);
    s.record(Report::PasswordAccepted);
    let reply = run_fingerprint_auth(&mut auth, &mut s, Event::Completed);
    assert_eq!(reply.action, Action::Release { millis: 10 });

    let mut s = session(3);
    let mut auth = FingerprintAuth::new("ada".to_string());
    s.record(Report::PasswordAccepted);
    let reply = run_fingerprint_auth(&mut auth, &mut s, Event::Begin);
    assert_eq!(reply.action, Action::Finish);
}

#[test]
fn no_scan_is_made_without_tries() {
    let mut s = session(0);
    let mut auth = FingerprintAuth::new("ada".to_string());
    let reply = run_fingerprint_auth(&mut auth, &mut s, Event::Begin);
    assert_eq!(reply.action, Action::Finish);
    assert!(s.password_left());
}

#[test]
fn events_out_of_turn_change_nothing() {
    let mut s = session(3);
    let mut auth = FingerprintAuth::new("ada".to_string());
    assert_eq!(run_fingerprint_auth(&mut auth, &mut s, Event::Elapsed).action, Action::Begin);
    let mut auth = claiming(&mut s);
    let before = s;
    let reply = run_fingerprint_auth(&mut auth, &mut s, signal("verify-match", true));
    assert_eq!(reply.action, claim());
    assert_eq!(s, before);
}

#[test]
fn reader_notices_need_a_terminal() {
    let options = Options { show_stars: false, password_tries: 3, fingerprint_tries: 3 };
    let mut s = Session::new(options, false);
    let mut auth = claiming(&mut s);
    let reply = run_fingerprint_auth(&mut auth, &mut s, failed("AlreadyInUse"));
    assert_eq!(reply.notice, None);
    assert_eq!(reply.action, Action::Pause { millis: 100 });
    assert!(!s.line_above);
}

#[test]
fn one_claim_and_one_interrupt_in_a_whole_run() {
    let mut s = session(2);
    let mut auth = waiting(&mut s);
    let replies = feed(
        &mut auth,
        &mut s,
        vec![
            signal("verify-no-match", true),
            Event::Completed,
            Event::Completed,
            signal("verify-match", true),
            signal("verify-match", true),
            Event::Completed,
            Event::Completed,
            Event::Completed,
        ],
    );
    assert_eq!(replies.iter().filter(|reply| reply.interrupt).count(), 1);
    assert!(replies.iter().all(|reply| reply.action != claim()));
    assert_eq!(replies[7].action, Action::Finish);
    assert!(matches!(auth.outcome, Outcome::Matched));
}
