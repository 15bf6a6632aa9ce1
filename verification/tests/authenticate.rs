use pam_password_fingerprint::authenticate::{
    look_up_user, open_session, pam_sm_authenticate, pam_sm_setcred, Authentication, Lookup,
    Refusal,
};
use pam_password_fingerprint::codes::{PAM_AUTH_ERR, PAM_SUCCESS, PAM_USER_UNKNOWN};
use pam_password_fingerprint::fingerprint::{run_fingerprint_auth, Action, Event};
use pam_password_fingerprint::password::{run_password_auth, PasswordAction, PasswordEvent};
use pam_password_fingerprint::shadow::{spwd, ShadowError};

const HASH: &str = "$6$salt$abc";

fn entry(hash: Option<&str>) -> spwd {
    spwd {
        sp_namp: Some(b"ada".to_vec()),
        sp_pwdp: hash.map(|hash| hash.as_bytes().to_vec()),
        sp_lstchg: 0,
        sp_min: 0,
        sp_max: 0,
        sp_warn: 0,
        sp_inact: 0,
        sp_expire: 0,
        sp_flag: 0,
    }
}

fn ada() -> Lookup {
    match look_up_user(PAM_SUCCESS, Some(b"ada".to_vec())) {
        Ok(lookup) => lookup,
        Err(refusal) => panic!("{:?}", refusal),
    }
}

fn open(args: &[&str]) -> Authentication {
    let argv = args.iter().map(|arg| arg.as_bytes().to_vec()).collect();
    match open_session(ada(), Some(entry(Some(HASH))), &argv, true, true) {
        Ok(ready) => ready,
        Err(refusal) => panic!("{:?}", refusal),
    }
}

fn wrong_password(run: &mut Authentication) -> PasswordAction {
    let entered = PasswordEvent::Entered { password: "wrong".to_string() };
    run_password_auth(&mut run.password, &mut run.session, entered);
    let hashed = PasswordEvent::Hashed { reply: Some(b"*0".to_vec()) };
    run_password_auth(&mut run.password, &mut run.session, hashed).action
}

fn scan(run: &mut Authentication, event: Event) -> Action {
    run_fingerprint_auth(&mut run.fingerprint, &mut run.session, event).action
}

fn reach_the_reader(run: &mut Authentication) {
    scan(run, Event::Begin);
    for _ in 0..4 {
        scan(run, Event::Completed);
    }
    scan(run, Event::Fingers { enrolled: vec!["left-thumb".to_string()] });
    scan(run, Event::Completed);
    scan(run, Event::Completed);
    assert_eq!(scan(run, Event::Completed), Action::AwaitSignal { millis: 100 });
}

#[test]
fn user_is_looked_up_by_name() {
    let lookup = ada();
    assert_eq!(lookup.username, "ada");
    assert_eq!(lookup.name, b"ada".to_vec());
}

#[test]
fn no_user_is_answered_at_once() {
    let refusal = look_up_user(PAM_SUCCESS, None).unwrap_err();
    assert_eq!(refusal.code(), PAM_USER_UNKNOWN);
    assert_eq!(refusal.message(), "Failed to retrieve username.");
    assert_eq!(pam_sm_authenticate(Err(refusal)), PAM_USER_UNKNOWN);
}

#[test]
fn no_hash_is_answered_at_once() {
    let refusal = open_session(ada(), None, &Vec::new(), false, false).unwrap_err();
    assert_eq!(
        refusal.message(),
        "Failed to retrieve password hash for ada: User not found in shadow database or permission denied"
    );
    assert_eq!(pam_sm_authenticate(Err(refusal)), PAM_AUTH_ERR);
    let refusal = open_session(ada(), Some(entry(None)), &Vec::new(), false, false).unwrap_err();
    assert!(matches!(refusal, Refusal::NoHash { error: ShadowError::NoHash, .. }));
}

#[test]
fn zero_byte_in_the_name_is_refused() {
    let refusal = look_up_user(PAM_SUCCESS, Some(b"a\0b".to_vec())).unwrap_err();
    assert_eq!(refusal.code(), PAM_AUTH_ERR);
    assert_eq!(
        refusal.message(),
        "Failed to retrieve password hash for a\0b: nul byte found in provided data at position: 1"
    );
}

#[test]
fn stars_need_a_terminal() {
    let argv = vec![b"show_stars".to_vec()];
    for stdin_tty in [true, false] {
        let ready =
            open_session(ada(), Some(entry(Some(HASH))), &argv, stdin_tty, true).ok().unwrap();
        assert_eq!(ready.password.stars, stdin_tty);
    }
    assert!(!open(&["tries=1"]).password.stars);
    assert_eq!(open(&["tries=1"]).password.hash, HASH);
    assert_eq!(open(&["tries=1"]).fingerprint.username, "ada");
}

#[test]
fn password_first() {
    let mut run = open(&[]);
    reach_the_reader(&mut run);
    run_password_auth(&mut run.password, &mut run.session, PasswordEvent::Begin);
    let entered = PasswordEvent::Entered { password: "secret".to_string() };
    run_password_auth(&mut run.password, &mut run.session, entered);
    let hashed = PasswordEvent::Hashed { reply: Some(HASH.as_bytes().to_vec()) };
    let reply = run_password_auth(&mut run.password, &mut run.session, hashed);
    assert!(matches!(reply.action, PasswordAction::Finish));
    assert_eq!(scan(&mut run, Event::Elapsed), Action::StopVerify { millis: 10 });
    assert_eq!(scan(&mut run, Event::Completed), Action::Release { millis: 10 });
    assert_eq!(scan(&mut run, Event::Completed), Action::Finish);
    assert_eq!(pam_sm_authenticate(Ok(run.session)), PAM_SUCCESS);
}

#[test]
fn finger_first() {
    let mut run = open(&[]);
    run_password_auth(&mut run.password, &mut run.session, PasswordEvent::Begin);
    reach_the_reader(&mut run);
    scan(&mut run, Event::Signal { result: "verify-match".to_string(), done: true });
    let interrupted = PasswordEvent::Failed { code: 19 };
    let reply = run_password_auth(&mut run.password, &mut run.session, interrupted);
    assert!(matches!(reply.action, PasswordAction::Finish));
    assert_eq!(pam_sm_authenticate(Ok(run.session)), PAM_SUCCESS);
}

#[test]
fn run_lasts_until_both_methods_are_used_up() {
    let mut run = open(&["password_tries=1", "fingerprint_tries=2"]);
    run_password_auth(&mut run.password, &mut run.session, PasswordEvent::Begin);
    reach_the_reader(&mut run);
    let no_match = || Event::Signal { result: "verify-no-match".to_string(), done: true };
    assert!(matches!(wrong_password(&mut run), PasswordAction::Swallow { millis: 100 }));
    assert_eq!(scan(&mut run, no_match()), Action::FinishScan);
    assert_eq!(
        run.session.warning(),
        "Password incorrect (attempt 1/1). - Fingerprint did not match (attempt 1/2)."
    );
    assert!(!run.session.is_over());
    scan(&mut run, Event::Completed);
    scan(&mut run, Event::Completed);
    assert_eq!(scan(&mut run, no_match()), Action::StopVerify { millis: 10 });
    assert!(run.session.is_over());
    let reply = run_password_auth(&mut run.password, &mut run.session, PasswordEvent::Elapsed);
    assert!(matches!(reply.action, PasswordAction::Finish));
    assert_eq!(pam_sm_authenticate(Ok(run.session)), PAM_AUTH_ERR);
}

#[test]
fn missing_reader_falls_back_to_the_password() {
    let mut run = open(&["tries=1"]);
    run_password_auth(&mut run.password, &mut run.session, PasswordEvent::Begin);
    scan(&mut run, Event::Begin);
    let failed = Event::Failed { text: "no such service".to_string() };
    assert_eq!(scan(&mut run, failed), Action::Finish);
    assert!(!run.session.is_over());
    assert!(matches!(wrong_password(&mut run), PasswordAction::Finish));
    assert_eq!(pam_sm_authenticate(Ok(run.session)), PAM_AUTH_ERR);
}

#[test]
fn credentials_are_always_set() {
    assert_eq!(pam_sm_setcred(), PAM_SUCCESS);
}
