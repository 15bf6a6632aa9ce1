use pam_password_fingerprint::fingerprint::{run_fingerprint_auth, Event, FingerprintAuth};
use pam_password_fingerprint::options::Options;
use pam_password_fingerprint::password::{
    run_password_auth, PasswordAction, PasswordAuth, PasswordEvent,
};
use pam_password_fingerprint::session::Session;

const HASH: &str = "$6$salt$abc";

/// A terminal that keeps what stands in each row.
struct Screen {
    rows: Vec<String>,
    row: usize,
}

impl Screen {
    fn write(&mut self, text: &str) {
        let mut rest = text;
        while let Some(first) = rest.chars().next() {
            if let Some(tail) = rest.strip_prefix("\x1b[1A") {
                self.row -= 1;
                rest = tail;
            } else if let Some(tail) = rest.strip_prefix("\r\x1b[2K") {
                self.rows[self.row].clear();
                rest = tail;
            } else if let Some(tail) = rest.strip_prefix("\x1b[") {
                rest = &tail[tail.find('m').unwrap() + 1..];
            } else {
                if first == '\n' {
                    self.row += 1;
                    if self.row == self.rows.len() {
                        self.rows.push(String::new());
                    }
                } else {
                    self.rows[self.row].push(first);
                }
                rest = &rest[first.len_utf8()..];
            }
        }
    }
}

/// Both methods on one terminal.
struct Desk {
    screen: Screen,
    session: Session,
    password: PasswordAuth,
    fingerprint: FingerprintAuth,
}

impl Desk {
    fn new(password_tries: u32, fingerprint_tries: u32) -> Desk {
        let options = Options { show_stars: true, password_tries, fingerprint_tries };
        let mut desk = Desk {
            screen: Screen { rows: vec![String::new()], row: 0 },
            session: Session::new(options, true),
            password: PasswordAuth::new(HASH.to_string(), true),
            fingerprint: FingerprintAuth::new("ada".to_string()),
        };
        desk.answer(PasswordEvent::Begin);
        desk
    }

    fn answer(&mut self, event: PasswordEvent) {
        let reply = run_password_auth(&mut self.password, &mut self.session, event);
        if let Some(text) = &reply.notice {
            self.screen.write(text);
        }
        if let PasswordAction::ReadStars { prompt } = reply.action {
            self.screen.write(prompt);
        }
    }

    fn enter(&mut self, password: &str) {
        self.screen.write("***\n");
        self.answer(PasswordEvent::Entered { password: password.to_string() });
    }

    fn crypt_refuses(&mut self) {
        self.answer(PasswordEvent::Hashed { reply: Some(b"$6$salt$xyz".to_vec()) });
    }

    fn reader(&mut self, event: Event) {
        let reply = run_fingerprint_auth(&mut self.fingerprint, &mut self.session, event);
        if let Some(text) = &reply.notice {
            self.screen.write(text);
        }
    }

    fn reader_listens(&mut self) {
        self.reader(Event::Begin);
        for _ in 0..4 {
            self.reader(Event::Completed);
        }
        self.reader(Event::Fingers { enrolled: vec!["right-thumb".to_string()] });
        for _ in 0..3 {
            self.reader(Event::Completed);
        }
    }

    fn wrong_finger(&mut self) {
        self.reader(Event::Signal { result: "verify-no-match".to_string(), done: true });
        self.reader(Event::Completed);
        self.reader(Event::Completed);
    }

    /// The rows as far as something stands in them.
    fn shows(&self, rows: &[&str]) {
        let used = self.screen.rows.iter().rposition(|row| !row.is_empty()).map_or(0, |i| i + 1);
        assert_eq!(&self.screen.rows[..used], rows);
    }
}

#[test]
fn scan_that_fails_during_crypt_keeps_one_line() {
    let mut desk = Desk::new(3, 3);
    desk.reader_listens();
    desk.shows(&["Password: "]);
    desk.enter("one");
    desk.crypt_refuses();
    desk.shows(&["Password incorrect (attempt 1/3).", "Password: "]);
    desk.enter("two");
    desk.wrong_finger();
    desk.shows(&[
        "Password incorrect (attempt 1/3). - Fingerprint did not match (attempt 1/3).",
        "Password: ",
    ]);
    desk.crypt_refuses();
    desk.shows(&[
        "Password incorrect (attempt 2/3). - Fingerprint did not match (attempt 1/3).",
        "Password: ",
    ]);
}

#[test]
fn notice_during_crypt_clears_the_prompt_that_was_left() {
    let mut s = Session::new(
        Options { show_stars: true, password_tries: 3, fingerprint_tries: 3 },
        true,
    );
    let mut password = PasswordAuth::new(HASH.to_string(), true);
    run_password_auth(&mut password, &mut s, PasswordEvent::Begin);
    let event = PasswordEvent::Entered { password: "one".to_string() };
    run_password_auth(&mut password, &mut s, event);
    run_password_auth(&mut password, &mut s, PasswordEvent::Hashed { reply: None });
    let event = PasswordEvent::Entered { password: "two".to_string() };
    run_password_auth(&mut password, &mut s, event);

    let mut fingerprint = FingerprintAuth::new("ada".to_string());
    run_fingerprint_auth(&mut fingerprint, &mut s, Event::Begin);
    let event = Event::Failed { text: "no bus".to_string() };
    let reply = run_fingerprint_auth(&mut fingerprint, &mut s, event);
    assert_eq!(
        reply.notice,
        Some(
            "\r\x1b[2K\x1b[1A\r\x1b[2K\x1b[1A\r\x1b[2K\x1b[31m\
             [PAM] Fingerprint reader initialization failed.\x1b[0m\nPassword: "
                .to_string()
        )
    );

    let reply = run_password_auth(&mut password, &mut s, PasswordEvent::Hashed { reply: None });
    assert_eq!(
        reply.notice,
        Some(
            "\r\x1b[2K\x1b[1A\r\x1b[2K\x1b[31mPassword incorrect (attempt 2/3).\x1b[0m\n"
                .to_string()
        )
    );
}

#[test]
fn notices_before_and_after_a_question_share_the_line() {
    let mut desk = Desk::new(2, 3);
    desk.reader_listens();
    desk.wrong_finger();
    desk.shows(&["Fingerprint did not match (attempt 1/3).", "Password: "]);
    desk.enter("one");
    desk.crypt_refuses();
    desk.wrong_finger();
    desk.enter("two");
    desk.crypt_refuses();
    desk.shows(&[
        "Password incorrect (attempt 2/2). - Fingerprint did not match (attempt 2/3).",
        "Waiting for fingerprint...",
    ]);
}

#[test]
fn unusable_password_leaves_the_prompt_too() {
    let mut desk = Desk::new(3, 3);
    desk.enter("a\0b");
    desk.shows(&["Password incorrect (attempt 1/3).", "Password: "]);
}

#[test]
fn error_after_an_interrupt_stays_in_the_line() {
    let mut desk = Desk::new(3, 3);
    desk.reader(Event::Begin);
    desk.screen.write("\n");
    desk.answer(PasswordEvent::Cancelled);
    assert!(desk.session.below_prompt);
    desk.reader(Event::Failed { text: "PermissionDenied".to_string() });
    desk.shows(&[
        "[PAM] Permission denied accessing fingerprint reader.",
        "Password: ",
    ]);
}

#[test]
fn waiting_prompt_opens_in_the_first_row() {
    let mut desk = Desk::new(0, 3);
    desk.shows(&["Waiting for fingerprint..."]);
    desk.reader_listens();
    desk.wrong_finger();
    desk.shows(&["Fingerprint did not match (attempt 1/3).", "Waiting for fingerprint..."]);
}
