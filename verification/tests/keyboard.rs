use pam_password_fingerprint::codes::PAM_CONV_ERR;
use pam_password_fingerprint::keyboard::{
    read_password_with_stars, swallow_key, typing_flags, KeyOutcome, PasswordLine,
};

fn type_keys(keys: &[u8]) -> (String, String, KeyOutcome) {
    let mut line = PasswordLine::new();
    let mut screen = String::new();
    let mut outcome = KeyOutcome::Reading;
    for key in keys {
        let reply = read_password_with_stars(&mut line, Some(*key));
        screen.push_str(reply.echo);
        outcome = reply.outcome;
    }
    (line.typed, screen, outcome)
}

#[test]
fn typed_characters_are_the_password() {
    let (typed, screen, outcome) = type_keys(b"p4 s~!\n");
    assert_eq!(typed, "p4 s~!");
    assert_eq!(screen, "******\n");
    assert_eq!(outcome, KeyOutcome::Entered);
    assert_eq!(type_keys(b"ab\r").2, KeyOutcome::Entered);
}

#[test]
fn backspace_takes_back_one_character() {
    let (typed, screen, outcome) = type_keys(&[b'a', b'b', 127, b'c', 8]);
    assert_eq!(typed, "a");
    assert_eq!(screen, "**\x08 \x08*\x08 \x08");
    assert_eq!(outcome, KeyOutcome::Reading);
}

#[test]
fn backspace_on_an_empty_line_does_nothing() {
    assert_eq!(type_keys(&[127, 8]), (String::new(), String::new(), KeyOutcome::Reading));
}

#[test]
fn other_control_bytes_are_passed_over() {
    assert_eq!(
        type_keys(&[0x1b, b'x', 0x00, 0x80, 0xff, 0x09]),
        ("x".to_string(), "*".to_string(), KeyOutcome::Reading)
    );
}

#[test]
fn interrupt_breaks_off() {
    let (_, screen, outcome) = type_keys(&[b'a', 3]);
    assert_eq!(screen, "*\n");
    assert_eq!(outcome, KeyOutcome::Cancelled);
}

#[test]
fn failed_read_is_a_conversation_error() {
    let mut line = PasswordLine::new();
    let reply = read_password_with_stars(&mut line, None);
    assert_eq!(reply.outcome, KeyOutcome::Failed { code: PAM_CONV_ERR });
    assert_eq!(reply.echo, "");
}

#[test]
fn swallowed_keys_leave_no_trace() {
    for key in 0..=255u8 {
        let reply = swallow_key(Some(key));
        if key == 3 {
            assert_eq!(reply.outcome, KeyOutcome::Cancelled);
            assert_eq!(reply.echo, "\n");
        } else {
            assert_eq!(reply.outcome, KeyOutcome::Reading);
            assert_eq!(reply.echo, "");
        }
    }
    assert_eq!(swallow_key(None).outcome, KeyOutcome::Reading);
}

#[test]
fn typing_flags_drop_two_flags() {
    assert_eq!(typing_flags(0o105073, 0o2, 0o10), 0o105061);
    assert_eq!(typing_flags(0, 0o2, 0o10), 0);
}

#[test]
fn lines_of_the_same_shape_look_alike() {
    let one = type_keys(&[b'a', b'b', 127, b'c', 0x1b, b'\n']);
    let other = type_keys(&[b'~', b' ', 127, b'9', 0x1b, b'\n']);
    assert_eq!(one.1, other.1);
    assert_eq!(one.2, other.2);
    assert_eq!(one.0.len(), other.0.len());
    assert_ne!(one.0, other.0);
}
