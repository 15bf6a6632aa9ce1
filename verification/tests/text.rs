use pam_password_fingerprint::text::{c_string, contains_text, same_text};

#[test]
fn c_string_keeps_the_bytes() {
    assert_eq!(c_string("any"), Ok(b"any".to_vec()));
    assert_eq!(c_string(""), Ok(Vec::new()));
    assert_eq!(c_string("\u{e9}"), Ok(vec![0xc3, 0xa9]));
}

#[test]
fn c_string_names_the_first_zero_byte() {
    assert_eq!(c_string("\0"), Err(0));
    assert_eq!(c_string("\u{e9}b\0c\0"), Err(3));
}

#[test]
fn contains_text_finds_a_part_anywhere() {
    let error = "net.reactivated.Fprint.Error.AlreadyInUse: Device was already claimed";
    assert!(contains_text(error, "AlreadyInUse"));
    assert!(contains_text(error, "net."));
    assert!(contains_text(error, "claimed"));
    assert!(contains_text(error, ""));
    assert!(contains_text("", ""));
    assert!(!contains_text(error, "PermissionDenied"));
    assert!(!contains_text("AlreadyInUs", "AlreadyInUse"));
    assert!(!contains_text("", "a"));
    assert!(contains_text("aab", "ab"));
}

#[test]
fn same_text_compares_whole_texts() {
    assert!(same_text("verify-match", "verify-match"));
    assert!(!same_text("verify-match", "verify-no-match"));
    assert!(!same_text("show_stars", "show_stars "));
}
