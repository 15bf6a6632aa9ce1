use pam_password_fingerprint::shadow::{
    confirm_hash, crypt_request, get_shadow_hash, shadow_name, spwd, verify_password_hash,
    ShadowError,
};

fn entry(hash: Option<Vec<u8>>) -> spwd {
    spwd {
        sp_namp: Some(b"ada".to_vec()),
        sp_pwdp: hash,
        sp_lstchg: 19000,
        sp_min: 0,
        sp_max: 99999,
        sp_warn: 7,
        sp_inact: -1,
        sp_expire: -1,
        sp_flag: 0,
    }
}

#[test]
fn hash_is_read_from_the_entry() {
    assert_eq!(
        get_shadow_hash("ada", Some(entry(Some(b"$6$salt$abc".to_vec())))),
        Ok("$6$salt$abc".to_string())
    );
}

#[test]
fn each_way_of_having_no_hash() {
    assert_eq!(get_shadow_hash("ada", None), Err(ShadowError::NoEntry));
    assert_eq!(get_shadow_hash("ada", Some(entry(None))), Err(ShadowError::NoHash));
    assert_eq!(get_shadow_hash("a\0a", None), Err(ShadowError::NulInName { position: 1 }));
    assert_eq!(shadow_name("a\0a"), Err(ShadowError::NulInName { position: 1 }));
    assert_eq!(shadow_name("ada"), Ok(b"ada".to_vec()));
}

#[test]
fn errors_in_words() {
    assert_eq!(
        ShadowError::NoEntry.message(),
        "User not found in shadow database or permission denied"
    );
    assert_eq!(ShadowError::NoHash.message(), "No password hash found for user");
    assert_eq!(
        ShadowError::NulInName { position: 120 }.message(),
        "nul byte found in provided data at position: 120"
    );
}

#[test]
fn crypt_gets_password_and_hash() {
    let request = crypt_request("secret", "$6$salt$abc").unwrap();
    assert_eq!(request.key, b"secret".to_vec());
    assert_eq!(request.salt, b"$6$salt$abc".to_vec());
    assert!(crypt_request("sec\0ret", "$6$salt$abc").is_none());
    assert!(crypt_request("secret", "$6$\0").is_none());
}

#[test]
fn reply_must_be_the_hash() {
    let hash = "$6$salt$abc";
    assert!(verify_password_hash("secret", hash, Some(b"$6$salt$abc".to_vec())));
    assert!(!verify_password_hash("secret", hash, Some(b"$6$salt$abd".to_vec())));
    assert!(!verify_password_hash("secret", hash, Some(b"*0".to_vec())));
    assert!(!verify_password_hash("secret", hash, None));
    assert!(!verify_password_hash("sec\0ret", hash, Some(b"$6$salt$abc".to_vec())));
    assert!(!verify_password_hash("secret", "a\0", Some(b"a\0".to_vec())));
}

#[test]
fn replies_are_compared_as_decoded_text() {
    assert!(verify_password_hash("secret", "x\u{fffd}", Some(vec![0x78, 0xff])));
    assert!(confirm_hash("secret", "abc", Some("abc".to_string())));
    assert!(!confirm_hash("secret", "abc", Some("abd".to_string())));
    assert!(!confirm_hash("secret", "abc", None));
}
