use pam_password_fingerprint::codes::{
    PAM_AUTH_ERR, PAM_BUF_ERR, PAM_CONV, PAM_CONV_ERR, PAM_PROMPT_ECHO_OFF, PAM_SUCCESS,
    PAM_SYSTEM_ERR, PAM_USER, PAM_USER_UNKNOWN,
};
use pam_password_fingerprint::conversation::{
    get_username, pam_conv, pam_response, prompt_message, prompt_password,
};

#[test]
fn codes_are_those_of_pam() {
    assert_eq!(
        [PAM_SUCCESS, PAM_SYSTEM_ERR, PAM_BUF_ERR, PAM_AUTH_ERR, PAM_USER_UNKNOWN, PAM_CONV_ERR],
        [0, 4, 5, 7, 10, 19]
    );
    assert_eq!([PAM_USER, PAM_CONV, PAM_PROMPT_ECHO_OFF], [2, 5, 1]);
}

#[test]
fn username_is_decoded() {
    assert_eq!(get_username(PAM_SUCCESS, Some(b"ada".to_vec())), Ok("ada".to_string()));
    assert_eq!(
        get_username(PAM_SUCCESS, Some(vec![0x66, 0xff, 0x6f])),
        Ok("f\u{fffd}o".to_string())
    );
}

#[test]
fn username_that_is_missing_is_unknown() {
    assert_eq!(get_username(PAM_SUCCESS, None), Err(PAM_USER_UNKNOWN));
    assert_eq!(get_username(4, Some(b"ada".to_vec())), Err(PAM_USER_UNKNOWN));
}

#[test]
fn prompt_is_put_without_echo() {
    let message = prompt_message(PAM_SUCCESS, Some(pam_conv { conv: true }), "Password: ");
    match message {
        Ok(message) => {
            assert_eq!(message.msg_style, PAM_PROMPT_ECHO_OFF);
            assert_eq!(message.msg, b"Password: ".to_vec());
        }
        Err(code) => panic!("refused with {}", code),
    }
}

#[test]
fn prompt_needs_a_conversation() {
    let code = |status: i32, conversation: Option<pam_conv>, prompt: &str| {
        prompt_message(status, conversation, prompt).err()
    };
    assert_eq!(code(4, Some(pam_conv { conv: true }), "Password: "), Some(PAM_CONV_ERR));
    assert_eq!(code(PAM_SUCCESS, None, "Password: "), Some(PAM_CONV_ERR));
    assert_eq!(code(PAM_SUCCESS, Some(pam_conv { conv: false }), "a\0"), Some(PAM_CONV_ERR));
    assert_eq!(code(PAM_SUCCESS, Some(pam_conv { conv: true }), "a\0"), Some(PAM_BUF_ERR));
}

#[test]
fn password_is_the_answer() {
    let response = pam_response { resp: Some(b"secret".to_vec()), resp_retcode: 1 };
    assert_eq!(prompt_password(PAM_SUCCESS, Some(response)), Ok("secret".to_string()));
}

#[test]
fn failed_conversation_gives_its_own_code() {
    assert_eq!(prompt_password(6, None), Err(6));
    assert_eq!(prompt_password(PAM_SUCCESS, None), Err(PAM_CONV_ERR));
    let empty = pam_response { resp: None, resp_retcode: 0 };
    assert_eq!(prompt_password(PAM_SUCCESS, Some(empty)), Err(PAM_CONV_ERR));
}
