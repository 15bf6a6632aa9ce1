//! What the module asks the application, and what it makes of the answers.
//!
//! C strings appear here as the bytes before their terminator, and a null
//! pointer as `None`.

use vstd::prelude::*;
use vstd::string::*;
use vstd::utf8::*;

use crate::codes::{PAM_BUF_ERR, PAM_CONV_ERR, PAM_PROMPT_ECHO_OFF, PAM_SUCCESS, PAM_USER_UNKNOWN};
use crate::text::{c_string, decode_lossy};
#[allow(unused_imports)]
use crate::text::{lossy_text, no_nul};

verus! {

/// A question for the application to put to the user.
#[allow(non_camel_case_types)]
pub struct pam_message {
    pub msg_style: i32,
    pub msg: Vec<u8>,
}

/// The application's answer to one question.
#[allow(non_camel_case_types)]
pub struct pam_response {
    pub resp: Option<Vec<u8>>,
    pub resp_retcode: i32,
}

/// The application's conversation: `conv` tells whether it has a function to
/// call.
#[allow(non_camel_case_types)]
pub struct pam_conv {
    pub conv: bool,
}

/// The user's name, from what came of asking for the item `PAM_USER`.
pub fn get_username(status: i32, user: Option<Vec<u8>>) -> (result: Result<String, i32>)
    ensures
        match result {
            Ok(name) => status == PAM_SUCCESS && user is Some && name@ == lossy_text(user->0@) && (
            valid_utf8(user->0@) ==> name@ == decode_utf8(user->0@)),
            Err(code) => (status != PAM_SUCCESS || user is None) && code == PAM_USER_UNKNOWN,
        },
        result is Ok <==> status == 0 && user is Some,
        result matches Err(code) ==> code == 10,
{
    if status != PAM_SUCCESS {
        return Err(PAM_USER_UNKNOWN);
    }
    match user {
        Some(bytes) => Ok(decode_lossy(bytes.as_slice())),
        None => Err(PAM_USER_UNKNOWN),
    }
}

/// The question to put to the user, from what came of asking for the item
/// `PAM_CONV`: the prompt, to be answered without echo.
pub fn prompt_message(status: i32, conversation: Option<pam_conv>, prompt: &str) -> (result: Result<
    pam_message,
    i32,
>)
    ensures
        match result {
            Ok(message) => {
                &&& status == PAM_SUCCESS
                &&& conversation is Some && conversation->0.conv
                &&& no_nul(encode_utf8(prompt@))
                &&& message.msg_style == PAM_PROMPT_ECHO_OFF
                &&& message.msg@ == encode_utf8(prompt@)
            },
            Err(code) => {
                ||| (status != PAM_SUCCESS || conversation is None || !conversation->0.conv) && code
                    == PAM_CONV_ERR
                ||| status == PAM_SUCCESS && conversation is Some && conversation->0.conv && !no_nul(
                    encode_utf8(prompt@),
                ) && code == PAM_BUF_ERR
            },
        },
        result is Ok <==> status == 0 && conversation is Some && conversation->0.conv
            && !encode_utf8(prompt@).contains(0u8),
        result matches Ok(message) ==> message.msg_style == 1 && message.msg@ == encode_utf8(
            prompt@,
        ),
        result matches Err(code) ==> code == (if status == 0 && conversation is Some
            && conversation->0.conv {
            5
        } else {
            19i32
        }),
{
    if status != PAM_SUCCESS {
        return Err(PAM_CONV_ERR);
    }
    match conversation {
        Some(conversation) => {
            if !conversation.conv {
                return Err(PAM_CONV_ERR);
            }
        },
        None => return Err(PAM_CONV_ERR),
    }
    match c_string(prompt) {
        Ok(msg) => Ok(pam_message { msg_style: PAM_PROMPT_ECHO_OFF, msg }),
        Err(_) => Err(PAM_BUF_ERR),
    }
}

/// The password, from what the conversation function returned and where it
/// left its answer.
pub fn prompt_password(status: i32, response: Option<pam_response>) -> (result: Result<String, i32>)
    ensures
        match result {
            Ok(password) => {
                &&& status == PAM_SUCCESS
                &&& response is Some && response->0.resp is Some
                &&& password@ == lossy_text(response->0.resp->0@)
                &&& valid_utf8(response->0.resp->0@) ==> password@ == decode_utf8(
                    response->0.resp->0@,
                )
            },
            Err(code) => {
                ||| status != PAM_SUCCESS && code == status
                ||| status == PAM_SUCCESS && (response is None || response->0.resp is None) && code
                    == PAM_CONV_ERR
            },
        },
        result is Ok <==> status == 0 && response is Some && response->0.resp is Some,
        result matches Err(code) ==> code == (if status == 0 {
            19
        } else {
            status
        }),
{
    if status != PAM_SUCCESS {
        return Err(status);
    }
    match response {
        Some(response) => match response.resp {
            Some(bytes) => Ok(decode_lossy(bytes.as_slice())),
            None => Err(PAM_CONV_ERR),
        },
        None => Err(PAM_CONV_ERR),
    }
}

} // verus!
