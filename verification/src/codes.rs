//! The numbers that the module exchanges with PAM.

use vstd::prelude::*;

verus! {

pub const PAM_SUCCESS: i32 = 0;

pub const PAM_SYSTEM_ERR: i32 = 4;

pub const PAM_BUF_ERR: i32 = 5;

pub const PAM_AUTH_ERR: i32 = 7;

pub const PAM_USER_UNKNOWN: i32 = 10;

pub const PAM_CONV_ERR: i32 = 19;

/// The item that names the user.
pub const PAM_USER: i32 = 2;

/// The item that holds the application's conversation function.
pub const PAM_CONV: i32 = 5;

/// The style of a question whose answer is not echoed.
pub const PAM_PROMPT_ECHO_OFF: i32 = 1;

/// The numbers are those of PAM.
pub proof fn numbers_of_pam()
    ensures
        PAM_SUCCESS == 0,
        PAM_SYSTEM_ERR == 4,
        PAM_BUF_ERR == 5,
        PAM_AUTH_ERR == 7,
        PAM_USER_UNKNOWN == 10,
        PAM_CONV_ERR == 19,
        PAM_USER == 2,
        PAM_CONV == 5,
        PAM_PROMPT_ECHO_OFF == 1,
{
}

} // verus!
