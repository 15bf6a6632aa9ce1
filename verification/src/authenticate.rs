//! One call of the module, from the user's name to the answer.

use vstd::prelude::*;
use vstd::string::*;
use vstd::utf8::*;

use crate::codes::{PAM_AUTH_ERR, PAM_SUCCESS};
use crate::conversation::get_username;
use crate::fingerprint::FingerprintAuth;
use crate::options::Options;
use crate::password::PasswordAuth;
use crate::session::Session;
use crate::shadow::{get_shadow_hash, shadow_name, spwd, ShadowError};
#[allow(unused_imports)]
use crate::{
    codes::PAM_USER_UNKNOWN,
    fingerprint::idle,
    options::{all_valid, decoded, options_of, utf8_texts},
    password::unprompted,
    session::{answer_of, fresh},
    shadow::shadow_error_text,
    fingerprint::Step,
    password::PasswordStep,
    text::{c_strings_hold_no_zero, first_nul, lossy_text, no_nul},
};

verus! {

/// A user whose entry in the shadow database is to be looked up.
#[derive(Debug)]
pub struct Lookup {
    pub username: String,
    /// The C string under which to look.
    pub name: Vec<u8>,
}

/// Why a call ends before either method begins.
#[derive(Debug)]
pub enum Refusal {
    /// The application names no user; the code is for the application.
    NoUser { code: i32 },
    /// There is no password hash for the user.
    NoHash { username: String, error: ShadowError },
}

/// The answer to the application for a call that ends early.
pub open spec fn refusal_code(refusal: Refusal) -> i32 {
    match refusal {
        Refusal::NoUser { code } => code,
        Refusal::NoHash { .. } => PAM_AUTH_ERR,
    }
}

/// The words for the log for a call that ends early.
pub open spec fn refusal_text(refusal: Refusal) -> Seq<char> {
    match refusal {
        Refusal::NoUser { .. } => "Failed to retrieve username."@,
        Refusal::NoHash { username, error } => "Failed to retrieve password hash for "@ + username@
            + ": "@ + shadow_error_text(error),
    }
}

impl Refusal {
    /// The answer to the application.
    pub fn code(&self) -> (code: i32)
        ensures
            code == refusal_code(*self),
            match *self {
                Refusal::NoUser { code: given } => code == given,
                Refusal::NoHash { .. } => code == 7,
            },
    {
        match self {
            Refusal::NoUser { code } => *code,
            Refusal::NoHash { .. } => PAM_AUTH_ERR,
        }
    }

    /// The words for the log.
    pub fn message(&self) -> (text: String)
        ensures
            text@ == refusal_text(*self),
            match *self {
                Refusal::NoUser { .. } => text@ == "Failed to retrieve username."@,
                Refusal::NoHash { username, error } => text@
                    == "Failed to retrieve password hash for "@ + username@ + ": "@
                    + shadow_error_text(error),
            },
    {
        match self {
            Refusal::NoUser { .. } => "Failed to retrieve username.".to_owned(),
            Refusal::NoHash { username, error } => {
                let mut text: String = "Failed to retrieve password hash for ".to_owned();
                text.append(username.as_str());
                text.append(": ");
                text.append(error.message().as_str());
                text
            },
        }
    }
}

/// The user to look up, from what came of asking for the item `PAM_USER`.
pub fn look_up_user(status: i32, user: Option<Vec<u8>>) -> (result: Result<Lookup, Refusal>)
    ensures
        match result {
            Ok(lookup) => {
                &&& status == PAM_SUCCESS && user is Some
                &&& lookup.username@ == lossy_text(user->0@)
                &&& valid_utf8(user->0@) ==> lookup.username@ == decode_utf8(user->0@)
                    && lookup.name@ == user->0@
                &&& lookup.name@ == encode_utf8(lookup.username@)
                &&& no_nul(lookup.name@)
            },
            Err(Refusal::NoUser { code }) => (status != PAM_SUCCESS || user is None) && code
                == PAM_USER_UNKNOWN,
            Err(Refusal::NoHash { username, error }) => {
                &&& status == PAM_SUCCESS && user is Some
                &&& username@ == lossy_text(user->0@)
                &&& valid_utf8(user->0@) ==> username@ == decode_utf8(user->0@)
                    && encode_utf8(username@) == user->0@
                &&& error matches ShadowError::NulInName { position } && first_nul(
                    encode_utf8(username@),
                    position as int,
                )
            },
        },
        result matches Err(Refusal::NoUser { code }) ==> code == 10,
        result is Ok ==> status == 0 && user is Some && !encode_utf8(
            lossy_text(user->0@),
        ).contains(0u8),
        status == 0 && user is Some && !encode_utf8(lossy_text(user->0@)).contains(0u8)
            ==> result is Ok,
        status == 0 && user is Some && valid_utf8(user->0@) && !user->0@.contains(0u8)
            ==> result is Ok,
{
    proof {
        if user is Some {
            c_strings_hold_no_zero(encode_utf8(lossy_text(user->0@)));
            c_strings_hold_no_zero(user->0@);
        }
        if user is Some && valid_utf8(user->0@) {
            decode_utf8_encode_utf8(user->0@);
        }
    }
    match get_username(status, user) {
        Ok(username) => match shadow_name(username.as_str()) {
            Ok(name) => Ok(Lookup { username, name }),
            Err(error) => Err(Refusal::NoHash { username, error }),
        },
        Err(code) => Err(Refusal::NoUser { code }),
    }
}

/// The two methods and what they share, ready to begin.
#[derive(Debug)]
pub struct Authentication {
    pub username: String,
    pub session: Session,
    pub password: PasswordAuth,
    pub fingerprint: FingerprintAuth,
}

/// Prepares both methods, from the entry that the shadow database gave for the
/// user and the module's arguments. Asterisks are shown where the arguments
/// ask for them and passwords are typed on a terminal.
pub fn open_session(
    lookup: Lookup,
    entry: Option<spwd>,
    argv: &Vec<Vec<u8>>,
    stdin_tty: bool,
    stderr_tty: bool,
) -> (result: Result<Authentication, Refusal>)
    ensures
        match result {
            Ok(ready) => {
                let options = options_of(decoded(argv@));
                &&& no_nul(encode_utf8(lookup.username@))
                &&& entry is Some && entry->0.sp_pwdp is Some
                &&& ready.username@ == lookup.username@
                &&& ready.session == fresh(options, stderr_tty)
                &&& all_valid(argv@) ==> options == options_of(utf8_texts(argv@))
                &&& ready.password@ == unprompted(
                    lossy_text(entry->0.sp_pwdp->0@),
                    options.show_stars && stdin_tty,
                )
                &&& valid_utf8(entry->0.sp_pwdp->0@) ==> encode_utf8(ready.password.hash@)
                    == entry->0.sp_pwdp->0@
                &&& ready.fingerprint@ == idle(lookup.username@)
            },
            Err(Refusal::NoUser { .. }) => false,
            Err(Refusal::NoHash { username, error }) => {
                &&& username@ == lookup.username@
                &&& match error {
                    ShadowError::NulInName { position } => first_nul(
                        encode_utf8(lookup.username@),
                        position as int,
                    ),
                    ShadowError::NoEntry => no_nul(encode_utf8(lookup.username@)) && entry is None,
                    ShadowError::NoHash => no_nul(encode_utf8(lookup.username@)) && entry is Some
                        && entry->0.sp_pwdp is None,
                }
            },
        },
        result is Ok <==> !encode_utf8(lookup.username@).contains(0u8) && entry is Some
            && entry->0.sp_pwdp is Some,
        result matches Ok(ready) ==> {
            &&& ready.username@ == lookup.username@
            &&& ready.fingerprint.username@ == lookup.username@
            &&& ready.fingerprint.step == Step::Idle
            &&& ready.password.step == PasswordStep::Idle
            &&& ready.password.hash@ == lossy_text(entry->0.sp_pwdp->0@)
            &&& ready.password.stars == (ready.session.options.show_stars && stdin_tty)
            &&& ready.session.tty == stderr_tty
            &&& ready.session.password_failures == 0 && ready.session.fingerprint_failures == 0
            &&& ready.session.password_open && ready.session.fingerprint_open
            &&& !ready.session.succeeded && !ready.session.cancelled
        },
{
    proof {
        c_strings_hold_no_zero(encode_utf8(lookup.username@));
    }
    match get_shadow_hash(lookup.username.as_str(), entry) {
        Ok(hash) => {
            proof {
                if valid_utf8(entry->0.sp_pwdp->0@) {
                    decode_utf8_encode_utf8(entry->0.sp_pwdp->0@);
                }
            }
            let options: Options = Options::from_argv(argv);
            let username: String = lookup.username.clone();
            Ok(
                Authentication {
                    username: lookup.username,
                    session: Session::new(options, stderr_tty),
                    password: PasswordAuth::new(hash, options.show_stars && stdin_tty),
                    fingerprint: FingerprintAuth::new(username),
                },
            )
        },
        Err(error) => Err(Refusal::NoHash { username: lookup.username, error }),
    }
}

/// The module's answer to `pam_authenticate`: from the session as both methods
/// left it, or from the reason why neither began.
pub fn pam_sm_authenticate(run: Result<Session, Refusal>) -> (code: i32)
    ensures
        code == (match run {
            Ok(session) => answer_of(session),
            Err(refusal) => refusal_code(refusal),
        }),
        code == (match run {
            Ok(session) => if session.succeeded {
                0
            } else {
                7i32
            },
            Err(Refusal::NoUser { code }) => code,
            Err(Refusal::NoHash { .. }) => 7,
        }),
{
    match run {
        Ok(session) => session.answer(),
        Err(refusal) => refusal.code(),
    }
}

/// The module's answer to `pam_setcred`: there are no credentials to set.
pub fn pam_sm_setcred() -> (code: i32)
    ensures
        code == PAM_SUCCESS,
        code == 0,
{
    PAM_SUCCESS
}

} // verus!
