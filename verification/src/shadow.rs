//! The shadow database and the check of a password against it.

use vstd::prelude::*;
use vstd::string::*;
use vstd::utf8::*;

use crate::text::{append_decimal, c_string, decode_lossy, same_text};
#[allow(unused_imports)]
use crate::text::{c_strings_hold_no_zero, decimal, first_nul, lossy_text, no_nul};

verus! {

/// An entry of the shadow database. C strings appear as the bytes before their
/// terminator, and a null pointer as `None`.
#[allow(non_camel_case_types)]
pub struct spwd {
    pub sp_namp: Option<Vec<u8>>,
    pub sp_pwdp: Option<Vec<u8>>,
    pub sp_lstchg: i64,
    pub sp_min: i64,
    pub sp_max: i64,
    pub sp_warn: i64,
    pub sp_inact: i64,
    pub sp_expire: i64,
    pub sp_flag: u64,
}

/// Why there is no password hash for a user.
#[derive(Debug, Clone, Copy, PartialEq, Eq, Structural)]
pub enum ShadowError {
    /// The name holds a zero byte at this position.
    NulInName { position: usize },
    /// The database has no entry for the name, or may not be read.
    NoEntry,
    /// The entry holds no hash.
    NoHash,
}

/// The words of a [`ShadowError`].
pub open spec fn shadow_error_text(error: ShadowError) -> Seq<char> {
    match error {
        ShadowError::NulInName { position } => "nul byte found in provided data at position: "@
            + decimal(position as nat),
        ShadowError::NoEntry => "User not found in shadow database or permission denied"@,
        ShadowError::NoHash => "No password hash found for user"@,
    }
}

impl ShadowError {
    /// The error in words.
    pub fn message(&self) -> (text: String)
        ensures
            text@ == shadow_error_text(*self),
            match *self {
                ShadowError::NulInName { position } => text@
                    == "nul byte found in provided data at position: "@ + decimal(position as nat),
                ShadowError::NoEntry => text@
                    == "User not found in shadow database or permission denied"@,
                ShadowError::NoHash => text@ == "No password hash found for user"@,
            },
    {
        match *self {
            ShadowError::NulInName { position } => {
                let mut text: String = "nul byte found in provided data at position: ".to_owned();
                append_decimal(&mut text, position as u64);
                text
            },
            ShadowError::NoEntry => "User not found in shadow database or permission denied".to_owned(),
            ShadowError::NoHash => "No password hash found for user".to_owned(),
        }
    }
}

/// The name under which to look a user up.
pub fn shadow_name(username: &str) -> (result: Result<Vec<u8>, ShadowError>)
    ensures
        match result {
            Ok(name) => name@ == encode_utf8(username@) && no_nul(name@),
            Err(error) => error matches ShadowError::NulInName { position } && first_nul(
                encode_utf8(username@),
                position as int,
            ),
        },
{
    match c_string(username) {
        Ok(name) => Ok(name),
        Err(position) => Err(ShadowError::NulInName { position }),
    }
}

/// The user's password hash, from the entry that the database gave for the
/// user's name.
pub fn get_shadow_hash(username: &str, entry: Option<spwd>) -> (result: Result<String, ShadowError>)
    ensures
        match result {
            Ok(hash) => {
                &&& no_nul(encode_utf8(username@))
                &&& entry is Some && entry->0.sp_pwdp is Some
                &&& hash@ == lossy_text(entry->0.sp_pwdp->0@)
                &&& valid_utf8(entry->0.sp_pwdp->0@) ==> hash@ == decode_utf8(entry->0.sp_pwdp->0@)
            },
            Err(ShadowError::NulInName { position }) => first_nul(
                encode_utf8(username@),
                position as int,
            ),
            Err(ShadowError::NoEntry) => no_nul(encode_utf8(username@)) && entry is None,
            Err(ShadowError::NoHash) => no_nul(encode_utf8(username@)) && entry is Some
                && entry->0.sp_pwdp is None,
        },
{
    match shadow_name(username) {
        Ok(_) => {},
        Err(error) => return Err(error),
    }
    match entry {
        Some(entry) => match entry.sp_pwdp {
            Some(bytes) => Ok(decode_lossy(bytes.as_slice())),
            None => Err(ShadowError::NoHash),
        },
        None => Err(ShadowError::NoEntry),
    }
}

/// The two C strings for `crypt`: the password, and the stored hash, which
/// names the method and the salt.
#[derive(Debug)]
pub struct CryptRequest {
    pub key: Vec<u8>,
    pub salt: Vec<u8>,
}

/// Both texts can be handed to `crypt`.
pub open spec fn can_crypt(password: Seq<char>, hash: Seq<char>) -> bool {
    no_nul(encode_utf8(password)) && no_nul(encode_utf8(hash))
}

/// What to hand to `crypt`, or `None` where one of the texts holds a zero byte.
pub fn crypt_request(password: &str, hash: &str) -> (request: Option<CryptRequest>)
    ensures
        request is Some <==> can_crypt(password@, hash@),
        request matches Some(request) ==> request.key@ == encode_utf8(password@)
            && request.salt@ == encode_utf8(hash@),
        request is Some <==> !encode_utf8(password@).contains(0u8) && !encode_utf8(hash@).contains(
            0u8,
        ),
{
    match (c_string(password), c_string(hash)) {
        (Ok(key), Ok(salt)) => Some(CryptRequest { key, salt }),
        _ => None,
    }
}

/// The password belongs to the hash: `crypt`, given both, came out at the hash
/// again.
pub open spec fn hash_confirms(
    password: Seq<char>,
    hash: Seq<char>,
    encrypted: Option<Seq<char>>,
) -> bool {
    can_crypt(password, hash) && encrypted == Some(hash)
}

/// Whether the password belongs to the hash, from the text that `crypt`
/// returned, if it returned any.
pub fn confirm_hash(password: &str, hash: &str, encrypted: Option<String>) -> (confirmed: bool)
    ensures
        confirmed == hash_confirms(
            password@,
            hash@,
            match encrypted {
                Some(text) => Some(text@),
                None => None,
            },
        ),
{
    match crypt_request(password, hash) {
        Some(_) => match encrypted {
            Some(text) => same_text(text.as_str(), hash),
            None => false,
        },
        None => false,
    }
}

/// The text in what `crypt` returned.
pub open spec fn reply_text(reply: Option<Vec<u8>>) -> Option<Seq<char>> {
    match reply {
        Some(bytes) => Some(lossy_text(bytes@)),
        None => None,
    }
}

/// Whether the password belongs to the hash, from the C string that `crypt`
/// returned, if it returned any.
///
/// A reply in valid UTF-8 is accepted if and only if it is the hash, byte for
/// byte.
pub fn verify_password_hash(password: &str, hash: &str, reply: Option<Vec<u8>>) -> (verified: bool)
    ensures
        verified == hash_confirms(password@, hash@, reply_text(reply)),
        reply is Some && valid_utf8(reply->0@) ==> verified == (can_crypt(password@, hash@)
            && reply->0@ == encode_utf8(hash@)),
        reply is None ==> !verified,
        encode_utf8(password@).contains(0u8) ==> !verified,
        reply is Some && valid_utf8(reply->0@) && !encode_utf8(password@).contains(0u8)
            && !encode_utf8(hash@).contains(0u8) ==> (verified <==> reply->0@ == encode_utf8(hash@)),
{
    proof {
        c_strings_hold_no_zero(encode_utf8(password@));
        c_strings_hold_no_zero(encode_utf8(hash@));
    }
    match reply {
        Some(bytes) => {
            let text: String = decode_lossy(bytes.as_slice());
            proof {
                if valid_utf8(bytes@) {
                    decode_utf8_encode_utf8(bytes@);
                }
                encode_utf8_decode_utf8(hash@);
            }
            confirm_hash(password, hash, Some(text))
        },
        None => confirm_hash(password, hash, None),
    }
}

/// The verdict on a password: where both texts can be handed to `crypt`, it is
/// right if and only if `crypt` came out at the hash, and otherwise it is
/// wrong.
pub proof fn verdict_is_equality(
    password: Seq<char>,
    hash: Seq<char>,
    encrypted: Option<Seq<char>>,
)
    ensures
        !encode_utf8(password).contains(0u8) && !encode_utf8(hash).contains(0u8) ==> (hash_confirms(
            password,
            hash,
            encrypted,
        ) <==> encrypted == Some(hash)),
        encode_utf8(password).contains(0u8) || encode_utf8(hash).contains(0u8) ==> !hash_confirms(
            password,
            hash,
            encrypted,
        ),
{
    c_strings_hold_no_zero(encode_utf8(password));
    c_strings_hold_no_zero(encode_utf8(hash));
}

/// What `crypt` returned is read as text, and nothing as nothing.
pub proof fn reply_is_read_as_text(reply: Option<Vec<u8>>)
    ensures
        reply_text(reply) is None <==> reply is None,
        reply matches Some(bytes) ==> reply_text(reply) == Some(lossy_text(bytes@)),
{
}

} // verus!
