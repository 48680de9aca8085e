//! Password checking for the admin plane. The stored credential is a
//! bcrypt hash; every admin request is verified against it afresh.

use vstd::prelude::*;

use crate::text::{trim_blank, trimmed};

verus! {

#[verifier::external_type_specification]
#[verifier::external_body]
pub struct ExBcryptError(bcrypt::BcryptError);

/// The outcome bcrypt assigns to a password and a stored hash: `Some(b)`
/// when the hash parses and the comparison yields `b`, `None` when the
/// stored hash is malformed. A fixed function of the two strings.
pub uninterp spec fn bcrypt_check(password: Seq<char>, hash: Seq<char>) -> Option<bool>;

/// Relies on bcrypt::verify: deterministic in the password and the hash.
#[verifier::external_body]
fn bcrypt_verify(password: &str, hash: &str) -> (r: Result<bool, bcrypt::BcryptError>)
    ensures
        r matches Ok(b) ==> bcrypt_check(password@, hash@) == Some(b),
        r is Err ==> bcrypt_check(password@, hash@) is None,
{
    bcrypt::verify(password, hash)
}

/// Relies on bcrypt::hash with the default cost, together with
/// bcrypt::verify: the produced hash is accepted for the same password.
#[verifier::external_body]
fn bcrypt_hash(password: &str) -> (r: Result<String, bcrypt::BcryptError>)
    ensures
        r matches Ok(h) ==> bcrypt_check(password@, h@) == Some(true),
{
    bcrypt::hash(password, bcrypt::DEFAULT_COST)
}

/// Checking a password failed outright: the stored hash is not a bcrypt
/// hash.
#[derive(Debug)]
pub enum PassError {
    BadStoredHash,
}

/// Whether the given password matches the stored bcrypt hash; both are
/// compared with surrounding whitespace removed.
pub fn is_correct_password(given_password: String, hashed_password: String) -> (r: Result<
    bool,
    PassError,
>)
    ensures
        r matches Ok(b) ==> bcrypt_check(trimmed(given_password@), trimmed(hashed_password@))
            == Some(b),
        r is Err ==> bcrypt_check(trimmed(given_password@), trimmed(hashed_password@)) is None,
{
    let p = trim_blank(&given_password);
    let h = trim_blank(&hashed_password);
    match bcrypt_verify(p.as_str(), h.as_str()) {
        Ok(b) => Ok(b),
        Err(_) => Err(PassError::BadStoredHash),
    }
}

/// A bcrypt hash for the password, accepted later by
/// `is_correct_password` for the same password.
pub fn hash_password(password: &String) -> (r: Result<String, PassError>)
    ensures
        r matches Ok(h) ==> bcrypt_check(password@, h@) == Some(true),
{
    match bcrypt_hash(password.as_str()) {
        Ok(h) => Ok(h),
        Err(_) => Err(PassError::BadStoredHash),
    }
}

} // verus!
