//! Password hashing with bcrypt: making the hash stored at registration and
//! checking a password against it at login.

use vstd::prelude::*;
use crate::error::{AppError, ErrorKind};
use crate::utils::decimal_padded;

verus! {

#[verifier::external_type_specification]
#[verifier::external_body]
pub struct ExBcryptError(bcrypt::BcryptError);

/// What `bcrypt::verify` answers for `password` and the hash text `hash`:
/// `Some(b)` when `hash` is a bcrypt hash that can be checked, `b` telling
/// whether the password matches it, and `None` when it cannot be checked.
pub uninterp spec fn bcrypt_check(password: Seq<char>, hash: Seq<char>) -> Option<bool>;

/// The work factor of the stored hashes (bcrypt's default cost).
pub const PASSWORD_COST: u32 = 12;

/// `bcrypt::hash`: a hash of `password` with a random salt at the given
/// cost.  A cost outside 4 to 31 is refused.  A hash that is made is the
/// 60-character text `$2b$`, the cost in two digits, `$`, salt and digest,
/// and `bcrypt::verify` accepts `password` against it.  Which salt is drawn
/// is chance and is not stated.
#[verifier::external_body]
fn bcrypt_hash(password: &str, cost: u32) -> (r: Result<String, bcrypt::BcryptError>)
    ensures
        !(4 <= cost <= 31) ==> r is Err,
        r matches Ok(h) ==> {
            &&& h@.len() == 60
            &&& h@.subrange(0, 7) == "$2b$"@ + decimal_padded(cost as nat, 2) + "$"@
            &&& bcrypt_check(password@, h@) == Some(true)
        },
{
    bcrypt::hash(password, cost)
}

/// `bcrypt::verify`: whether `password` matches the hash text `hash`, or an
/// error when `hash` cannot be checked.
#[verifier::external_body]
fn bcrypt_verify(password: &str, hash: &str) -> (r: Result<bool, bcrypt::BcryptError>)
    ensures
        match r {
            Ok(b) => bcrypt_check(password@, hash@) == Some(b),
            Err(_) => bcrypt_check(password@, hash@) is None,
        },
{
    bcrypt::verify(password, hash)
}

/// Whether `hash` is a stored hash made from `password`: a 60-character
/// bcrypt hash of cost 12 against which `password` is accepted.
pub open spec fn is_hash_of(password: Seq<char>, hash: Seq<char>) -> bool {
    &&& hash.len() == 60
    &&& hash.subrange(0, 7) == "$2b$12$"@
    &&& bcrypt_check(password, hash) == Some(true)
}

/// The message of the error when a password cannot be hashed.
pub open spec fn hash_failed_message() -> Seq<char> {
    "Failed to hash password"@
}

/// The message of the error when a stored hash cannot be checked.
pub open spec fn verify_failed_message() -> Seq<char> {
    "Failed to verify password"@
}

/// Hashes a password for storage.
pub fn hash_password(password: &str) -> (r: Result<String, AppError>)
    ensures
        match r {
            Ok(h) => is_hash_of(password@, h@),
            Err(e) => e.is(ErrorKind::Internal, hash_failed_message()),
        },
{
    match bcrypt_hash(password, PASSWORD_COST) {
        Ok(h) => {
            proof {
                reveal_strlit("$2b$");
                reveal_strlit("$");
                reveal_strlit("$2b$12$");
                assert(decimal_padded(1, 1) == seq!['1']);
                assert(decimal_padded(12, 2) == decimal_padded(1, 1).push('2'));
                assert(h@.subrange(0, 7) =~= "$2b$12$"@);
            }
            Ok(h)
        },
        Err(_) => Err(AppError::new(ErrorKind::Internal, "Failed to hash password")),
    }
}

/// Checks a password against a stored hash: whether it matches, or an
/// internal error when the stored hash cannot be checked.
pub fn verify_password(password: &str, hash: &str) -> (r: Result<bool, AppError>)
    ensures
        match bcrypt_check(password@, hash@) {
            Some(b) => r == Ok::<bool, AppError>(b),
            None => r matches Err(e) && e.is(ErrorKind::Internal, verify_failed_message()),
        },
{
    match bcrypt_verify(password, hash) {
        Ok(b) => Ok(b),
        Err(_) => Err(AppError::new(ErrorKind::Internal, "Failed to verify password")),
    }
}

} // verus!
