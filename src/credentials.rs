use vstd::prelude::*;

use argon2::password_hash::{PasswordHasher, PasswordVerifier, SaltString};

use vstd::utf8::encode_utf8;

use crate::errors::AppError;

verus! {

/// `hash` is a PHC string that password_hash::PasswordHash::new accepts.
pub uninterp spec fn phc_parses(hash: Seq<char>) -> bool;

/// Argon2 recomputed over `password` with the algorithm, salt and parameters named
/// in the PHC string `hash` gives the output that `hash` holds.
pub uninterp spec fn argon2_accepts(password: Seq<char>, hash: Seq<char>) -> bool;

/// Argon2 takes passwords of at most 0xFFFFFFFF bytes.
pub open spec fn hashable(password: Seq<char>) -> bool {
    encode_utf8(password).len() <= 0xFFFF_FFFF
}

/// Relies on password_hash::SaltString::generate over the operating system's random
/// source (16 random bytes) and on argon2's PasswordHasher::hash_password with
/// Argon2::default() (Argon2id, version 19, default parameters). Hashing fails only
/// for a password over 0xFFFFFFFF bytes or a salt under 8 bytes, and the salt here has
/// 16. The PHC string it prints parses with PasswordHash::new, and
/// PasswordVerifier::verify_password accepts the same password against it.
#[verifier::external_body]
fn argon2_hash(password: &str) -> (r: Option<String>)
    ensures
        hashable(password@) ==> r is Some,
        r matches Some(h) ==> phc_parses(h@) && argon2_accepts(password@, h@),
{
    let salt = SaltString::generate(&mut argon2::password_hash::rand_core::OsRng);
    argon2::Argon2::default().hash_password(password.as_bytes(), &salt).ok().map(|h| h.to_string())
}

/// Relies on password_hash::PasswordHash::new, which parses the PHC string, and on
/// argon2's PasswordVerifier::verify_password, which recomputes the hash of
/// `password` with what the string names and compares the outputs.
#[verifier::external_body]
fn argon2_verify(password: &str, hash: &str) -> (r: Option<bool>)
    ensures
        r == password_verdict(password@, hash@),
{
    let parsed = argon2::password_hash::PasswordHash::new(hash).ok()?;
    Some(argon2::Argon2::default().verify_password(password.as_bytes(), &parsed).is_ok())
}

/// What checking `password` against a stored `hash` finds: `None` when the stored
/// string is no PHC string at all.
pub open spec fn password_verdict(password: Seq<char>, hash: Seq<char>) -> Option<bool> {
    if phc_parses(hash) {
        Some(argon2_accepts(password, hash))
    } else {
        None
    }
}

/// `hash` is a well-formed hash under which `password` verifies.
pub open spec fn hashes_password(password: Seq<char>, hash: Seq<char>) -> bool {
    phc_parses(hash) && argon2_accepts(password, hash)
}

/// Hashes a password with Argon2id under a fresh random salt; the salt and the
/// parameters are kept in the returned PHC string.
pub fn hash_password(password: &str) -> (r: Result<String, AppError>)
    ensures
        r matches Ok(h) ==> hashes_password(password@, h@),
        hashable(password@) ==> r is Ok,
        r is Err ==> r matches Err(AppError::Internal(_)),
{
    match argon2_hash(password) {
        Some(h) => Ok(h),
        None => Err(AppError::Internal(String::from_str("failed to hash password"))),
    }
}

/// Checks `password` against a stored hash. A wrong password is `Ok(false)`; a stored
/// string that is no PHC string is an internal error.
pub fn verify_password(password: &str, hash: &str) -> (r: Result<bool, AppError>)
    ensures
        match password_verdict(password@, hash@) {
            Some(ok) => r == Ok::<bool, AppError>(ok),
            None => r matches Err(AppError::Internal(_)),
        },
{
    match argon2_verify(password, hash) {
        Some(ok) => Ok(ok),
        None => Err(AppError::Internal(String::from_str("invalid password hash"))),
    }
}

/// A hash made for a password verifies that password.
pub proof fn lemma_hash_verifies(password: Seq<char>, hash: Seq<char>)
    requires
        hashes_password(password, hash),
    ensures
        password_verdict(password, hash) == Some(true),
{
}

} // verus!
