//! Password hashing, the whole policy in two functions: argon2 with its
//! default parameters (argon2id), a random salt per password, and the
//! standard PHC string format for what is stored.

use vstd::prelude::*;
use argon2::{PasswordHasher, PasswordVerifier};
use crate::text::has_prefix;

verus! {

/// The error type of the `password-hash` traits that argon2 implements.
#[verifier::external_type_specification]
#[verifier::external_body]
pub struct ExPasswordHashError(argon2::password_hash::Error);

/// Whether argon2 with default parameters accepts `password` for the stored
/// PHC string `stored`: the string parses as a PHC hash, and recomputing the
/// hash of `password` with the salt and parameters it names gives the
/// output it holds.
pub uninterp spec fn argon2_accepts(stored: Seq<char>, password: Seq<char>) -> bool;

/// How every hash this library makes begins: the argon2id identifier.
pub open spec fn argon2id_prefix() -> Seq<char> {
    "$argon2id$"@
}

/// Hashes with `Argon2::default()` and a fresh random salt
/// (`PasswordHasher::hash_password`, argon2 0.6), rendered as a PHC string.
/// Claimed of an `Ok`: the string starts with `$argon2id$` (the default
/// algorithm is Argon2id, and the PHC rendering starts with `$` and the
/// algorithm's identifier), and verifying the same password against it
/// succeeds (verification recomputes the hash with the salt, version and
/// parameters the string names). The salt is random, so nothing more is
/// said of the string.
#[verifier::external_body]
fn argon2_hash(password: &str) -> (r: Result<String, argon2::password_hash::Error>)
    ensures
        r matches Ok(h) ==> has_prefix(h@, argon2id_prefix()) && argon2_accepts(h@, password@),
{
    let hashed: Result<argon2::PasswordHash, argon2::password_hash::Error> =
        argon2::Argon2::default().hash_password(password.as_bytes());
    match hashed {
        Ok(h) => Ok(h.to_string()),
        Err(e) => Err(e),
    }
}

/// Verifies a password against a stored PHC string with `Argon2::default()`
/// (`PasswordVerifier::<str>::verify_password`, argon2 0.6), true when it
/// returns `Ok`. Claimed: the answer is `argon2_accepts` of the two texts,
/// and a stored text that does not start with `$` is refused (parsing a PHC
/// string fails unless the text before its first `$` is empty and the text
/// is non-empty).
#[verifier::external_body]
fn argon2_verify(stored: &str, password: &str) -> (r: bool)
    ensures
        r == argon2_accepts(stored@, password@),
        !has_prefix(stored@, seq!['$']) ==> !r,
{
    argon2::Argon2::default().verify_password(password.as_bytes(), stored).is_ok()
}

/// Hashing failed inside argon2 (for instance, the system's random number
/// generator failed).
#[derive(Debug, PartialEq, Eq, Structural)]
pub enum AuthError {
    Hashing,
}

/// What hashing yields for each outcome of argon2: the PHC string itself
/// when argon2 produced one, `AuthError::Hashing` for any argon2 error.
pub fn hashing_outcome(hashed: Result<String, argon2::password_hash::Error>) -> (r: Result<
    String,
    AuthError,
>)
    ensures
        match hashed {
            Ok(h) => r matches Ok(s) && s@ == h@,
            Err(_) => r == Err::<String, AuthError>(AuthError::Hashing),
        },
{
    match hashed {
        Ok(h) => Ok(h),
        Err(_) => Err(AuthError::Hashing),
    }
}

/// Hashes a password for storage: argon2id with default parameters and a
/// random salt, as a PHC string. Whether argon2 succeeds depends on the
/// system's random number generator, so success is not promised; whatever
/// the salt, a hash this returns starts with `$argon2id$` and `verify`
/// accepts the same password for it, and any failure is
/// `AuthError::Hashing` (see `hashing_outcome`).
pub fn hash_password(password: &str) -> (r: Result<String, AuthError>)
    ensures
        r matches Ok(h) ==> has_prefix(h@, argon2id_prefix()) && argon2_accepts(h@, password@),
        r matches Err(e) ==> e == AuthError::Hashing,
{
    hashing_outcome(argon2_hash(password))
}

/// Whether `password` matches the stored hash. Wrong password, unknown hash
/// format, corrupted column: all the same answer, `false`.
pub fn verify(stored_hash: &str, password: &str) -> (r: bool)
    ensures
        r == argon2_accepts(stored_hash@, password@),
        !has_prefix(stored_hash@, seq!['$']) ==> !r,
{
    argon2_verify(stored_hash, password)
}

} // verus!
