//! Password credentials: salted one-way hashing, and checking a password
//! against a stored hash.

use crate::services::error::AppError;
use vstd::prelude::*;
use vstd::utf8::encode_utf8;

verus! {

/// The longest password that can be hashed, in bytes of UTF-8: the hash
/// function takes a 32-bit length.
pub const MAX_PASSWORD_BYTES: usize = 0xffff_ffff;

/// A password that is short enough to be hashed.
pub open spec fn hashable(password: Seq<char>) -> bool {
    encode_utf8(password).len() <= MAX_PASSWORD_BYTES
}

/// Whether the Argon2 password hash string `stored` parses and its digest is
/// the one that `password` gives under the parameters and salt it names.
pub uninterp spec fn argon2_accepts(stored: Seq<char>, password: Seq<char>) -> bool;

/// What checking `password` against `stored` gives.
pub open spec fn spec_verify_password(stored: Seq<char>, password: Seq<char>) -> Result<
    bool,
    AppError,
> {
    if argon2_accepts(stored, password) {
        Ok(true)
    } else {
        Err(AppError::AuthenticationFailed)
    }
}

/// Draws a salt with `SaltString::generate` from the system's random source
/// and calls `Argon2::default().hash_password`. Trusted: whatever the salt,
/// the hash string that comes back is one that the same password is accepted
/// against.
#[verifier::external_body]
fn argon2_hash(password: &str) -> (r: String)
    requires
        hashable(password@),
    ensures
        argon2_accepts(r@, password@),
{
    let salt = argon2::password_hash::SaltString::generate(
        &mut argon2::password_hash::rand_core::OsRng,
    );
    let hasher = argon2::Argon2::default();
    argon2::PasswordHasher::hash_password(&hasher, password.as_bytes(), &salt).unwrap().to_string()
}

/// Parses `stored` with `PasswordHash::new` and calls
/// `Argon2::default().verify_password`. Trusted: the answer is a function of
/// the two strings alone; a hash string that does not parse is not accepted.
#[verifier::external_body]
fn argon2_verify(stored: &str, password: &str) -> (r: bool)
    ensures
        r == argon2_accepts(stored@, password@),
{
    match argon2::PasswordHash::new(stored) {
        Ok(parsed) => argon2::PasswordVerifier::verify_password(
            &argon2::Argon2::default(),
            password.as_bytes(),
            &parsed,
        ).is_ok(),
        Err(_) => false,
    }
}

/// Whether `password` is short enough to be hashed.
pub fn can_hash(password: &str) -> (r: bool)
    ensures
        r == hashable(password@),
{
    password.as_bytes().len() <= MAX_PASSWORD_BYTES
}

/// A salted one-way hash of `password`, as a self-describing string. The
/// same password checks against it.
pub fn hash_password(password: String) -> (r: String)
    requires
        hashable(password@),
    ensures
        spec_verify_password(r@, password@) == Ok::<bool, AppError>(true),
{
    argon2_hash(password.as_str())
}

/// The result of a check, from whether the hash accepted the password.
pub fn accepted_or_failed(accepted: bool) -> (r: Result<bool, AppError>)
    ensures
        r == if accepted {
            Ok::<bool, AppError>(true)
        } else {
            Err::<bool, AppError>(AppError::AuthenticationFailed)
        },
{
    if accepted {
        Ok(true)
    } else {
        Err(AppError::AuthenticationFailed)
    }
}

/// Checks `password` against `stored_hash`: `Ok(true)` where it is accepted,
/// `AuthenticationFailed` on a mismatch or a malformed hash.
pub fn verify_password(stored_hash: &str, password: String) -> (r: Result<bool, AppError>)
    ensures
        r == spec_verify_password(stored_hash@, password@),
{
    accepted_or_failed(argon2_verify(stored_hash, password.as_str()))
}

/// A password checks against every hash string that accepts it, and so
/// against the hash that `hash_password` made of it.
pub proof fn accepted_password_verifies(stored: Seq<char>, password: Seq<char>)
    requires
        argon2_accepts(stored, password),
    ensures
        spec_verify_password(stored, password) == Ok::<bool, AppError>(true),
{
}

/// A password that a hash string does not accept is refused with
/// `AuthenticationFailed`: the check never gives `Ok(false)` and no other
/// error.
pub proof fn refused_password_fails(stored: Seq<char>, password: Seq<char>)
    requires
        !argon2_accepts(stored, password),
    ensures
        spec_verify_password(stored, password) == Err::<bool, AppError>(
            AppError::AuthenticationFailed,
        ),
{
}

} // verus!
