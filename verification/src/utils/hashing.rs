//! Storing and checking passwords.

use crate::errors::api_error::ApiError;
use vstd::prelude::*;

verus! {

/// Whether a password matches a stored hash: the hash is a PHC string of
/// Argon2, and hashing the password with the variant, version, parameters
/// and salt that the string records gives the output that it records. A text
/// that is no such string matches no password. This is the verdict of the
/// `argon2` crate; it is not restated here.
pub uninterp spec fn password_matches(password: Seq<char>, hash: Seq<char>) -> bool;

/// Hashes a password with a fresh random salt: `SaltString::generate` on the
/// system's random source, then `Argon2::default().hash_password`. Returns
/// the hash in PHC string form, or the hasher's description of why it
/// failed. The salt differs from call to call, and the hash with it; what
/// is claimed of every hash is that it records how it was made, so that the
/// password it was made from matches it.
#[verifier::external_body]
fn argon2_hash(password: &str) -> (hashed: Result<String, String>)
    ensures
        hashed matches Ok(hash) ==> password_matches(password@, hash@),
{
    let salt = argon2::password_hash::SaltString::generate(
        &mut argon2::password_hash::rand_core::OsRng,
    );
    argon2::PasswordHasher::hash_password(&argon2::Argon2::default(), password.as_bytes(), &salt)
        .map(|hash| hash.to_string())
        .map_err(|error| error.to_string())
}

/// Parses the hash with `PasswordHash::new` and checks the password against
/// it with `Argon2::default().verify_password`, which hashes the password
/// as the hash records and compares the outputs. The time and memory that
/// this takes are those that the hash records. A hash that does not parse
/// and a password that does not match both give `false`. The contract only
/// names the answer, which is the same whenever the two texts are.
#[verifier::external_body]
fn argon2_verify(password: &str, hash: &str) -> (ok: bool)
    ensures
        ok == password_matches(password@, hash@),
{
    match argon2::PasswordHash::new(hash) {
        Ok(parsed) => argon2::PasswordVerifier::verify_password(
            &argon2::Argon2::default(),
            password.as_bytes(),
            &parsed,
        ).is_ok(),
        Err(_) => false,
    }
}

/// Whether an outcome is one that hashing a password can have: a hash that
/// the password matches, or an `EncryptionError`.
pub open spec fn hashed_as(password: Seq<char>, hashed: Result<String, ApiError>) -> bool {
    match hashed {
        Ok(hash) => password_matches(password, hash@),
        Err(error) => error is EncryptionError,
    }
}

/// Hashes a password for storage. The hash is salted, so hashing the same
/// password twice gives two hashes; the password matches each of them. Fails
/// with `EncryptionError` if the hasher does.
pub fn encrypt_password(password: &str) -> (hashed: Result<String, ApiError>)
    ensures
        hashed_as(password@, hashed),
{
    match argon2_hash(password) {
        Ok(hash) => Ok(hash),
        Err(cause) => Err(ApiError::EncryptionError(cause)),
    }
}

/// What a check of a password answers: `Ok(true)` for a match, and
/// `WrongPassword` otherwise, whether the password is wrong or the stored
/// hash is malformed.
pub fn password_verdict(matches: bool) -> (verdict: Result<bool, ApiError>)
    ensures
        matches ==> verdict == Ok::<bool, ApiError>(true),
        !matches ==> verdict matches Err(ApiError::WrongPassword),
{
    if matches {
        Ok(true)
    } else {
        Err(ApiError::WrongPassword)
    }
}

/// Checks a password against a stored hash.
pub fn verify_password(plain_password: &str, hash: &str) -> (verdict: Result<bool, ApiError>)
    ensures
        password_matches(plain_password@, hash@) ==> verdict == Ok::<bool, ApiError>(true),
        !password_matches(plain_password@, hash@) ==> verdict matches Err(
            ApiError::WrongPassword,
        ),
{
    password_verdict(argon2_verify(plain_password, hash))
}

} // verus!
