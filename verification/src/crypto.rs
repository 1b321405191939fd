use argon2::password_hash::rand_core::OsRng;
use argon2::password_hash::{PasswordHasher, PasswordVerifier, SaltString};
use vstd::prelude::*;

verus! {

#[verifier::external_type_specification]
#[verifier::external_body]
pub struct ExPasswordHashError(argon2::password_hash::Error);

/// What argon2 answers when `password` is checked against the PHC string
/// `hash` with `Argon2::default()`: `Some(true)` where it matches,
/// `Some(false)` where it does not, `None` where `hash` cannot be read as a
/// password hash.
pub uninterp spec fn spec_verify_password(password: Seq<char>, hash: Seq<char>) -> Option<bool>;

/// Hashes `password` with `Argon2::default()` and a fresh random salt
/// (`SaltString::generate` with `OsRng`), giving the PHC string of the hash.
///
/// The string itself depends on the salt and is not stated. What is stated is
/// what the argon2 source shows of the pair: the string it gives back is read
/// again by `PasswordHash::new` and the same password, hashed with the
/// parameters and salt written in it, gives the same output, so checking the
/// password against it answers `Some(true)`.
///
/// It also states when hashing succeeds. With the default parameters (32-byte
/// output) and a generated 16-byte salt, the only refusal in the source is
/// `Error::PwdTooLong` of `Argon2::verify_inputs`, for a password of more
/// than `MAX_PWD_LEN` (0xFFFF_FFFF) bytes; shorter passwords are hashed.
#[verifier::external_body]
fn argon2_hash_password(password: &str) -> (res: Result<String, argon2::password_hash::Error>)
    ensures
        password.len() <= 0xFFFF_FFFF ==> res is Ok,
        res matches Ok(h) ==> spec_verify_password(password@, h@) == Some(true),
{
    let salt = SaltString::generate(&mut OsRng);
    match argon2::Argon2::default().hash_password(password.as_bytes(), &salt) {
        Ok(hash) => Ok(hash.to_string()),
        Err(e) => Err(e),
    }
}

/// Reads `hash` with `argon2::PasswordHash::new` and checks `password`
/// against it with `Argon2::default().verify_password`; an error of the
/// reading is handed back, a failed check is `Ok(false)`.
///
/// The outcome is named (`spec_verify_password`), not stated: it is a function
/// of the two strings alone.
#[verifier::external_body]
fn argon2_verify_password(password: &str, hash: &str) -> (res: Result<bool, argon2::password_hash::Error>)
    ensures
        res is Ok <==> spec_verify_password(password@, hash@) is Some,
        res matches Ok(b) ==> spec_verify_password(password@, hash@) == Some(b),
{
    match argon2::PasswordHash::new(hash) {
        Ok(parsed) => Ok(argon2::Argon2::default().verify_password(password.as_bytes(), &parsed).is_ok()),
        Err(e) => Err(e),
    }
}

/// The text of an argon2 error (its `Display`). Nothing is stated of it.
#[verifier::external_body]
fn password_error_text(e: &argon2::password_hash::Error) -> String {
    e.to_string()
}

/// Hashes a password for storage. On failure the error is argon2's message.
///
/// Any password of at most 0xFFFF_FFFF bytes is hashed, and whatever hash
/// comes back, the password checks against it.
pub fn hash_password(password: &str) -> (res: Result<String, String>)
    ensures
        password.len() <= 0xFFFF_FFFF ==> res is Ok,
        res matches Ok(h) ==> spec_verify_password(password@, h@) == Some(true),
{
    match argon2_hash_password(password) {
        Ok(h) => Ok(h),
        Err(e) => Err(password_error_text(&e)),
    }
}

/// Checks `password` against a stored hash: `Ok(true)` where it matches,
/// `Ok(false)` where it does not, and argon2's message where the hash cannot
/// be read.
pub fn verify_password(password: &str, hash: &str) -> (res: Result<bool, String>)
    ensures
        res is Ok <==> spec_verify_password(password@, hash@) is Some,
        res matches Ok(b) ==> spec_verify_password(password@, hash@) == Some(b),
{
    match argon2_verify_password(password, hash) {
        Ok(b) => Ok(b),
        Err(e) => Err(password_error_text(&e)),
    }
}

} // verus!
