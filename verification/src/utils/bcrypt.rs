//! Password hashes, made and checked by the `bcrypt` crate.

use vstd::prelude::*;

verus! {

/// Declares `bcrypt::BcryptError`, the error of the hashing library, as a
/// type whose values are only passed on: nothing is said of what one
/// holds.
#[verifier::external_type_specification]
#[verifier::external_body]
pub struct ExBcryptError(::bcrypt::BcryptError);

/// Why a password could not be hashed or checked.
#[derive(Debug)]
pub struct PasswordError {
    /// The failure in the hashing library's words.
    pub reason: String,
}

/// What `bcrypt::verify` makes of a password and a hash: whether the hash
/// is one of the password, and nothing where the hash cannot be read.
pub uninterp spec fn password_check(password: Seq<char>, hash: Seq<char>) -> Option<bool>;

/// Calls `bcrypt::hash` at the default cost. The salt is random, so equal
/// passwords give different hashes; whatever the hash, `bcrypt::verify`
/// accepts the password against it.
#[verifier::external_body]
fn bcrypt_hash(password: &str) -> (hash: Result<String, ::bcrypt::BcryptError>)
    ensures
        hash matches Ok(text) ==> password_check(password@, text@) == Some(true),
{
    ::bcrypt::hash(password, ::bcrypt::DEFAULT_COST)
}

/// Calls `bcrypt::verify`, whose result is a function of password and
/// hash and is named `password_check`.
#[verifier::external_body]
fn bcrypt_verify(password: &str, hash: &str) -> (matched: Result<bool, ::bcrypt::BcryptError>)
    ensures
        match matched {
            Ok(answer) => password_check(password@, hash@) == Some(answer),
            Err(_) => password_check(password@, hash@) is None,
        },
{
    ::bcrypt::verify(password, hash)
}

/// Renders a `BcryptError` with its `Display`.
#[verifier::external_body]
fn bcrypt_error_text(error: &::bcrypt::BcryptError) -> (text: String) {
    error.to_string()
}

/// Hashes a password for storage. The hash differs from call to call; each
/// one verifies against the password it was made from.
pub fn hash_password(password: &str) -> (hash: Result<String, PasswordError>)
    ensures
        hash matches Ok(text) ==> password_check(password@, text@) == Some(true),
{
    password_outcome(bcrypt_hash(password))
}

/// Checks a password against a stored hash: `Ok(true)` where it is a hash
/// of the password, `Ok(false)` where it is a hash of another, and an
/// error where it is no hash at all.
pub fn verify_password(password: &str, hash: &str) -> (matched: Result<bool, PasswordError>)
    ensures
        match password_check(password@, hash@) {
            Some(answer) => matched matches Ok(found) && found == answer,
            None => matched is Err,
        },
{
    password_outcome(bcrypt_verify(password, hash))
}

/// What an answer of the hashing library becomes: a value is handed on as
/// it is, and an error becomes a `PasswordError` that holds the error in
/// the library's words.
pub fn password_outcome<T>(answer: Result<T, ::bcrypt::BcryptError>) -> (outcome: Result<
    T,
    PasswordError,
>)
    ensures
        match answer {
            Ok(value) => outcome matches Ok(kept) && kept == value,
            Err(_) => outcome is Err,
        },
{
    match answer {
        Ok(value) => Ok(value),
        Err(error) => Err(PasswordError { reason: bcrypt_error_text(&error) }),
    }
}

} // verus!
