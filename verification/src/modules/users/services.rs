//! The decisions of registration and login. The store is asked by the
//! caller; what it answered comes in as a value.

use vstd::prelude::*;
use vstd::string::*;

use crate::modules::users::models::User;
use crate::utils::bcrypt::hash_password;
use crate::utils::bcrypt::password_check;
use crate::utils::bcrypt::verify_password;
use crate::utils::bcrypt::PasswordError;
use crate::utils::constants::JWT_EXPIRY_SECONDS;
use crate::utils::errors::AppError;
use crate::utils::errors::DatabaseError;
use crate::utils::jwt::generate_token;
use crate::utils::jwt::issued;
use crate::utils::jwt::still_valid;
use crate::utils::jwt::verified;
use crate::utils::jwt::Claims;
use crate::utils::jwt::ClaimsView;
use crate::utils::jwt::TokenError;
use crate::utils::roles::Role;
use crate::utils::text::same_text;

verus! {

/// What registration hands to the store once it has decided to go on.
#[derive(Debug)]
pub struct NewUser {
    pub password_hash: String,
    /// The name of the role that the account gets.
    pub role: String,
}

/// The claims of a token issued to `user` at the second `now`: the
/// account's own name, id and role, and an expiry one validity window
/// ahead.
pub open spec fn login_claims(user: User, now: int) -> ClaimsView {
    ClaimsView {
        sub: user.username@,
        user_id: user.id as int,
        role: user.role.name(),
        exp: now + JWT_EXPIRY_SECONDS,
    }
}

/// Whether `error` is an internal failure with this message.
pub open spec fn is_internal(error: AppError, message: Seq<char>) -> bool {
    error matches AppError::InternalServerError(text) && text@ == message
}

/// Whether `error` reports wrong credentials with this message.
pub open spec fn is_invalid_credentials(error: AppError, message: Seq<char>) -> bool {
    error matches AppError::InvalidCredentials(text) && text@ == message
}

/// Says which of the two unique fields an existing account shares with a
/// registration: the user name where the names are equal, else the e-mail
/// address. `existing` is the name of an account that has the same name or
/// the same address, where the store found one.
pub fn check_user_exists(existing: Option<&str>, username: &str) -> (message: Option<String>)
    ensures
        match existing {
            None => message is None,
            Some(found) => message matches Some(text) && text@ == if found@ == username@ {
                "Username is already taken"@
            } else {
                "Email is already taken"@
            },
        },
{
    match existing {
        None => None,
        Some(found) => if same_text(found, username) {
            Some(String::from_str("Username is already taken"))
        } else {
            Some(String::from_str("Email is already taken"))
        },
    }
}

/// The failure that a password which could not be hashed or checked
/// becomes.
pub fn password_failure(error: PasswordError) -> (failure: AppError)
    ensures
        is_internal(failure, "Password hashing error: "@ + error.reason@),
{
    AppError::InternalServerError(
        String::from_str("Password hashing error: ").concat(error.reason.as_str()),
    )
}

/// The name of the role that a new account gets: the role asked for, or
/// `USER` where none was.
pub open spec fn granted_role(asked: Option<&Role>) -> Seq<char> {
    match asked {
        Some(role) => role.name(),
        None => Role::USER.name(),
    }
}

/// What registration hands to the store once the password has or has not
/// been hashed: the hash and the role's name, or an internal failure.
pub fn new_account(hash: Result<String, PasswordError>, role: Option<&Role>) -> (decision: Result<
    NewUser,
    AppError,
>)
    ensures
        match hash {
            Ok(text) => decision matches Ok(account) && account.password_hash == text
                && account.role@ == granted_role(role),
            Err(failure) => decision matches Err(error) && is_internal(
                error,
                "Password hashing error: "@ + failure.reason@,
            ),
        },
{
    let password_hash = match hash {
        Ok(text) => text,
        Err(failure) => return Err(password_failure(failure)),
    };
    let role = match role {
        Some(asked) => asked.as_str(),
        None => Role::USER.as_str(),
    };
    Ok(NewUser { password_hash, role: String::from_str(role) })
}

/// Decides a registration once the store has been asked for an account
/// with the same name or address. `conflict` is the message about such an
/// account, where there is one: then the registration ends with it.
/// Otherwise the password is hashed, and the account gets the role asked
/// for, or `USER` where none was.
pub fn register_new_user(conflict: Option<String>, password: &str, role: Option<&Role>) -> (decision:
    Result<NewUser, AppError>)
    ensures
        match conflict {
            Some(message) => decision matches Err(AppError::ResourceExists(text)) && text
                == message,
            None => match decision {
                Ok(account) => password_check(password@, account.password_hash@) == Some(true)
                    && account.role@ == granted_role(role),
                Err(error) => error is InternalServerError,
            },
        },
{
    if let Some(message) = conflict {
        return Err(AppError::ResourceExists(message));
    }
    new_account(hash_password(password), role)
}

/// What the store's answer to an insert or a lookup becomes: the record,
/// or the store's failure as a failure of the service.
pub fn stored<T>(answer: Result<T, DatabaseError>) -> (outcome: Result<T, AppError>)
    ensures
        match answer {
            Ok(record) => outcome matches Ok(kept) && kept == record,
            Err(failure) => outcome matches Err(AppError::Database(kept)) && kept == failure,
        },
{
    match answer {
        Ok(record) => Ok(record),
        Err(failure) => Err(AppError::Database(failure)),
    }
}

/// Makes the claims of a token for `user`, issued at the second `now`.
pub fn claims_for(user: &User, now: usize) -> (claims: Claims)
    requires
        now + JWT_EXPIRY_SECONDS <= usize::MAX,
    ensures
        claims@ == login_claims(*user, now as int),
{
    Claims {
        sub: user.username.clone(),
        user_id: user.id,
        role: String::from_str(user.role.as_str()),
        exp: now + JWT_EXPIRY_SECONDS,
    }
}

/// What login answers once the token has or has not been issued.
pub fn login_reply(token: Result<String, TokenError>) -> (reply: Result<String, AppError>)
    ensures
        match token {
            Ok(text) => reply matches Ok(kept) && kept == text,
            Err(_) => reply matches Err(error) && is_internal(
                error,
                "Failed to generate authentication token"@,
            ),
        },
{
    match token {
        Ok(text) => Ok(text),
        Err(_) => Err(
            AppError::InternalServerError(
                String::from_str("Failed to generate authentication token"),
            ),
        ),
    }
}

/// What login makes of the password check: a wrong password ends it, a
/// check that failed is an internal failure, and a right password lets it
/// go on.
pub fn password_verdict(matched: Result<bool, PasswordError>) -> (verdict: Result<(), AppError>)
    ensures
        match matched {
            Ok(true) => verdict is Ok,
            Ok(false) => verdict matches Err(error) && is_invalid_credentials(
                error,
                "Invalid password"@,
            ),
            Err(failure) => verdict matches Err(error) && is_internal(
                error,
                "Password hashing error: "@ + failure.reason@,
            ),
        },
{
    match matched {
        Ok(true) => Ok(()),
        Ok(false) => Err(AppError::InvalidCredentials(String::from_str("Invalid password"))),
        Err(failure) => Err(password_failure(failure)),
    }
}

/// Logs a user in at the second `now`. `lookup` is what the store answered
/// when asked for the account of that name. A failure of the store is
/// passed on; an unknown user and a wrong password are rejected; a user
/// with the right password gets a token that carries the account's name,
/// id and role. That token verifies, under the same secret, at every
/// second before `now + JWT_EXPIRY_SECONDS`, and is expired from that
/// second on.
pub fn login_user(
    lookup: Result<Option<User>, DatabaseError>,
    password: &str,
    now: usize,
    secret: &[u8],
) -> (reply: Result<String, AppError>)
    requires
        now + JWT_EXPIRY_SECONDS <= usize::MAX,
    ensures
        match lookup {
            Err(failure) => reply matches Err(AppError::Database(kept)) && kept == failure,
            Ok(None) => reply matches Err(error) && is_invalid_credentials(
                error,
                "User not found"@,
            ),
            Ok(Some(user)) => match password_check(password@, user.password_hash@) {
                None => reply matches Err(error) && error is InternalServerError,
                Some(false) => reply matches Err(error) && is_invalid_credentials(
                    error,
                    "Invalid password"@,
                ),
                Some(true) => match issued(login_claims(user, now as int), secret@) {
                    Ok(token) => reply matches Ok(text) && text@ == token,
                    Err(_) => reply matches Err(error) && is_internal(
                        error,
                        "Failed to generate authentication token"@,
                    ),
                },
            },
        },
        reply matches Ok(text) ==> lookup matches Ok(Some(user)) && forall|at: int| #[trigger]
            verified(text@, secret@, at) == still_valid(login_claims(user, now as int), at),
{
    let user = match stored(lookup) {
        Ok(Some(user)) => user,
        Ok(None) => return Err(AppError::InvalidCredentials(String::from_str("User not found"))),
        Err(error) => return Err(error),
    };
    match password_verdict(verify_password(password, user.password_hash.as_str())) {
        Ok(()) => {},
        Err(error) => return Err(error),
    }
    let claims = claims_for(&user, now);
    login_reply(generate_token(&claims, secret))
}

} // verus!
