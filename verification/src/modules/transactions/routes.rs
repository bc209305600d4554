//! What the transaction handlers decide before they ask the store.

use vstd::prelude::*;
use vstd::string::*;

use crate::middleware::context::ClaimsContext;
use crate::utils::errors::AppError;
use crate::utils::jwt::Claims;

verus! {

/// The claims of the caller of a transaction route. These routes stand
/// behind authentication, so a request without claims shows a fault in the
/// wiring and is answered as an internal failure.
pub fn caller_claims(context: &ClaimsContext) -> (claims: Result<Claims, AppError>)
    ensures
        match context@ {
            Some(view) => claims matches Ok(found) && found@ == view,
            None => claims matches Err(AppError::InternalServerError(message)) && message@
                == "Authentication state error"@,
        },
{
    match context.get() {
        Some(found) => Ok(found.clone()),
        None => Err(AppError::InternalServerError(String::from_str("Authentication state error"))),
    }
}

} // verus!
