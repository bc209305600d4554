//! What the account handlers answer.

use vstd::prelude::*;
use vstd::string::*;

use crate::middleware::context::ClaimsContext;
use crate::utils::errors::AppError;
use crate::utils::jwt::ClaimsView;
use crate::utils::response::GenericResponse;
use crate::utils::response::STATUS_OK;

verus! {

/// What a caller learns about itself.
#[derive(Debug)]
pub struct Profile {
    pub username: String,
    pub user_id: i32,
    pub role: String,
}

impl Profile {
    /// Whether the profile shows exactly what the claims say.
    pub open spec fn shows(&self, claims: ClaimsView) -> bool {
        &&& self.username@ == claims.sub
        &&& self.user_id == claims.user_id
        &&& self.role@ == claims.role
    }
}

/// Answers a request for the caller's profile from the claims in its
/// context. A request without claims is unauthorized.
pub fn get_profile(context: &ClaimsContext) -> (reply: Result<GenericResponse<Profile>, AppError>)
    ensures
        match context@ {
            Some(claims) => reply matches Ok(response) && {
                &&& response.status == STATUS_OK
                &&& response.message@ == "Profile retrieved successfully"@
                &&& response.data matches Some(profile) && profile.shows(claims)
            },
            None => reply matches Err(AppError::Unauthorized(message)) && message@
                == "Unauthorized"@,
        },
{
    match context.get() {
        Some(claims) => Ok(
            GenericResponse {
                status: STATUS_OK,
                data: Some(
                    Profile {
                        username: claims.sub.clone(),
                        user_id: claims.user_id,
                        role: claims.role.clone(),
                    },
                ),
                message: String::from_str("Profile retrieved successfully"),
            },
        ),
        None => Err(AppError::Unauthorized(String::from_str("Unauthorized"))),
    }
}

} // verus!
