//! The fixed values of the service.

use vstd::prelude::*;

verus! {

/// The path under which every route of the API lives.
pub const API_PREFIX: &'static str = "/api/v1";

pub const API_VERSION: &'static str = "v1";

/// How long a token stays valid after it was issued: 24 hours, in seconds.
pub const JWT_EXPIRY_SECONDS: usize = 24 * 3600;

/// The longest user name that the store holds.
pub const MAX_USERNAME_LENGTH: usize = 50;

/// The port the server listens on unless it is told another.
pub const PORT: u16 = 8080;

} // verus!
