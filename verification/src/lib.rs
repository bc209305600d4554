//! Authentication and role-based access control for the finance tracker API.
//!
//! The crate issues and verifies bearer tokens, carries the verified claims
//! through a request, restricts routes by role, and maps every failure to one
//! HTTP status and response body. Each function states its behaviour in a
//! contract that Verus proves.

pub mod middleware;
pub mod modules;
pub mod utils;
