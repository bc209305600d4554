//! The account record.

use vstd::prelude::*;

use crate::utils::roles::Role;

verus! {

/// An account as the store holds it.
#[derive(Debug)]
pub struct User {
    pub id: i32,
    pub username: String,
    pub email: String,
    pub password_hash: String,
    pub role: Role,
    /// When the account was made, in microseconds since the Unix epoch.
    pub created_at: i64,
    /// When the account was last changed, in microseconds since the Unix
    /// epoch.
    pub updated_at: i64,
}

} // verus!
