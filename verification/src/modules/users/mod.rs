//! Accounts: registration, login and the caller's own profile.

pub mod dtos;
pub mod models;
pub mod routes;
pub mod services;
