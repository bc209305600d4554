//! Building blocks shared by the interceptors and the request handlers.

pub mod bcrypt;
pub mod constants;
pub mod errors;
pub mod hs256;
pub mod jwt;
pub mod not_found;
pub mod response;
pub mod roles;
pub mod text;
