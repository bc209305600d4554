//! The interceptors that stand between a request and its handler.

pub mod context;
pub mod jwt;
pub mod rbac;
pub mod route;
pub mod stage;
