//! Transactions of the authenticated caller.

pub mod routes;
