//! What the request handlers decide, apart from the store they talk to.

pub mod transactions;
pub mod users;
