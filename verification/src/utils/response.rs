//! The envelope of every response body.

use vstd::prelude::*;

verus! {

pub const STATUS_OK: u16 = 200;

pub const STATUS_CREATED: u16 = 201;

pub const STATUS_BAD_REQUEST: u16 = 400;

pub const STATUS_UNAUTHORIZED: u16 = 401;

pub const STATUS_FORBIDDEN: u16 = 403;

pub const STATUS_NOT_FOUND: u16 = 404;

pub const STATUS_CONFLICT: u16 = 409;

pub const STATUS_INTERNAL_SERVER_ERROR: u16 = 500;

/// What the client receives: the HTTP status repeated in the body, an
/// optional payload and a message.
#[derive(Debug)]
pub struct GenericResponse<T> {
    pub status: u16,
    pub data: Option<T>,
    pub message: String,
}

impl<T> GenericResponse<T> {
    /// Whether the response carries no payload and has the given status
    /// and message.
    pub open spec fn is_plain(&self, status: u16, message: Seq<char>) -> bool {
        &&& self.status == status
        &&& self.data is None
        &&& self.message@ == message
    }
}

} // verus!
