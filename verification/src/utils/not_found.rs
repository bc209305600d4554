//! The answer to a request that no route takes.

use vstd::prelude::*;
use vstd::string::*;

use crate::utils::response::GenericResponse;
use crate::utils::response::STATUS_NOT_FOUND;

verus! {

/// The response to a request for a path that the service does not know.
pub fn not_found() -> (response: GenericResponse<String>)
    ensures
        response.is_plain(STATUS_NOT_FOUND, "The requested resource was not found"@),
{
    GenericResponse {
        status: STATUS_NOT_FOUND,
        data: None,
        message: String::from_str("The requested resource was not found"),
    }
}

} // verus!
