//! What the stages that a request passes hand to one another.

use vstd::prelude::*;

use crate::utils::response::GenericResponse;

verus! {

/// What an interceptor decides about a request.
#[derive(Debug)]
pub enum Flow {
    /// The request goes on to the next stage.
    Continue,
    /// The request ends here, with this response; no later stage sees it.
    ShortCircuit(GenericResponse<String>),
}

impl Flow {
    /// Whether two decisions are the same: both let the request go on, or
    /// both end it with the same status, payload and message.
    pub open spec fn same_decision(&self, other: Flow) -> bool {
        match (*self, other) {
            (Flow::Continue, Flow::Continue) => true,
            (Flow::ShortCircuit(mine), Flow::ShortCircuit(theirs)) => {
                &&& mine.status == theirs.status
                &&& mine.message@ == theirs.message@
                &&& match (mine.data, theirs.data) {
                    (Some(left), Some(right)) => left@ == right@,
                    (None, None) => true,
                    _ => false,
                }
            },
            _ => false,
        }
    }
}

} // verus!
