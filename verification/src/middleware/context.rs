//! The claims of the request in flight.

use vstd::prelude::*;

use crate::utils::jwt::Claims;
use crate::utils::jwt::ClaimsView;

verus! {

/// The slot in which one request carries the claims of its caller. It
/// starts empty, is written at most once, by the authentication
/// interceptor, and is only read afterwards.
#[derive(Debug)]
pub struct ClaimsContext {
    slot: Option<Claims>,
}

impl View for ClaimsContext {
    type V = Option<ClaimsView>;

    closed spec fn view(&self) -> Option<ClaimsView> {
        match self.slot {
            Some(claims) => Some(claims@),
            None => None,
        }
    }
}

impl Clone for ClaimsContext {
    fn clone(&self) -> (copy: Self)
        ensures
            copy@ == self@,
    {
        match &self.slot {
            Some(claims) => ClaimsContext { slot: Some(claims.clone()) },
            None => ClaimsContext { slot: None },
        }
    }
}

impl ClaimsContext {
    /// The context of a request that nobody has authenticated yet.
    pub fn new() -> (context: Self)
        ensures
            context@ is None,
    {
        ClaimsContext { slot: None }
    }

    /// Attaches the claims to the request. A context is written once: it
    /// must still be empty.
    pub fn set(&mut self, claims: Claims)
        requires
            old(self)@ is None,
        ensures
            final(self)@ == Some(claims@),
    {
        self.slot = Some(claims);
    }

    /// The claims of the request, where it has been authenticated.
    pub fn get(&self) -> (claims: Option<&Claims>)
        ensures
            match claims {
                Some(found) => self@ == Some(found@),
                None => self@ is None,
            },
    {
        self.slot.as_ref()
    }
}

} // verus!
