//! A protected route: the interceptors in their order, and the handler
//! behind them.

use vstd::prelude::*;

use crate::middleware::context::ClaimsContext;
use crate::middleware::jwt::authenticated;
use crate::middleware::jwt::header_view;
use crate::middleware::jwt::AuthFailure;
use crate::middleware::jwt::JwtMiddlewareService;
use crate::middleware::rbac::authorized;
use crate::middleware::rbac::Denial;
use crate::middleware::rbac::RbacMiddlewareService;
use crate::middleware::stage::Flow;
use crate::utils::jwt::ClaimsView;
use crate::utils::response::GenericResponse;
use crate::utils::response::STATUS_UNAUTHORIZED;
use crate::utils::roles::Role;

verus! {

/// A route that only authenticated callers reach. Authentication runs
/// first; a route that declares allowed roles has the role guard behind it,
/// and a route that declares none has no guard at all.
pub struct ProtectedRoute {
    authentication: JwtMiddlewareService,
    guard: Option<RbacMiddlewareService>,
}

/// What a request to a protected route ends in.
#[derive(Debug)]
pub enum Served<R> {
    /// The handler ran, and this is what it returned.
    Handled(R),
    /// An interceptor ended the request, and the handler did not run.
    Refused(GenericResponse<String>),
}

/// The interceptor that ended a request, and why.
pub enum Refusal {
    /// Authentication did.
    Authentication(AuthFailure),
    /// The role guard did; `allowed` are the roles it lets pass.
    Authorization { denial: Denial, allowed: Seq<Role> },
}

/// What the interceptors of a route decide together: the claims of the
/// caller where the request reaches the handler, else the first refusal.
pub open spec fn screened(
    secret: Seq<u8>,
    allowed: Option<Seq<Role>>,
    authorization: Option<Seq<char>>,
    now: int,
) -> Result<ClaimsView, Refusal> {
    match authenticated(authorization, secret, now) {
        Err(failure) => Err(Refusal::Authentication(failure)),
        Ok(claims) => match allowed {
            None => Ok(claims),
            Some(roles) => match authorized(roles, Some(claims)) {
                Ok(_) => Ok(claims),
                Err(denial) => Err(Refusal::Authorization { denial, allowed: roles }),
            },
        },
    }
}

impl Refusal {
    /// The HTTP status of the refusal.
    pub open spec fn status(&self) -> u16 {
        match self {
            Refusal::Authentication(_) => STATUS_UNAUTHORIZED,
            Refusal::Authorization { denial, .. } => denial.status(),
        }
    }

    /// What the client is told.
    pub open spec fn message(&self) -> Seq<char> {
        match self {
            Refusal::Authentication(failure) => failure.message(),
            Refusal::Authorization { denial, allowed } => denial.message(*allowed),
        }
    }
}

impl ProtectedRoute {
    /// The secret under which the route's tokens verify.
    pub closed spec fn secret(&self) -> Seq<u8> {
        self.authentication.secret()
    }

    /// The roles that the route allows, where it declares any.
    pub closed spec fn allowed(&self) -> Option<Seq<Role>> {
        match self.guard {
            Some(guard) => Some(guard.allowed()),
            None => None,
        }
    }

    /// Wires a route: authentication, and the role guard if there is one.
    pub fn new(authentication: JwtMiddlewareService, guard: Option<RbacMiddlewareService>) -> (route:
        Self)
        ensures
            route.secret() == authentication.secret(),
            route.allowed() == match guard {
                Some(guard) => Some(guard.allowed()),
                None => None,
            },
    {
        ProtectedRoute { authentication, guard }
    }

    /// Runs the interceptors on a request, in their order. The request
    /// comes out with its claims in the context, or with the response of
    /// the first interceptor that ended it.
    pub fn screen(&self, authorization: Option<&str>, now: usize) -> (outcome: Result<
        ClaimsContext,
        GenericResponse<String>,
    >)
        ensures
            match screened(self.secret(), self.allowed(), header_view(authorization), now as int) {
                Ok(claims) => outcome matches Ok(context) && context@ == Some(claims),
                Err(refusal) => outcome matches Err(response) && response.is_plain(
                    refusal.status(),
                    refusal.message(),
                ),
            },
    {
        let mut context = ClaimsContext::new();
        match self.authentication.call(authorization, now, &mut context) {
            Flow::ShortCircuit(response) => return Err(response),
            Flow::Continue => {},
        }
        match &self.guard {
            Some(guard) => match guard.call(&context) {
                Flow::ShortCircuit(response) => Err(response),
                Flow::Continue => Ok(context),
            },
            None => Ok(context),
        }
    }

    /// Serves a request: the handler runs once, on the context that holds
    /// the caller's claims, where every interceptor lets the request pass,
    /// and what it returns is handed back as it is. Where an interceptor
    /// ends the request, the handler does not run.
    pub fn serve<R, H: FnOnce(&ClaimsContext) -> R>(
        &self,
        authorization: Option<&str>,
        now: usize,
        handler: H,
    ) -> (served: Served<R>)
        requires
            forall|context: ClaimsContext| context@ is Some ==> call_requires(handler, (&context,)),
        ensures
            match screened(self.secret(), self.allowed(), header_view(authorization), now as int) {
                Ok(claims) => served matches Served::Handled(result) && exists|
                    context: ClaimsContext,
                |
                    context@ == Some(claims) && call_ensures(handler, (&context,), result),
                Err(refusal) => served matches Served::Refused(response) && response.is_plain(
                    refusal.status(),
                    refusal.message(),
                ),
            },
    {
        match self.screen(authorization, now) {
            Ok(context) => Served::Handled(handler(&context)),
            Err(response) => Served::Refused(response),
        }
    }
}

} // verus!
