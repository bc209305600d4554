//! The authentication interceptor.

use vstd::prelude::*;
use vstd::string::*;

use crate::middleware::context::ClaimsContext;
use crate::middleware::stage::Flow;
use crate::utils::errors::AppError;
use crate::utils::jwt::validate_token;
use crate::utils::jwt::verified;
use crate::utils::jwt::Claims;
use crate::utils::jwt::ClaimsView;
use crate::utils::jwt::TokenError;
use crate::utils::response::STATUS_UNAUTHORIZED;
use crate::utils::text::after_prefix;
use crate::utils::text::strip_prefix;

verus! {

/// Why a request was not authenticated.
#[derive(Debug, Clone, Copy, PartialEq, Eq, Structural)]
pub enum AuthFailure {
    /// The request has no `Authorization` header.
    MissingHeader,
    /// The header carries no token that verifies. A header without the
    /// `Bearer ` scheme counts as carrying the empty token.
    Rejected(TokenError),
}

/// The authentication stage as it is configured at start-up: it holds the
/// secret that tokens are signed with.
pub struct JwtMiddleware {
    secret: Vec<u8>,
}

/// The authentication stage at work on requests.
pub struct JwtMiddlewareService {
    secret: Vec<u8>,
}

/// The token that an `Authorization` header carries: what follows
/// `Bearer `, and the empty text where the header does not start with it.
pub open spec fn bearer_token(header: Seq<char>) -> Seq<char> {
    match after_prefix(header, "Bearer "@) {
        Some(token) => token,
        None => Seq::empty(),
    }
}

/// The header of a request as a mathematical value.
pub open spec fn header_view(authorization: Option<&str>) -> Option<Seq<char>> {
    match authorization {
        Some(header) => Some(header@),
        None => None,
    }
}

/// What authentication makes of a request's `Authorization` header at the
/// second `now`, under the secret.
pub open spec fn authenticated(authorization: Option<Seq<char>>, secret: Seq<u8>, now: int) -> Result<
    ClaimsView,
    AuthFailure,
> {
    match authorization {
        None => Err(AuthFailure::MissingHeader),
        Some(header) => if bearer_token(header).len() == 0 {
            Err(AuthFailure::Rejected(TokenError::Malformed))
        } else {
            match verified(bearer_token(header), secret, now) {
                Ok(claims) => Ok(claims),
                Err(error) => Err(AuthFailure::Rejected(error)),
            }
        },
    }
}

impl AuthFailure {
    /// What the client is told. Every rejected token reads the same, so
    /// that the response does not tell which check failed.
    pub open spec fn message(&self) -> Seq<char> {
        match self {
            AuthFailure::MissingHeader => "Missing Authorization header"@,
            AuthFailure::Rejected(_) => "Invalid or expired token"@,
        }
    }

    /// The failure as a member of the service's failures.
    pub fn to_error(&self) -> (error: AppError)
        ensures
            error.status() == STATUS_UNAUTHORIZED,
            error.message() == self.message(),
            error.payload() is None,
            match self {
                AuthFailure::MissingHeader => error is MissingCredentials,
                AuthFailure::Rejected(_) => error is InvalidCredentials,
            },
    {
        match self {
            AuthFailure::MissingHeader => AppError::MissingCredentials,
            AuthFailure::Rejected(_) => AppError::InvalidCredentials(
                String::from_str("Invalid or expired token"),
            ),
        }
    }
}

impl JwtMiddleware {
    pub closed spec fn secret(&self) -> Seq<u8> {
        self.secret@
    }

    /// Configures the stage with the signing secret.
    pub fn new(secret: Vec<u8>) -> (stage: Self)
        ensures
            stage.secret() == secret@,
    {
        JwtMiddleware { secret }
    }

    /// Makes the stage that handles requests.
    pub fn new_transform(&self) -> (service: JwtMiddlewareService)
        ensures
            service.secret() == self.secret(),
    {
        JwtMiddlewareService { secret: self.secret.clone() }
    }
}

impl JwtMiddlewareService {
    pub closed spec fn secret(&self) -> Seq<u8> {
        self.secret@
    }

    /// Decides whether the request is authenticated, and as whom.
    pub fn authenticate(&self, authorization: Option<&str>, now: usize) -> (verdict: Result<
        Claims,
        AuthFailure,
    >)
        ensures
            match authenticated(header_view(authorization), self.secret(), now as int) {
                Ok(view) => verdict matches Ok(claims) && claims@ == view,
                Err(failure) => verdict == Err::<Claims, AuthFailure>(failure),
            },
    {
        let header = match authorization {
            Some(header) => header,
            None => return Err(AuthFailure::MissingHeader),
        };
        let token = match strip_prefix(header, "Bearer ") {
            Some(token) => token,
            None => "",
        };
        proof {
            reveal_strlit("");
        }
        if token.is_empty() {
            return Err(AuthFailure::Rejected(TokenError::Malformed));
        }
        match validate_token(token, self.secret.as_slice(), now) {
            Ok(claims) => Ok(claims),
            Err(error) => Err(AuthFailure::Rejected(error)),
        }
    }

    /// Carries a verdict out on a request whose context is still empty:
    /// the claims of an authenticated caller go into the context and the
    /// request goes on; a failure ends the request with status 401 and
    /// leaves the context empty.
    pub fn conclude(verdict: Result<Claims, AuthFailure>, context: &mut ClaimsContext) -> (flow:
        Flow)
        requires
            old(context)@ is None,
        ensures
            match verdict {
                Ok(claims) => flow is Continue && final(context)@ == Some(claims@),
                Err(failure) => flow matches Flow::ShortCircuit(response) && response.is_plain(
                    STATUS_UNAUTHORIZED,
                    failure.message(),
                ) && final(context)@ is None,
            },
    {
        match verdict {
            Ok(claims) => {
                context.set(claims);
                Flow::Continue
            },
            Err(failure) => Flow::ShortCircuit(failure.to_error().error_response()),
        }
    }

    /// Handles a request whose context is still empty. An authenticated
    /// request goes on with its claims in the context; every other request
    /// ends here with status 401, and its context stays empty.
    pub fn call(&self, authorization: Option<&str>, now: usize, context: &mut ClaimsContext) -> (flow:
        Flow)
        requires
            old(context)@ is None,
        ensures
            match authenticated(header_view(authorization), self.secret(), now as int) {
                Ok(view) => flow is Continue && final(context)@ == Some(view),
                Err(failure) => flow matches Flow::ShortCircuit(response) && response.is_plain(
                    STATUS_UNAUTHORIZED,
                    failure.message(),
                ) && final(context)@ is None,
            },
    {
        JwtMiddlewareService::conclude(self.authenticate(authorization, now), context)
    }
}

} // verus!
