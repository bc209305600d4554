//! The authorization interceptor.

use vstd::prelude::*;
use vstd::string::*;

use crate::middleware::context::ClaimsContext;
use crate::middleware::stage::Flow;
use crate::utils::errors::AppError;
use crate::utils::jwt::ClaimsView;
use crate::utils::response::STATUS_FORBIDDEN;
use crate::utils::response::STATUS_UNAUTHORIZED;
use crate::utils::roles::Role;

verus! {

/// The role guard of a route as it is wired: the roles that may pass.
pub struct RbacMiddleware {
    pub allowed_roles: Vec<Role>,
}

/// The role guard at work on requests.
pub struct RbacMiddlewareService {
    allowed_roles: Vec<Role>,
}

/// Why a request did not pass the role guard.
#[derive(Debug, Clone, Copy, PartialEq, Eq, Structural)]
pub enum Denial {
    /// The request carries no claims: nobody authenticated it.
    Unauthenticated,
    /// The claims name a role that does not exist.
    InvalidRole,
    /// The caller's role is not among the allowed ones.
    Insufficient,
}

/// A role's name between double quotes.
pub open spec fn quoted(role: Role) -> Seq<char> {
    "\""@ + role.name() + "\""@
}

/// The quoted names of the roles, in order, with a comma and a space
/// between neighbours.
pub open spec fn listed(roles: Seq<Role>) -> Seq<char>
    decreases roles.len(),
{
    if roles.len() == 0 {
        Seq::empty()
    } else if roles.len() == 1 {
        quoted(roles[0])
    } else {
        listed(roles.drop_last()) + ", "@ + quoted(roles.last())
    }
}

/// What a caller with an insufficient role is told: the roles of which
/// one is required, and nothing about the caller's own.
pub open spec fn requirement(roles: Seq<Role>) -> Seq<char> {
    "One of roles ["@ + listed(roles) + "] required"@
}

/// What the guard decides for a request with these claims: the caller's
/// role where it passes, else the reason.
pub open spec fn authorized(allowed: Seq<Role>, claims: Option<ClaimsView>) -> Result<
    Role,
    Denial,
> {
    match claims {
        None => Err(Denial::Unauthenticated),
        Some(claims) => match Role::parse(claims.role) {
            None => Err(Denial::InvalidRole),
            Some(role) => admitted(allowed, role),
        },
    }
}

/// Whether `flow` is what a guard that allows `allowed` answers to a request
/// with these claims: the request goes on where the guard admits its
/// caller, and ends with the denial's status and message otherwise.
pub open spec fn answers(allowed: Seq<Role>, claims: Option<ClaimsView>, flow: Flow) -> bool {
    match authorized(allowed, claims) {
        Ok(_) => flow is Continue,
        Err(denial) => flow matches Flow::ShortCircuit(response) && response.is_plain(
            denial.status(),
            denial.message(allowed),
        ),
    }
}

/// What the guard decides for a caller with this role.
pub open spec fn admitted(allowed: Seq<Role>, role: Role) -> Result<Role, Denial> {
    if allowed.contains(role) {
        Ok(role)
    } else {
        Err(Denial::Insufficient)
    }
}

impl Denial {
    /// The HTTP status of the denial: 401 where nobody is authenticated,
    /// 403 where somebody is and may not pass.
    pub open spec fn status(&self) -> u16 {
        match self {
            Denial::Unauthenticated => STATUS_UNAUTHORIZED,
            Denial::InvalidRole => STATUS_FORBIDDEN,
            Denial::Insufficient => STATUS_FORBIDDEN,
        }
    }

    /// What the client is told, at a guard that allows `allowed`.
    pub open spec fn message(&self, allowed: Seq<Role>) -> Seq<char> {
        match self {
            Denial::Unauthenticated => "Unauthorized"@,
            Denial::InvalidRole => "Invalid role"@,
            Denial::Insufficient => requirement(allowed),
        }
    }
}

/// Listing one more role appends it to the list of those before it.
proof fn lemma_listed_step(roles: Seq<Role>, count: int)
    requires
        0 <= count < roles.len(),
    ensures
        listed(roles.take(count + 1)) == if count == 0 {
            quoted(roles[0])
        } else {
            listed(roles.take(count)) + ", "@ + quoted(roles[count])
        },
{
    assert(roles.take(count + 1).drop_last() =~= roles.take(count));
}

/// Authorization has no memory: whatever a guard answers to a request, it
/// answers again to the same claims under the same allowed roles.
pub proof fn lemma_authorization_repeats(
    allowed: Seq<Role>,
    claims: Option<ClaimsView>,
    first: Flow,
    second: Flow,
)
    requires
        answers(allowed, claims, first),
        answers(allowed, claims, second),
    ensures
        first.same_decision(second),
{
}

impl RbacMiddleware {
    /// Makes the guard that handles requests, with the same allowed roles.
    pub fn new_transform(&self) -> (service: RbacMiddlewareService)
        ensures
            service.allowed() == self.allowed_roles@,
    {
        RbacMiddlewareService { allowed_roles: self.allowed_roles.clone() }
    }
}

impl RbacMiddlewareService {
    /// The roles that pass the guard.
    pub closed spec fn allowed(&self) -> Seq<Role> {
        self.allowed_roles@
    }

    /// Whether the role is among the allowed ones.
    pub fn permits(&self, role: Role) -> (permitted: bool)
        ensures
            permitted == self.allowed().contains(role),
    {
        let mut at: usize = 0;
        while at < self.allowed_roles.len()
            invariant
                at <= self.allowed_roles.len(),
                forall|i: int| 0 <= i < at ==> self.allowed_roles@[i] != role,
            decreases self.allowed_roles.len() - at,
        {
            if self.allowed_roles[at] == role {
                return true;
            }
            at += 1;
        }
        false
    }

    /// The message for a caller whose role is not allowed.
    pub fn requirement_message(&self) -> (message: String)
        ensures
            message@ == requirement(self.allowed()),
    {
        let mut message = String::from_str("One of roles [");
        let ghost head = message@;
        let mut at: usize = 0;
        while at < self.allowed_roles.len()
            invariant
                at <= self.allowed_roles.len(),
                message@ == head + listed(self.allowed_roles@.take(at as int)),
            decreases self.allowed_roles.len() - at,
        {
            proof {
                lemma_listed_step(self.allowed_roles@, at as int);
            }
            if at > 0 {
                message.append(", ");
            }
            message.append("\"");
            message.append(self.allowed_roles[at].as_str());
            message.append("\"");
            at += 1;
        }
        assert(self.allowed_roles@.take(at as int) =~= self.allowed_roles@);
        message.append("] required");
        message
    }

    /// Decides for a caller whose role is known.
    pub fn decide(&self, role: Role) -> (verdict: Result<Role, Denial>)
        ensures
            verdict == admitted(self.allowed(), role),
    {
        if self.permits(role) {
            Ok(role)
        } else {
            Err(Denial::Insufficient)
        }
    }

    /// Decides whether the request may pass: it must carry claims, the
    /// claims must name a role, and the role must be allowed.
    pub fn authorize(&self, context: &ClaimsContext) -> (verdict: Result<Role, Denial>)
        ensures
            verdict == authorized(self.allowed(), context@),
    {
        let claims = match context.get() {
            Some(claims) => claims,
            None => return Err(Denial::Unauthenticated),
        };
        match Role::from_str(claims.role.as_str()) {
            Ok(role) => self.decide(role),
            Err(_) => Err(Denial::InvalidRole),
        }
    }

    /// The denial as a member of the service's failures.
    pub fn to_error(&self, denial: Denial) -> (error: AppError)
        ensures
            error.status() == denial.status(),
            error.message() == denial.message(self.allowed()),
            error.payload() is None,
            match denial {
                Denial::Unauthenticated => error is Unauthorized,
                _ => error is Forbidden,
            },
    {
        match denial {
            Denial::Unauthenticated => AppError::Unauthorized(String::from_str("Unauthorized")),
            Denial::InvalidRole => AppError::Forbidden(String::from_str("Invalid role")),
            Denial::Insufficient => AppError::Forbidden(self.requirement_message()),
        }
    }

    /// Carries a verdict out: the request goes on where its caller was
    /// admitted, and ends with the denial's response otherwise.
    pub fn conclude(&self, verdict: Result<Role, Denial>) -> (flow: Flow)
        ensures
            match verdict {
                Ok(_) => flow is Continue,
                Err(denial) => flow matches Flow::ShortCircuit(response) && response.is_plain(
                    denial.status(),
                    denial.message(self.allowed()),
                ),
            },
    {
        match verdict {
            Ok(_) => Flow::Continue,
            Err(denial) => Flow::ShortCircuit(self.to_error(denial).error_response()),
        }
    }

    /// Handles a request. It goes on where the guard admits its caller and
    /// ends here otherwise; the context is only read.
    pub fn call(&self, context: &ClaimsContext) -> (flow: Flow)
        ensures
            answers(self.allowed(), context@, flow),
    {
        self.conclude(self.authorize(context))
    }
}

} // verus!
