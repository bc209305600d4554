//! The failures of the service, and the one response that each becomes.

use vstd::prelude::*;
use vstd::string::*;

use crate::utils::response::GenericResponse;
use crate::utils::response::STATUS_BAD_REQUEST;
use crate::utils::response::STATUS_CONFLICT;
use crate::utils::response::STATUS_FORBIDDEN;
use crate::utils::response::STATUS_INTERNAL_SERVER_ERROR;
use crate::utils::response::STATUS_UNAUTHORIZED;
use crate::utils::text::contains;
use crate::utils::text::contains_text;
use crate::utils::text::same_text;

verus! {

/// How loudly a failure is logged.
#[derive(Debug, Clone, Copy, PartialEq, Eq, Structural)]
pub enum Severity {
    Info,
    Warn,
    Error,
}

/// A failure that the backing store reported, reduced to what the
/// classification reads.
#[derive(Debug)]
pub struct DatabaseError {
    /// The SQLSTATE code, where the store itself raised the failure and
    /// gave one.
    pub code: Option<String>,
    /// The name of the constraint that was violated, where the store
    /// names it.
    pub constraint: Option<String>,
    /// The store's own message.
    pub message: String,
    /// The failure as one line of text.
    pub description: String,
}

/// What input validation found, as the validator rendered it.
#[derive(Debug)]
pub struct ValidationDetail {
    /// The findings as running text.
    pub summary: String,
    /// The findings by field, as a JSON document.
    pub fields: String,
}

/// Every way a request can fail.
#[derive(Debug)]
pub enum AppError {
    /// The request carried no credential at all.
    MissingCredentials,
    /// The credential was presented and is wrong: a token that does not
    /// verify, an unknown user, a wrong password.
    InvalidCredentials(String),
    /// No verified identity is attached to the request.
    Unauthorized(String),
    /// The caller is known and may not do this.
    Forbidden(String),
    /// The request collides with a record that exists.
    ResourceExists(String),
    /// The input has the wrong shape.
    Validation(ValidationDetail),
    /// The backing store failed.
    Database(DatabaseError),
    /// Anything else.
    InternalServerError(String),
}

impl From<String> for AppError {
    fn from(message: String) -> (error: Self) {
        AppError::InternalServerError(message)
    }
}

impl vstd::std_specs::convert::FromSpecImpl<String> for AppError {
    open spec fn obeys_from_spec() -> bool {
        true
    }

    open spec fn from_spec(message: String) -> Self {
        AppError::InternalServerError(message)
    }
}

impl From<ValidationDetail> for AppError {
    fn from(detail: ValidationDetail) -> (error: Self) {
        AppError::Validation(detail)
    }
}

impl vstd::std_specs::convert::FromSpecImpl<ValidationDetail> for AppError {
    open spec fn obeys_from_spec() -> bool {
        true
    }

    open spec fn from_spec(detail: ValidationDetail) -> Self {
        AppError::Validation(detail)
    }
}

impl From<DatabaseError> for AppError {
    fn from(failure: DatabaseError) -> (error: Self) {
        AppError::Database(failure)
    }
}

impl vstd::std_specs::convert::FromSpecImpl<DatabaseError> for AppError {
    open spec fn obeys_from_spec() -> bool {
        true
    }

    open spec fn from_spec(failure: DatabaseError) -> Self {
        AppError::Database(failure)
    }
}

impl DatabaseError {
    /// Whether the store refused the statement because a value that must
    /// be unique exists already.
    pub open spec fn unique_violation(&self) -> bool {
        self.code matches Some(code) && code@ == "23505"@
    }

    /// The text in which the violated constraint's name is looked for: the
    /// constraint's name where the store gives it. Only where it gives none
    /// the store's message is searched instead; that message is free text,
    /// so this fallback holds only as long as the store words it as it
    /// does now.
    pub open spec fn constraint_text(&self) -> Seq<char> {
        match self.constraint {
            Some(name) => name@,
            None => self.message@,
        }
    }

    /// What the client is told about a uniqueness violation.
    pub open spec fn conflict_message(&self) -> Seq<char> {
        if contains_text(self.constraint_text(), "users_username_key"@) {
            "Username is already taken"@
        } else if contains_text(self.constraint_text(), "users_email_key"@) {
            "Email is already taken"@
        } else {
            "Resource already exists"@
        }
    }

    pub fn is_unique_violation(&self) -> (unique: bool)
        ensures
            unique == self.unique_violation(),
    {
        match &self.code {
            Some(code) => same_text(code.as_str(), "23505"),
            None => false,
        }
    }

    /// Names the field whose uniqueness was violated, by the constraint
    /// that guards it.
    pub fn describe_conflict(&self) -> (message: &'static str)
        ensures
            message@ == self.conflict_message(),
    {
        let text = match &self.constraint {
            Some(name) => name.as_str(),
            None => self.message.as_str(),
        };
        if contains(text, "users_username_key") {
            "Username is already taken"
        } else if contains(text, "users_email_key") {
            "Email is already taken"
        } else {
            "Resource already exists"
        }
    }
}

impl AppError {
    /// The HTTP status of the failure.
    pub open spec fn status(&self) -> u16 {
        match self {
            AppError::MissingCredentials => STATUS_UNAUTHORIZED,
            AppError::InvalidCredentials(_) => STATUS_UNAUTHORIZED,
            AppError::Unauthorized(_) => STATUS_UNAUTHORIZED,
            AppError::Forbidden(_) => STATUS_FORBIDDEN,
            AppError::ResourceExists(_) => STATUS_CONFLICT,
            AppError::Validation(_) => STATUS_BAD_REQUEST,
            AppError::Database(failure) => if failure.unique_violation() {
                STATUS_CONFLICT
            } else {
                STATUS_INTERNAL_SERVER_ERROR
            },
            AppError::InternalServerError(_) => STATUS_INTERNAL_SERVER_ERROR,
        }
    }

    /// The message that the client reads.
    pub open spec fn message(&self) -> Seq<char> {
        match self {
            AppError::MissingCredentials => "Missing Authorization header"@,
            AppError::InvalidCredentials(message) => message@,
            AppError::Unauthorized(message) => message@,
            AppError::Forbidden(message) => message@,
            AppError::ResourceExists(message) => message@,
            AppError::Validation(detail) => "Validation error: "@ + detail.summary@,
            AppError::Database(failure) => if failure.unique_violation() {
                failure.conflict_message()
            } else {
                "Database error: "@ + failure.description@
            },
            AppError::InternalServerError(message) => message@,
        }
    }

    /// The payload of the response, where the failure has one.
    pub open spec fn payload(&self) -> Option<Seq<char>> {
        match self {
            AppError::Validation(detail) => Some(detail.fields@),
            _ => None,
        }
    }

    /// The log level of the failure: `Error` where the service itself or
    /// its store failed, `Info` for a collision with an existing record,
    /// `Warn` for everything a caller can cause.
    pub open spec fn log_level(&self) -> Severity {
        match self {
            AppError::Database(_) => Severity::Error,
            AppError::InternalServerError(_) => Severity::Error,
            AppError::ResourceExists(_) => Severity::Info,
            _ => Severity::Warn,
        }
    }

    /// Whether `response` is the response of this failure.
    pub open spec fn answered_by(&self, response: GenericResponse<String>) -> bool {
        &&& response.status == self.status()
        &&& response.message@ == self.message()
        &&& match self.payload() {
            Some(payload) => response.data matches Some(data) && data@ == payload,
            None => response.data is None,
        }
    }

    /// Builds the response of the failure: its one status, the message for
    /// the client and, for a validation failure, the findings as payload.
    pub fn error_response(&self) -> (response: GenericResponse<String>)
        ensures
            self.answered_by(response),
    {
        match self {
            AppError::MissingCredentials => GenericResponse {
                status: STATUS_UNAUTHORIZED,
                data: None,
                message: String::from_str("Missing Authorization header"),
            },
            AppError::InvalidCredentials(message) => GenericResponse {
                status: STATUS_UNAUTHORIZED,
                data: None,
                message: message.clone(),
            },
            AppError::Unauthorized(message) => GenericResponse {
                status: STATUS_UNAUTHORIZED,
                data: None,
                message: message.clone(),
            },
            AppError::Forbidden(message) => GenericResponse {
                status: STATUS_FORBIDDEN,
                data: None,
                message: message.clone(),
            },
            AppError::ResourceExists(message) => GenericResponse {
                status: STATUS_CONFLICT,
                data: None,
                message: message.clone(),
            },
            AppError::Validation(detail) => GenericResponse {
                status: STATUS_BAD_REQUEST,
                data: Some(detail.fields.clone()),
                message: String::from_str("Validation error: ").concat(detail.summary.as_str()),
            },
            AppError::Database(failure) => {
                if failure.is_unique_violation() {
                    GenericResponse {
                        status: STATUS_CONFLICT,
                        data: None,
                        message: String::from_str(failure.describe_conflict()),
                    }
                } else {
                    GenericResponse {
                        status: STATUS_INTERNAL_SERVER_ERROR,
                        data: None,
                        message: String::from_str("Database error: ").concat(
                            failure.description.as_str(),
                        ),
                    }
                }
            },
            AppError::InternalServerError(message) => GenericResponse {
                status: STATUS_INTERNAL_SERVER_ERROR,
                data: None,
                message: message.clone(),
            },
        }
    }

    pub fn severity(&self) -> (level: Severity)
        ensures
            level == self.log_level(),
    {
        match self {
            AppError::Database(_) => Severity::Error,
            AppError::InternalServerError(_) => Severity::Error,
            AppError::ResourceExists(_) => Severity::Info,
            _ => Severity::Warn,
        }
    }
}

} // verus!
