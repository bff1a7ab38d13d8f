//! The error taxonomy of the service and its public face: the HTTP status,
//! the text a client sees, and the text that goes to the log instead.

use vstd::prelude::*;
use vstd::string::StringExecFns;

verus! {

#[derive(Debug, Clone, PartialEq, Eq)]
pub enum AppError {
    AuthenticationFailed,
    TokenCreation,
    InvalidToken,
    TokenExpired,
    MissingToken,
    MissingAuthService,
    InternalServerError,
    NotFound(String),
    ValidationError(String),
    Unauthorized(String),
    Forbidden(String),
    DatabaseError(String),
}

/// What a client gets for an error: the status and the `error` field of the
/// JSON body.
#[derive(Debug, Clone, PartialEq, Eq)]
pub struct ErrorResponse {
    pub status: u16,
    pub error: String,
}

pub const UNAUTHORIZED: u16 = 401;

pub const FORBIDDEN: u16 = 403;

pub const NOT_FOUND: u16 = 404;

pub const BAD_REQUEST: u16 = 400;

pub const INTERNAL_SERVER_ERROR: u16 = 500;

/// The body text of every response with status 500.
pub open spec fn generic_failure() -> Seq<char> {
    "An internal error occurred. Please try again later."@
}

impl AppError {
    /// The HTTP status that the error is answered with.
    pub open spec fn spec_status(&self) -> u16 {
        match self {
            AppError::AuthenticationFailed => UNAUTHORIZED,
            AppError::TokenCreation => INTERNAL_SERVER_ERROR,
            AppError::InvalidToken => UNAUTHORIZED,
            AppError::TokenExpired => UNAUTHORIZED,
            AppError::MissingToken => UNAUTHORIZED,
            AppError::MissingAuthService => INTERNAL_SERVER_ERROR,
            AppError::InternalServerError => INTERNAL_SERVER_ERROR,
            AppError::NotFound(_) => NOT_FOUND,
            AppError::ValidationError(_) => BAD_REQUEST,
            AppError::Unauthorized(_) => UNAUTHORIZED,
            AppError::Forbidden(_) => FORBIDDEN,
            AppError::DatabaseError(_) => INTERNAL_SERVER_ERROR,
        }
    }

    /// The error written out in full, with the message it carries.
    pub open spec fn spec_text(&self) -> Seq<char> {
        match self {
            AppError::AuthenticationFailed => "Authentication failed"@,
            AppError::TokenCreation => "Token creation error"@,
            AppError::InvalidToken => "Invalid token"@,
            AppError::TokenExpired => "Token expired"@,
            AppError::MissingToken => "Missing authentication token"@,
            AppError::MissingAuthService => "Missing auth service"@,
            AppError::InternalServerError => "Internal server error"@,
            AppError::NotFound(m) => "Not found: "@ + m@,
            AppError::ValidationError(m) => "Validation error: "@ + m@,
            AppError::Unauthorized(m) => "Unauthorized: "@ + m@,
            AppError::Forbidden(m) => "Forbidden: "@ + m@,
            AppError::DatabaseError(m) => "Database error: "@ + m@,
        }
    }

    /// The text of the response body: the generic sentence for status 500,
    /// the carried message where there is one, the full text otherwise.
    pub open spec fn spec_public_message(&self) -> Seq<char> {
        if self.spec_status() == INTERNAL_SERVER_ERROR {
            generic_failure()
        } else {
            match self {
                AppError::NotFound(m) => m@,
                AppError::ValidationError(m) => m@,
                AppError::Unauthorized(m) => m@,
                AppError::Forbidden(m) => m@,
                _ => self.spec_text(),
            }
        }
    }

    /// The line that goes to the error log, for the errors that are logged:
    /// exactly those answered with status 500.
    pub open spec fn spec_log_line(&self) -> Option<Seq<char>> {
        match self {
            AppError::TokenCreation => Some("Failed to create token: "@ + self.spec_text()),
            AppError::MissingAuthService => Some("Auth service missing: "@ + self.spec_text()),
            AppError::InternalServerError => Some("Internal server error: "@ + self.spec_text()),
            AppError::DatabaseError(m) => Some("Database error: "@ + m@),
            _ => None,
        }
    }

    pub fn status(&self) -> (r: u16)
        ensures
            r == self.spec_status(),
    {
        match self {
            AppError::AuthenticationFailed => UNAUTHORIZED,
            AppError::TokenCreation => INTERNAL_SERVER_ERROR,
            AppError::InvalidToken => UNAUTHORIZED,
            AppError::TokenExpired => UNAUTHORIZED,
            AppError::MissingToken => UNAUTHORIZED,
            AppError::MissingAuthService => INTERNAL_SERVER_ERROR,
            AppError::InternalServerError => INTERNAL_SERVER_ERROR,
            AppError::NotFound(_) => NOT_FOUND,
            AppError::ValidationError(_) => BAD_REQUEST,
            AppError::Unauthorized(_) => UNAUTHORIZED,
            AppError::Forbidden(_) => FORBIDDEN,
            AppError::DatabaseError(_) => INTERNAL_SERVER_ERROR,
        }
    }

    /// The error written out in full.
    pub fn message(&self) -> (r: String)
        ensures
            r@ == self.spec_text(),
    {
        match self {
            AppError::AuthenticationFailed => String::from_str("Authentication failed"),
            AppError::TokenCreation => String::from_str("Token creation error"),
            AppError::InvalidToken => String::from_str("Invalid token"),
            AppError::TokenExpired => String::from_str("Token expired"),
            AppError::MissingToken => String::from_str("Missing authentication token"),
            AppError::MissingAuthService => String::from_str("Missing auth service"),
            AppError::InternalServerError => String::from_str("Internal server error"),
            AppError::NotFound(m) => String::from_str("Not found: ").concat(m.as_str()),
            AppError::ValidationError(m) => String::from_str("Validation error: ").concat(
                m.as_str(),
            ),
            AppError::Unauthorized(m) => String::from_str("Unauthorized: ").concat(m.as_str()),
            AppError::Forbidden(m) => String::from_str("Forbidden: ").concat(m.as_str()),
            AppError::DatabaseError(m) => String::from_str("Database error: ").concat(m.as_str()),
        }
    }

    /// The line for the error log, if the error is one that is logged.
    pub fn log_line(&self) -> (r: Option<String>)
        ensures
            r is Some <==> self.spec_status() == INTERNAL_SERVER_ERROR,
            match r {
                Some(line) => self.spec_log_line() == Some(line@),
                None => self.spec_log_line() is None,
            },
    {
        match self {
            AppError::TokenCreation => Some(
                String::from_str("Failed to create token: ").concat(self.message().as_str()),
            ),
            AppError::MissingAuthService => Some(
                String::from_str("Auth service missing: ").concat(self.message().as_str()),
            ),
            AppError::InternalServerError => Some(
                String::from_str("Internal server error: ").concat(self.message().as_str()),
            ),
            AppError::DatabaseError(m) => Some(
                String::from_str("Database error: ").concat(m.as_str()),
            ),
            _ => None,
        }
    }

    /// The response for the error. A status of 500 never carries the cause:
    /// its body is the generic sentence.
    pub fn into_response(self) -> (r: ErrorResponse)
        ensures
            r.status == self.spec_status(),
            r.error@ == self.spec_public_message(),
            r.status == INTERNAL_SERVER_ERROR ==> r.error@ == generic_failure(),
    {
        let status: u16 = self.status();
        let error_message: String = match self {
            AppError::NotFound(m) => m,
            AppError::ValidationError(m) => m,
            AppError::Unauthorized(m) => m,
            AppError::Forbidden(m) => m,
            AppError::DatabaseError(_) => String::from_str("Internal server error"),
            AppError::TokenCreation => String::from_str("Internal server error"),
            AppError::MissingAuthService => String::from_str("Internal server error"),
            AppError::InternalServerError => String::from_str("Internal server error"),
            other => other.message(),
        };
        let public_message: String = if status == INTERNAL_SERVER_ERROR {
            String::from_str("An internal error occurred. Please try again later.")
        } else {
            error_message
        };
        ErrorResponse { status, error: public_message }
    }
}

} // verus!
