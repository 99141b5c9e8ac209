//! The closed error taxonomy and its translation to HTTP status codes
//! and client-facing messages.
//!
//! Internal detail (a driver message, a malformed identifier) is carried
//! in the variant for server-side logging but never reaches the client:
//! the client message for every server-side kind is a fixed, opaque
//! sentence.

use vstd::prelude::*;
use vstd::string::StringExecFns;

verus! {

/// Every failure kind a request pipeline can produce.
#[derive(Debug)]
pub enum AppError {
    /// An identifier read back from storage could not be decoded.
    UuidParseError(String),
    /// Request validation failed; carries the field-level message.
    ValidationError(String),
    /// The datastore reported a failure; carries the driver's detail.
    SqlxError(String),
    /// The addressed record does not exist.
    NotFound,
    /// Any other internal failure.
    InternalServerError,
}

impl AppError {
    /// The HTTP status each kind maps to: validation failures are the
    /// client's fault (400), absence is 404, everything else is an
    /// opaque 500.
    pub open spec fn spec_status(&self) -> u16 {
        match self {
            AppError::ValidationError(_) => 400,
            AppError::UuidParseError(_) => 500,
            AppError::SqlxError(_) => 500,
            AppError::NotFound => 404,
            AppError::InternalServerError => 500,
        }
    }

    /// The body message each kind maps to. Only validation detail is
    /// shown to the client; server-side kinds yield a fixed sentence.
    pub open spec fn spec_message(&self) -> Seq<char> {
        match self {
            AppError::ValidationError(m) => "Input validation failed: "@ + m@,
            AppError::UuidParseError(_) => "Error processing identifier."@,
            AppError::SqlxError(_) => "An internal database error occurred."@,
            AppError::NotFound => "The requested item was not found."@,
            AppError::InternalServerError => "An unexpected error occurred."@,
        }
    }

    /// The HTTP status code for this error.
    pub fn status_code(&self) -> (s: u16)
        ensures
            s == self.spec_status(),
    {
        match self {
            AppError::ValidationError(_) => 400,
            AppError::UuidParseError(_) => 500,
            AppError::SqlxError(_) => 500,
            AppError::NotFound => 404,
            AppError::InternalServerError => 500,
        }
    }

    /// The message placed in the JSON error body for this error.
    pub fn client_message(&self) -> (m: String)
        ensures
            m@ == self.spec_message(),
    {
        match self {
            AppError::ValidationError(detail) => {
                String::from_str("Input validation failed: ").concat(detail.as_str())
            },
            AppError::UuidParseError(_) => String::from_str("Error processing identifier."),
            AppError::SqlxError(_) => String::from_str("An internal database error occurred."),
            AppError::NotFound => String::from_str("The requested item was not found."),
            AppError::InternalServerError => String::from_str("An unexpected error occurred."),
        }
    }
}

} // verus!
