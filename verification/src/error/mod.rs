//! The error taxonomy.
//!
//! Two relationships that callers branch on are kept as predicates:
//! [`Error::is_connection`] is true for a timeout as well as a socket failure,
//! and [`Error::status`] answers for any HTTP error regardless of which status
//! it carried.

pub mod api;
pub mod body;
pub mod describe;

use vstd::prelude::*;

pub use self::api::{ApiError, ApiErrorKind};
pub use self::body::Body;
use crate::headers::Headers;
use crate::text::{append, append_str, chars_of, decimal, decimal_chars, lit, string_of};

verus! {

/// Anything the SDK can fail with.
#[derive(Debug)]
pub enum Error {
    /// The API returned a non-2xx response.
    Api(ApiError),
    /// The request or its response body could not be delivered.
    Connection {
        /// What went wrong, including the underlying cause.
        message: String,
    },
    /// The full response did not arrive within the timeout.
    Timeout {
        /// The timeout that elapsed, in milliseconds.
        timeout_ms: u64,
    },
    /// The caller cancelled the request.
    UserAbort {
        /// Why the request was abandoned.
        message: String,
    },
    /// Configuration or a question was rejected before any request was sent.
    Invalid(String),
}

/// The SDK result type.
pub type Result<T> = std::result::Result<T, Error>;

/// The message an error displays.
pub open spec fn error_message(e: Error) -> Seq<char> {
    match e {
        Error::Api(api) => api.message@,
        Error::Connection { message } => message@,
        Error::Timeout { timeout_ms } => "Request timed out after "@ + decimal(timeout_ms as nat) + "ms."@,
        Error::UserAbort { message } => message@,
        Error::Invalid(message) => message@,
    }
}

/// The HTTP status an error carries, when it came from a response.
pub open spec fn status_of(e: Error) -> Option<u16> {
    match e {
        Error::Api(api) => Some(api.status),
        _ => None,
    }
}

impl Error {
    /// A connection failure, quoting the underlying cause.
    pub fn connection(cause: &str) -> (r: Error)
        ensures
            r matches Error::Connection { message } && message@ == "Connection error: "@ + cause@,
    {
        let mut m = lit("Connection error: ");
        append_str(&mut m, cause);
        Error::Connection { message: string_of(&m) }
    }

    /// The caller cancelled the request.
    pub fn aborted() -> (r: Error)
        ensures
            r matches Error::UserAbort { message } && message@ == "Request was aborted."@,
    {
        Error::UserAbort { message: crate::text::owned("Request was aborted.") }
    }

    /// A rejection before anything was sent, with this message.
    pub fn invalid(message: &str) -> (r: Error)
        ensures
            r matches Error::Invalid(m) && m@ == message@,
    {
        Error::Invalid(crate::text::owned(message))
    }

    /// Builds the right variant for an HTTP status.
    pub fn from_response(status: u16, body: Body, headers: &Headers, retry_after_ms: Option<u64>) -> (r: Error)
        ensures
            r matches Error::Api(api) && self::api::answers_response(api, status, body, headers@, retry_after_ms),
    {
        Error::Api(ApiError::from_response(status, body, headers, retry_after_ms))
    }

    /// The HTTP status, when this came from a response.
    pub fn status(&self) -> (r: Option<u16>)
        ensures
            r == status_of(*self),
    {
        match self {
            Error::Api(api) => Some(api.status),
            _ => None,
        }
    }

    /// Whether this is a delivery failure; a timeout counts as one.
    pub fn is_connection(&self) -> (r: bool)
        ensures
            r == (self is Connection || self is Timeout),
    {
        match self {
            Error::Connection { .. } | Error::Timeout { .. } => true,
            _ => false,
        }
    }

    /// Whether the caller cancelled. Never retried.
    pub fn is_user_abort(&self) -> (r: bool)
        ensures
            r == self is UserAbort,
    {
        match self {
            Error::UserAbort { .. } => true,
            _ => false,
        }
    }

    /// The API error, when this came from a response.
    pub fn api(&self) -> (r: Option<&ApiError>)
        ensures
            match *self {
                Error::Api(a) => r == Some(&a),
                _ => r is None,
            },
    {
        match self {
            Error::Api(api) => Some(api),
            _ => None,
        }
    }

    /// The message this error displays.
    pub fn message(&self) -> (r: String)
        ensures
            r@ == error_message(*self),
    {
        match self {
            Error::Api(api) => crate::text::owned(api.message.as_str()),
            Error::Connection { message } => crate::text::owned(message.as_str()),
            Error::Timeout { timeout_ms } => {
                let mut m = lit("Request timed out after ");
                append(&mut m, &decimal_chars(*timeout_ms));
                append_str(&mut m, "ms.");
                string_of(&m)
            },
            Error::UserAbort { message } => crate::text::owned(message.as_str()),
            Error::Invalid(message) => crate::text::owned(message.as_str()),
        }
    }
}

} // verus!
