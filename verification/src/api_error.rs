//! API error taxonomy and the status line data each error renders to.
//!
//! Rendering itself (JSON body, response plumbing) happens outside the
//! library; here each error is mapped to its HTTP status code, a stable
//! error identifier and a human-readable description.

use vstd::prelude::*;

verus! {

/// API responses for all possible API errors.
#[derive(Debug, Clone, Copy, PartialEq, Eq, Structural)]
pub enum ApiError {
    /// Authentication is required on this route but is missing.
    MissingAuthentication,
    /// The supplied authentication is invalid.
    InvalidAuthentication,
    /// Requested route was not found.
    InvalidRoute,
    /// Generic request parsing fail.
    InvalidRequest,
    /// Generic internal server error, usually after a panic.
    InternalServerError,
    /// Server is temporarily unavailable to process the request.
    TemporarilyUnavailable,
    /// Other unaccounted-for error, carrying its HTTP status code.
    Unknown(u16),
}

/// The HTTP status code an error renders to.
pub open spec fn spec_error_status(e: ApiError) -> u16 {
    match e {
        ApiError::MissingAuthentication => 401u16,
        ApiError::InvalidAuthentication => 403u16,
        ApiError::InvalidRoute => 404u16,
        ApiError::InvalidRequest => 400u16,
        ApiError::InternalServerError => 500u16,
        ApiError::TemporarilyUnavailable => 503u16,
        ApiError::Unknown(status) => status,
    }
}

/// The stable identifier an error renders to.
pub open spec fn spec_error_code(e: ApiError) -> Seq<char> {
    match e {
        ApiError::MissingAuthentication => "AUTH_REQUIRED"@,
        ApiError::InvalidAuthentication => "INVALID_AUTH"@,
        ApiError::InvalidRoute => "INVALID_ROUTE"@,
        ApiError::InvalidRequest => "INVALID_REQUEST"@,
        ApiError::InternalServerError => "INTERNAL_SERVER_ERROR"@,
        ApiError::TemporarilyUnavailable => "TEMPORARILY_UNAVAILABLE"@,
        ApiError::Unknown(_) => "UNKNOWN"@,
    }
}

/// The human-readable description an error renders to.
pub open spec fn spec_error_description(e: ApiError) -> Seq<char> {
    match e {
        ApiError::MissingAuthentication => "Authentication is required on this endpoints!"@,
        ApiError::InvalidAuthentication => "Invalid authentication supplied"@,
        ApiError::InvalidRoute => "Route not found"@,
        ApiError::InvalidRequest => "Invalid request"@,
        ApiError::InternalServerError =>
            "The server encountered an internal error while processing this request"@,
        ApiError::TemporarilyUnavailable =>
            "The server is currently unable to process this request. Please try again later."@,
        ApiError::Unknown(_) => "Unknown"@,
    }
}

impl ApiError {
    /// Returns the (status code, error id, error description) for this
    /// [`ApiError`].
    pub fn data(&self) -> (r: (u16, &'static str, &'static str))
        ensures
            r.0 == spec_error_status(*self),
            r.1@ == spec_error_code(*self),
            r.2@ == spec_error_description(*self),
    {
        match self {
            ApiError::MissingAuthentication => (
                401,
                "AUTH_REQUIRED",
                "Authentication is required on this endpoints!",
            ),
            ApiError::InvalidAuthentication => (
                403,
                "INVALID_AUTH",
                "Invalid authentication supplied",
            ),
            ApiError::InvalidRoute => (404, "INVALID_ROUTE", "Route not found"),
            ApiError::InvalidRequest => (400, "INVALID_REQUEST", "Invalid request"),
            ApiError::InternalServerError => (
                500,
                "INTERNAL_SERVER_ERROR",
                "The server encountered an internal error while processing this request",
            ),
            ApiError::TemporarilyUnavailable => (
                503,
                "TEMPORARILY_UNAVAILABLE",
                "The server is currently unable to process this request. Please try again later.",
            ),
            ApiError::Unknown(status) => (*status, "UNKNOWN", "Unknown"),
        }
    }
}

} // verus!
