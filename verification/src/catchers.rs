//! Catch-all handlers: the error owed for each HTTP failure status the
//! surrounding server reports.

use vstd::prelude::*;
use crate::api_error::ApiError;

verus! {

/// A malformed request is answered with the invalid-request error.
pub fn catch_400() -> (r: ApiError)
    ensures
        r == ApiError::InvalidRequest,
{
    ApiError::InvalidRequest
}

/// An unknown route is answered with the invalid-route error.
pub fn catch_404() -> (r: ApiError)
    ensures
        r == ApiError::InvalidRoute,
{
    ApiError::InvalidRoute
}

/// A server failure is answered with the internal-server-error error.
pub fn catch_500() -> (r: ApiError)
    ensures
        r == ApiError::InternalServerError,
{
    ApiError::InternalServerError
}

/// Any other failure status is passed through unchanged.
pub fn catch_all(status: u16) -> (r: ApiError)
    ensures
        r == ApiError::Unknown(status),
{
    ApiError::Unknown(status)
}

} // verus!
