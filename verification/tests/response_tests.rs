use contributor_cache::api_error::ApiError;
use contributor_cache::catchers::{catch_400, catch_404, catch_500, catch_all};
use contributor_cache::headers::{decimal_string, CacheControl, RetryAfter};

#[test]
fn decimal_rendering_matches_std() {
    for n in [0u64, 1, 9, 10, 99, 100, 3600, 86400, 1_700_000_000, u64::MAX] {
        assert_eq!(decimal_string(n), n.to_string());
    }
}

#[test]
fn cache_control_header_value() {
    let header = CacheControl(3600, ());
    assert_eq!(header.header_value(), "public, max-age=3600");
    let full = CacheControl(86400, "body");
    assert_eq!(full.header_value(), "public, max-age=86400");
}

#[test]
fn retry_after_header_value() {
    let header = RetryAfter(10, ());
    assert_eq!(header.header_value(), "10");
}

#[test]
fn api_error_data_fields() {
    assert_eq!(
        ApiError::MissingAuthentication.data(),
        (401, "AUTH_REQUIRED", "Authentication is required on this endpoints!")
    );
    assert_eq!(
        ApiError::InvalidAuthentication.data(),
        (403, "INVALID_AUTH", "Invalid authentication supplied")
    );
    assert_eq!(ApiError::InvalidRoute.data(), (404, "INVALID_ROUTE", "Route not found"));
    assert_eq!(ApiError::InvalidRequest.data(), (400, "INVALID_REQUEST", "Invalid request"));
    assert_eq!(
        ApiError::InternalServerError.data(),
        (
            500,
            "INTERNAL_SERVER_ERROR",
            "The server encountered an internal error while processing this request"
        )
    );
    assert_eq!(
        ApiError::TemporarilyUnavailable.data(),
        (
            503,
            "TEMPORARILY_UNAVAILABLE",
            "The server is currently unable to process this request. Please try again later."
        )
    );
    assert_eq!(ApiError::Unknown(418).data(), (418, "UNKNOWN", "Unknown"));
}

#[test]
fn catchers_map_statuses() {
    assert_eq!(catch_400(), ApiError::InvalidRequest);
    assert_eq!(catch_404(), ApiError::InvalidRoute);
    assert_eq!(catch_500(), ApiError::InternalServerError);
    assert_eq!(catch_all(429), ApiError::Unknown(429));
}
