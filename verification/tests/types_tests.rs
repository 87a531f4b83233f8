use civicconnect::error::ApiError;
use civicconnect::types::default_true;

#[test]
fn test_default_true() {
    assert!(default_true());
}

#[test]
fn test_error_codes() {
    assert_eq!(ApiError::RateLimited.code(), "RATE_LIMITED");
    assert_eq!(ApiError::AlreadyVerified.code(), "ALREADY_VERIFIED");
    assert_eq!(ApiError::InvalidSignature.code(), "INVALID_SIGNATURE");
    assert_eq!(ApiError::OutsideTimeWindow.code(), "OUTSIDE_TIME_WINDOW");
    assert_eq!(ApiError::OutsideLocation.code(), "OUTSIDE_LOCATION");
    assert_eq!(ApiError::EventNotFound.code(), "EVENT_NOT_FOUND");
    assert_eq!(ApiError::Unauthorized.code(), "UNAUTHORIZED");
    assert_eq!(ApiError::Forbidden.code(), "FORBIDDEN");
    assert_eq!(ApiError::InvalidInput("x".to_string()).code(), "INVALID_INPUT");
}
