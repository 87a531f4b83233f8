//! Error taxonomy: deterministic protocol rejections, input-validation
//! failures, and generic infrastructure failures.

use vstd::prelude::*;

verus! {

/// Errors returned by the protocol's entry points.
///
/// The protocol rejections (`RateLimited` through `Forbidden`) are
/// deterministic and never retried; `InvalidInput` covers malformed input
/// rejected before any side effect; `Internal` and `Database` stand for
/// transient infrastructure failures, safe to retry.
#[derive(Debug, Clone, PartialEq, Eq)]
pub enum ApiError {
    InvalidCredentials,
    UserNotFound,
    EventNotFound,
    InvalidInput(String),
    RateLimited,
    AlreadyVerified,
    InvalidSignature,
    OutsideTimeWindow,
    OutsideLocation,
    Unauthorized,
    Forbidden,
    Internal,
    Database,
}

impl ApiError {
    /// Stable machine-readable code for this error.
    pub fn code(&self) -> (r: &'static str)
        ensures
            r@ == self.spec_code(),
    {
        match self {
            ApiError::InvalidCredentials => "INVALID_CREDENTIALS",
            ApiError::UserNotFound => "USER_NOT_FOUND",
            ApiError::EventNotFound => "EVENT_NOT_FOUND",
            ApiError::InvalidInput(_) => "INVALID_INPUT",
            ApiError::RateLimited => "RATE_LIMITED",
            ApiError::AlreadyVerified => "ALREADY_VERIFIED",
            ApiError::InvalidSignature => "INVALID_SIGNATURE",
            ApiError::OutsideTimeWindow => "OUTSIDE_TIME_WINDOW",
            ApiError::OutsideLocation => "OUTSIDE_LOCATION",
            ApiError::Unauthorized => "UNAUTHORIZED",
            ApiError::Forbidden => "FORBIDDEN",
            ApiError::Internal => "INTERNAL_ERROR",
            ApiError::Database => "DATABASE_ERROR",
        }
    }

    /// The code each variant maps to.
    pub open spec fn spec_code(&self) -> Seq<char> {
        match self {
            ApiError::InvalidCredentials => "INVALID_CREDENTIALS"@,
            ApiError::UserNotFound => "USER_NOT_FOUND"@,
            ApiError::EventNotFound => "EVENT_NOT_FOUND"@,
            ApiError::InvalidInput(_) => "INVALID_INPUT"@,
            ApiError::RateLimited => "RATE_LIMITED"@,
            ApiError::AlreadyVerified => "ALREADY_VERIFIED"@,
            ApiError::OutsideTimeWindow => "OUTSIDE_TIME_WINDOW"@,
            ApiError::InvalidSignature => "INVALID_SIGNATURE"@,
            ApiError::OutsideLocation => "OUTSIDE_LOCATION"@,
            ApiError::Unauthorized => "UNAUTHORIZED"@,
            ApiError::Forbidden => "FORBIDDEN"@,
            ApiError::Internal => "INTERNAL_ERROR"@,
            ApiError::Database => "DATABASE_ERROR"@,
        }
    }
}

} // verus!
