//! Request and response shapes of the service's entry points. Identifiers
//! are 128-bit values, timestamps Unix seconds in UTC, and location cells
//! hexagonal-grid cell ids.

use vstd::prelude::*;

verus! {

/// Registration request.
#[derive(Debug, Clone, PartialEq, Eq)]
pub struct RegisterRequest {
    pub email: String,
    pub username: String,
    pub password: String,
}

/// Login request.
#[derive(Debug, Clone, PartialEq, Eq)]
pub struct LoginRequest {
    pub email: String,
    pub password: String,
}

/// Authentication response with a session token.
#[derive(Debug, Clone, PartialEq, Eq)]
pub struct AuthResponse {
    pub token: String,
    pub user_id: String,
    pub username: String,
    pub level: u8,
}

/// Health-check response.
#[derive(Debug, Clone, PartialEq, Eq)]
pub struct HealthResponse {
    pub status: String,
    pub version: String,
}

/// Nearby-events query: a cell id and how many neighbor rings to search.
#[derive(Debug, Clone, PartialEq, Eq)]
pub struct NearbyQuery {
    pub cell: String,
    pub rings: u8,
    pub upcoming_only: bool,
}

/// Default for `NearbyQuery::upcoming_only`.
pub fn default_true() -> (r: bool)
    ensures
        r,
{
    true
}

/// One event in a listing.
#[derive(Debug, Clone, PartialEq, Eq)]
pub struct EventSummary {
    pub id: u128,
    pub title: String,
    pub organizer_username: String,
    pub organizer_level: u8,
    pub start_time: i64,
    pub location_cell: String,
    pub attendee_count: u32,
    pub capacity: Option<u32>,
    pub tags: Vec<String>,
}

/// Nearby-events response: the events found and the cells searched.
#[derive(Debug, Clone, PartialEq, Eq)]
pub struct NearbyResponse {
    pub events: Vec<EventSummary>,
    pub cells_searched: Vec<String>,
    pub total_count: u32,
}

/// QR generation request by an organizer.
#[derive(Debug, Clone, PartialEq, Eq)]
pub struct GenerateQrRequest {
    pub event_id: u128,
}

/// The payload encoded into a QR code: the signed challenge.
#[derive(Debug, Clone, PartialEq, Eq)]
pub struct QrPayload {
    pub event_id: u128,
    pub organizer_id: u128,
    pub timestamp: i64,
    pub nonce: String,
    pub signature: String,
}

/// An attendee's verification claim.
#[derive(Debug, Clone, PartialEq, Eq)]
pub struct VerifyRequest {
    pub event_id: u128,
    pub organizer_id: u128,
    pub timestamp: i64,
    pub nonce: String,
    pub signature: String,
    pub location_cell: String,
}

/// Application state shared across request handlers.
#[derive(Clone)]
pub struct AppState {
}

/// The outcome of a successful verification.
#[derive(Debug, Clone, PartialEq, Eq)]
pub struct VerifyResponse {
    pub success: bool,
    pub xp_awarded: u32,
    pub new_total_xp: u32,
    pub level: u8,
    pub level_up: bool,
}

} // verus!
