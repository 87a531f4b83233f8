//! Attendance-verification protocol: proof-of-presence by a signed QR
//! challenge, privacy-preserving geofencing over a hexagonal grid,
//! per-user daily rate limiting, and an XP/level reputation engine.

pub mod codec;
pub mod crypto;
pub mod engine;
pub mod error;
pub mod hexcode;
pub mod leveling;
pub mod limiter;
pub mod location;
pub mod types;
