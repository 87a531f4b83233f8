//! Canonical signed-message encoding: event id, organizer id, an RFC 3339
//! timestamp and the nonce, concatenated in this fixed order and encoding,
//! so organizer and verifier always compute identical bytes.

use vstd::prelude::*;
use vstd::utf8::encode_utf8;

use crate::hexcode::{spec_u128_hex, u128_hex};

verus! {

/// Largest accepted Unix timestamp (the last second of year 9999), so
/// every accepted timestamp can be rendered.
pub const TIMESTAMP_MAX: i64 = 253402300799;

/// A timestamp the protocol accepts: non-negative and renderable.
pub open spec fn spec_ts_in_range(ts: i64) -> bool {
    0 <= ts <= TIMESTAMP_MAX
}

/// The RFC 3339 rendering of an in-range Unix timestamp in UTC, as the
/// calendar crate produces it; a function of the timestamp alone.
pub uninterp spec fn rfc3339_bytes_of(ts: i64) -> Seq<u8>;

/// Relies on `chrono::DateTime::<chrono::Utc>::from_timestamp` and
/// `to_rfc3339`: deterministic in the timestamp, defined on the whole
/// accepted range.
#[verifier::external_body]
fn rfc3339_bytes(ts: i64) -> (r: Vec<u8>)
    requires
        spec_ts_in_range(ts),
    ensures
        r@ == rfc3339_bytes_of(ts),
{
    chrono::DateTime::<chrono::Utc>::from_timestamp(ts, 0).unwrap().to_rfc3339().into_bytes()
}

/// The canonical byte encoding that is signed for a QR payload: 32 hex
/// digits of the event id, 32 of the organizer id, the RFC 3339 timestamp,
/// and the nonce's UTF-8 bytes, in this fixed order.
pub open spec fn spec_canonical_message(
    event_id: u128,
    organizer_id: u128,
    ts: i64,
    nonce: Seq<char>,
) -> Seq<u8> {
    spec_u128_hex(event_id) + spec_u128_hex(organizer_id) + rfc3339_bytes_of(ts) + encode_utf8(
        nonce,
    )
}

/// Build the canonical message bytes for signing or verification.
pub fn canonical_message(event_id: u128, organizer_id: u128, ts: i64, nonce: &str) -> (r: Vec<u8>)
    requires
        spec_ts_in_range(ts),
    ensures
        r@ == spec_canonical_message(event_id, organizer_id, ts, nonce@),
{
    let mut out = u128_hex(event_id);
    let mut org = u128_hex(organizer_id);
    out.append(&mut org);
    let mut tsb = rfc3339_bytes(ts);
    out.append(&mut tsb);
    let mut nb = vstd::string::StrSliceExecFns::as_bytes_vec(nonce);
    out.append(&mut nb);
    out
}

} // verus!
