use chrono::TimeZone;
use civicconnect::engine::{Engine, Event, VERIFICATION_XP};
use civicconnect::error::ApiError;
use civicconnect::leveling::LevelTable;
use civicconnect::types::VerifyRequest;

const CELL: &str = "872830828ffffff";

fn ts(hour: u32, minute: u32) -> i64 {
    chrono::Utc.with_ymd_and_hms(2025, 6, 1, hour, minute, 0).unwrap().timestamp()
}

fn table() -> LevelTable {
    LevelTable::new(vec![0, 10, 20, 100]).unwrap()
}

/// An engine with organizer 1 (level 3), a 10:00-12:00 event at CELL, and
/// attendee users 2..=6.
fn engine_with_event() -> Engine {
    let mut eng = Engine::new(table());
    eng.add_user(1, 1000).unwrap();
    eng.add_organizer(1).unwrap();
    for uid in 2..=6u128 {
        eng.add_user(uid, 0).unwrap();
    }
    eng.add_event(event(10, 1, ts(10, 0), ts(12, 0), CELL)).unwrap();
    eng
}

fn event(id: u128, organizer_id: u128, start: i64, end: i64, cell: &str) -> Event {
    Event {
        id,
        organizer_id,
        title: "Community meetup".to_string(),
        start_time: start,
        end_time: end,
        location_cell: cell.to_string(),
        capacity: Some(100),
    }
}

fn claim_from(
    qr: &civicconnect::types::QrPayload,
    cell: &str,
) -> VerifyRequest {
    VerifyRequest {
        event_id: qr.event_id,
        organizer_id: qr.organizer_id,
        timestamp: qr.timestamp,
        nonce: qr.nonce.clone(),
        signature: qr.signature.clone(),
        location_cell: cell.to_string(),
    }
}

fn far_cell() -> String {
    // A cell far from CELL: well outside any two-ring neighborhood.
    let paris = h3o::LatLng::new(48.8566, 2.3522).unwrap();
    paris.to_cell(h3o::Resolution::Seven).to_string()
}

#[test]
fn test_end_to_end_verification() {
    let mut eng = engine_with_event();

    // Organizer generates the QR at the window's start.
    let qr = eng.generate_qr(10, 1, ts(10, 0)).unwrap();
    assert_eq!(qr.event_id, 10);
    assert_eq!(qr.organizer_id, 1);
    assert_eq!(qr.nonce.len(), 64);

    // A matching claim at 11:00 succeeds with the configured base award.
    let claim = claim_from(&qr, CELL);
    let resp = eng.verify_attendance(2, &claim, ts(11, 0)).unwrap();
    assert!(resp.success);
    assert_eq!(resp.xp_awarded, VERIFICATION_XP);
    assert_eq!(resp.new_total_xp, 50);
    assert_eq!(resp.level, 2);
    assert!(resp.level_up);
    assert_eq!(eng.records.len(), 1);

    // Replaying the identical claim is rejected as already verified.
    assert_eq!(
        eng.verify_attendance(2, &claim, ts(11, 1)),
        Err(ApiError::AlreadyVerified)
    );

    // A fresh QR verified at 13:30 is outside the time window.
    let late_qr = eng.generate_qr(10, 1, ts(11, 0)).unwrap();
    let late_claim = claim_from(&late_qr, CELL);
    assert_eq!(
        eng.verify_attendance(3, &late_claim, ts(13, 30)),
        Err(ApiError::OutsideTimeWindow)
    );

    // A fresh QR with a far-away location cell is outside the geofence.
    let away_qr = eng.generate_qr(10, 1, ts(11, 0)).unwrap();
    let away_claim = claim_from(&away_qr, &far_cell());
    assert_eq!(
        eng.verify_attendance(4, &away_claim, ts(11, 5)),
        Err(ApiError::OutsideLocation)
    );
}

#[test]
fn test_replay_and_nonce_reuse() {
    let mut eng = engine_with_event();
    let qr = eng.generate_qr(10, 1, ts(10, 0)).unwrap();
    let claim = claim_from(&qr, CELL);

    eng.verify_attendance(2, &claim, ts(10, 30)).unwrap();

    // Identical claim: already verified.
    assert_eq!(
        eng.verify_attendance(2, &claim, ts(10, 31)),
        Err(ApiError::AlreadyVerified)
    );

    // A different user reusing the consumed nonce for the same event gets
    // the same error as a forged signature.
    assert_eq!(
        eng.verify_attendance(3, &claim, ts(10, 32)),
        Err(ApiError::InvalidSignature)
    );
}

#[test]
fn test_forged_signature_rejected() {
    let mut eng = engine_with_event();
    let qr = eng.generate_qr(10, 1, ts(10, 0)).unwrap();
    let mut claim = claim_from(&qr, CELL);

    // Flip one hex digit of the signature.
    let mut sig = claim.signature.into_bytes();
    sig[0] = if sig[0] == b'0' { b'1' } else { b'0' };
    claim.signature = String::from_utf8(sig).unwrap();

    assert_eq!(
        eng.verify_attendance(2, &claim, ts(10, 30)),
        Err(ApiError::InvalidSignature)
    );
}

#[test]
fn test_daily_rate_limit() {
    let mut eng = engine_with_event();
    for id in 11..=13u128 {
        eng.add_event(event(id, 1, ts(9, 0), ts(20, 0), CELL)).unwrap();
    }

    // Three successful verifications for three events on one UTC day.
    for id in 11..=13u128 {
        let qr = eng.generate_qr(id, 1, ts(10, 0)).unwrap();
        let claim = claim_from(&qr, CELL);
        eng.verify_attendance(2, &claim, ts(10, 30)).unwrap();
    }

    // The 4th attempt that day is rate limited, regardless of the event.
    let qr = eng.generate_qr(10, 1, ts(10, 0)).unwrap();
    let claim = claim_from(&qr, CELL);
    assert_eq!(
        eng.verify_attendance(2, &claim, ts(11, 0)),
        Err(ApiError::RateLimited)
    );
}

#[test]
fn test_level_progression_recorded_once() {
    let mut eng = engine_with_event();
    let qr = eng.generate_qr(10, 1, ts(10, 0)).unwrap();
    let claim = claim_from(&qr, CELL);

    // User 2 starts at 0 XP (level 0); one 50-point award crosses the
    // thresholds at 10 and 20.
    let resp = eng.verify_attendance(2, &claim, ts(10, 30)).unwrap();
    assert!(resp.level_up);
    assert_eq!(resp.level, 2);

    assert_eq!(eng.progressions.len(), 1);
    assert_eq!(eng.progressions[0].user_id, 2);
    assert_eq!(eng.progressions[0].from_level, 0);
    assert_eq!(eng.progressions[0].to_level, 2);
}

#[test]
fn test_repeated_claims_award_once() {
    let mut eng = engine_with_event();
    let qr = eng.generate_qr(10, 1, ts(10, 0)).unwrap();
    let claim = claim_from(&qr, CELL);

    let mut successes = 0;
    for attempt in 0..5 {
        match eng.verify_attendance(2, &claim, ts(10, 30) + attempt) {
            Ok(_) => successes += 1,
            Err(e) => assert_eq!(e, ApiError::AlreadyVerified),
        }
    }
    assert_eq!(successes, 1);

    let user = eng.users.iter().find(|u| u.id == 2).unwrap();
    assert_eq!(user.experience_points, 50);
    assert_eq!(eng.records.len(), 1);
}

#[test]
fn test_structural_rejections() {
    let mut eng = engine_with_event();
    let qr = eng.generate_qr(10, 1, ts(10, 0)).unwrap();

    // Unknown user.
    let claim = claim_from(&qr, CELL);
    assert_eq!(
        eng.verify_attendance(99, &claim, ts(10, 30)),
        Err(ApiError::Unauthorized)
    );

    // Unknown event.
    let mut wrong_event = claim_from(&qr, CELL);
    wrong_event.event_id = 999;
    assert_eq!(
        eng.verify_attendance(2, &wrong_event, ts(10, 30)),
        Err(ApiError::EventNotFound)
    );

    // Organizer mismatch.
    let mut wrong_org = claim_from(&qr, CELL);
    wrong_org.organizer_id = 3;
    assert_eq!(
        eng.verify_attendance(2, &wrong_org, ts(10, 30)),
        Err(ApiError::EventNotFound)
    );

    // Malformed location cell is rejected before any side effect.
    let bad_cell = claim_from(&qr, "123456");
    assert!(matches!(
        eng.verify_attendance(2, &bad_cell, ts(10, 30)),
        Err(ApiError::InvalidInput(_))
    ));

    // Malformed signature encoding likewise.
    let mut bad_sig = claim_from(&qr, CELL);
    bad_sig.signature = "xyz".to_string();
    assert!(matches!(
        eng.verify_attendance(2, &bad_sig, ts(10, 30)),
        Err(ApiError::InvalidInput(_))
    ));
    assert_eq!(eng.records.len(), 0);
}

#[test]
fn test_generate_qr_authorization() {
    let mut eng = engine_with_event();

    // Only the event's organizer may generate.
    assert_eq!(eng.generate_qr(10, 2, ts(10, 0)), Err(ApiError::Forbidden));

    // Unknown event: same answer as a foreign requester, so the response
    // does not reveal whether the event exists.
    assert_eq!(eng.generate_qr(999, 1, ts(10, 0)), Err(ApiError::Forbidden));

    // An organizer without a stored key cannot sign.
    eng.add_user(7, 1000).unwrap();
    eng.add_event(event(20, 7, ts(10, 0), ts(12, 0), CELL)).unwrap();
    assert_eq!(eng.generate_qr(20, 7, ts(10, 0)), Err(ApiError::Unauthorized));
}

#[test]
fn test_event_creation_rules() {
    let mut eng = Engine::new(table());
    eng.add_user(1, 1000).unwrap();
    eng.add_user(2, 5).unwrap();

    // Malformed cell.
    assert!(matches!(
        eng.add_event(event(1, 1, ts(10, 0), ts(12, 0), "123456")),
        Err(ApiError::InvalidInput(_))
    ));

    // Window must be coherent.
    assert!(matches!(
        eng.add_event(event(1, 1, ts(12, 0), ts(10, 0), CELL)),
        Err(ApiError::InvalidInput(_))
    ));

    // A level-0 user may not organize.
    assert_eq!(eng.add_event(event(1, 2, ts(10, 0), ts(12, 0), CELL)), Err(ApiError::Forbidden));

    // Unknown organizer.
    assert_eq!(eng.add_event(event(1, 9, ts(10, 0), ts(12, 0), CELL)), Err(ApiError::Forbidden));

    eng.add_event(event(1, 1, ts(10, 0), ts(12, 0), CELL)).unwrap();

    // Duplicate id.
    assert!(matches!(
        eng.add_event(event(1, 1, ts(10, 0), ts(12, 0), CELL)),
        Err(ApiError::InvalidInput(_))
    ));
}

#[test]
fn test_add_organizer_rules() {
    let mut eng = Engine::new(table());
    assert_eq!(eng.add_organizer(1), Err(ApiError::UserNotFound));
    eng.add_user(1, 0).unwrap();
    eng.add_organizer(1).unwrap();
    assert!(matches!(eng.add_organizer(1), Err(ApiError::InvalidInput(_))));
    assert!(eng.organizer_key(1).is_some());
    assert!(eng.organizer_key(2).is_none());
}
