//! Verification Engine: the per-(event, user) state machine that runs the
//! ordered checks of an attendance claim and commits the verification
//! transaction — nonce consumption, audit record, and XP award stand or
//! fall together — plus QR payload generation.

use vstd::prelude::*;
use vstd::utf8::encode_utf8;

use crate::codec::{canonical_message, spec_canonical_message, spec_ts_in_range, TIMESTAMP_MAX};
use crate::crypto::{generate_keypair, generate_nonce, hex_encode_str, pubkey_of, sig_of,
    sig_valid, sign_message, verify_signature, Signature, SigningKey, VerifyingKey};
use crate::error::ApiError;
use crate::hexcode::{hex_decode, lemma_hex_decode_encode, spec_hex_decode, spec_hex_encode};
use crate::leveling::{spec_level_of, spec_saturating_add, LevelTable};
use crate::limiter::{spec_count, spec_utc_day, utc_day, RateLimiter, MAX_DAILY_VERIFICATIONS};
use crate::location::{disk_of, grid_disk_cells, is_cell_value, parse_cell, parsed_cell_of,
    spec_valid_cell};
use crate::types::{QrPayload, VerifyRequest, VerifyResponse};

verus! {

/// Experience points awarded for one verified attendance.
pub const VERIFICATION_XP: u32 = 50;

/// Grace seconds around an event's window for claim timestamps and nonce
/// lifetime.
pub const GRACE_SECONDS: i64 = 300;

/// Ring radius of the geofence around an event's cell.
pub const GEOFENCE_RINGS: u32 = 2;

/// An event: organizer, time window, location cell, optional capacity.
#[derive(Debug, Clone, PartialEq, Eq)]
pub struct Event {
    pub id: u128,
    pub organizer_id: u128,
    pub title: String,
    pub start_time: i64,
    pub end_time: i64,
    pub location_cell: String,
    pub capacity: Option<u32>,
}

/// A user's reputation state; the level is always the pure function of the
/// XP total.
#[derive(Debug, Clone, PartialEq, Eq)]
pub struct User {
    pub id: u128,
    pub experience_points: u32,
    pub current_level: u8,
}

/// An organizer's signing keypair; the verifying key is the one derived
/// from the signing key.
pub struct OrganizerKey {
    pub user_id: u128,
    pub signing_key: SigningKey,
    pub verifying_key: VerifyingKey,
}

/// One audit record of a successful verification: immutable, append-only.
#[derive(Debug, Clone, PartialEq, Eq)]
pub struct Verification {
    pub id: u128,
    pub event_id: u128,
    pub user_id: u128,
    pub organizer_id: u128,
    pub signature: Vec<u8>,
    pub verified_at: i64,
    pub experience_awarded: u32,
    pub location_cell: String,
}

/// One audit record of a level transition.
#[derive(Debug, Clone, PartialEq, Eq)]
pub struct LevelProgression {
    pub id: u128,
    pub user_id: u128,
    pub from_level: u8,
    pub to_level: u8,
    pub reason: String,
    pub progressed_at: i64,
}

/// A consumed (event, nonce) pair, kept until the event's window (plus
/// grace) has passed.
#[derive(Debug, Clone, PartialEq, Eq)]
pub struct NonceEntry {
    pub event_id: u128,
    pub nonce: String,
    pub expires_at: i64,
}

/// Whether an event with the id exists.
pub open spec fn spec_has_event(s: Seq<Event>, id: u128) -> bool {
    exists|i: int| 0 <= i < s.len() && (#[trigger] s[i]).id == id
}

/// The index of the event with the id.
pub open spec fn spec_event_index(s: Seq<Event>, id: u128) -> int {
    choose|i: int| 0 <= i < s.len() && (#[trigger] s[i]).id == id
}

/// The event with the id.
pub open spec fn spec_event(s: Seq<Event>, id: u128) -> Event {
    s[spec_event_index(s, id)]
}

/// Whether a user with the id exists.
pub open spec fn spec_has_user(s: Seq<User>, id: u128) -> bool {
    exists|i: int| 0 <= i < s.len() && (#[trigger] s[i]).id == id
}

/// The index of the user with the id.
pub open spec fn spec_user_index(s: Seq<User>, id: u128) -> int {
    choose|i: int| 0 <= i < s.len() && (#[trigger] s[i]).id == id
}

/// The user with the id.
pub open spec fn spec_user(s: Seq<User>, id: u128) -> User {
    s[spec_user_index(s, id)]
}

/// Whether a stored keypair for the user exists.
pub open spec fn spec_has_org(s: Seq<OrganizerKey>, user_id: u128) -> bool {
    exists|i: int| 0 <= i < s.len() && (#[trigger] s[i]).user_id == user_id
}

/// The index of the stored keypair for the user.
pub open spec fn spec_org_index(s: Seq<OrganizerKey>, user_id: u128) -> int {
    choose|i: int| 0 <= i < s.len() && (#[trigger] s[i]).user_id == user_id
}

/// The stored keypair for the user.
pub open spec fn spec_org(s: Seq<OrganizerKey>, user_id: u128) -> OrganizerKey {
    s[spec_org_index(s, user_id)]
}

/// Whether a verification record for the (event, user) pair exists.
pub open spec fn spec_has_record(s: Seq<Verification>, event_id: u128, user_id: u128) -> bool {
    exists|i: int|
        0 <= i < s.len() && (#[trigger] s[i]).event_id == event_id && s[i].user_id == user_id
}

/// Whether the (event, nonce) pair has been consumed.
pub open spec fn spec_nonce_used(s: Seq<NonceEntry>, event_id: u128, nonce: Seq<char>) -> bool {
    exists|i: int|
        0 <= i < s.len() && (#[trigger] s[i]).event_id == event_id && s[i].nonce@ == nonce
}

/// Whether the (event, nonce) pair has been consumed by an entry that has
/// not yet expired.
pub open spec fn spec_nonce_used_unexpired(
    s: Seq<NonceEntry>,
    event_id: u128,
    nonce: Seq<char>,
    now: i64,
) -> bool {
    exists|i: int|
        0 <= i < s.len() && (#[trigger] s[i]).event_id == event_id && s[i].nonce@ == nonce
            && s[i].expires_at > now
}

/// A well-formed event: valid cell, coherent in-range time window.
pub open spec fn spec_event_wf(ev: Event) -> bool {
    &&& spec_valid_cell(ev.location_cell@)
    &&& 0 <= ev.start_time
    &&& ev.start_time < ev.end_time
    &&& ev.end_time <= TIMESTAMP_MAX
}

/// A well-formed stored keypair.
pub open spec fn spec_org_wf(o: OrganizerKey) -> bool {
    &&& o.signing_key.wf()
    &&& o.verifying_key.wf()
    &&& o.verifying_key@ == pubkey_of(o.signing_key@)
}

/// Event ids are pairwise distinct.
pub open spec fn spec_events_distinct(s: Seq<Event>) -> bool {
    forall|i: int, j: int|
        0 <= i < j < s.len() ==> (#[trigger] s[i]).id != (#[trigger] s[j]).id
}

/// User ids are pairwise distinct.
pub open spec fn spec_users_distinct(s: Seq<User>) -> bool {
    forall|i: int, j: int|
        0 <= i < j < s.len() ==> (#[trigger] s[i]).id != (#[trigger] s[j]).id
}

/// Stored keypairs are pairwise distinct by user.
pub open spec fn spec_orgs_distinct(s: Seq<OrganizerKey>) -> bool {
    forall|i: int, j: int|
        0 <= i < j < s.len() ==> (#[trigger] s[i]).user_id != (#[trigger] s[j]).user_id
}

/// At most one verification record per (event, user) pair.
pub open spec fn spec_records_distinct(s: Seq<Verification>) -> bool {
    forall|i: int, j: int|
        0 <= i < j < s.len() ==> !((#[trigger] s[i]).event_id == (#[trigger] s[j]).event_id
            && s[i].user_id == s[j].user_id)
}

/// At most one registry entry per (event, nonce) pair.
pub open spec fn spec_nonces_distinct(s: Seq<NonceEntry>) -> bool {
    forall|i: int, j: int|
        0 <= i < j < s.len() ==> !((#[trigger] s[i]).event_id == (#[trigger] s[j]).event_id
            && s[i].nonce@ == s[j].nonce@)
}

/// The verification engine's state: the stores it coordinates and the
/// level configuration.
pub struct Engine {
    pub table: LevelTable,
    pub events: Vec<Event>,
    pub users: Vec<User>,
    pub organizers: Vec<OrganizerKey>,
    pub records: Vec<Verification>,
    pub progressions: Vec<LevelProgression>,
    pub nonces: Vec<NonceEntry>,
    pub limiter: RateLimiter,
    pub next_audit_id: u128,
}

impl Engine {
    /// The engine's invariant: distinct keys in every store, well-formed
    /// events and keypairs, and every user's level the pure function of
    /// its XP.
    pub open spec fn wf(&self) -> bool {
        &&& self.table.wf()
        &&& spec_events_distinct(self.events@)
        &&& forall|i: int| 0 <= i < self.events@.len() ==> spec_event_wf(#[trigger] self.events@[i])
        &&& spec_users_distinct(self.users@)
        &&& forall|i: int|
            0 <= i < self.users@.len() ==> (#[trigger] self.users@[i]).current_level as int
                == spec_level_of(self.table@, self.users@[i].experience_points)
        &&& spec_orgs_distinct(self.organizers@)
        &&& forall|i: int|
            0 <= i < self.organizers@.len() ==> spec_org_wf(#[trigger] self.organizers@[i])
        &&& spec_records_distinct(self.records@)
        &&& spec_nonces_distinct(self.nonces@)
        &&& self.limiter.wf()
    }

    /// A fresh engine over a level configuration: every store empty.
    pub fn new(table: LevelTable) -> (r: Engine)
        requires
            table.wf(),
        ensures
            r.wf(),
            r.table == table,
            r.events@.len() == 0,
            r.users@.len() == 0,
            r.organizers@.len() == 0,
            r.records@.len() == 0,
            r.progressions@.len() == 0,
            r.nonces@.len() == 0,
            forall|u: u128, d: u64| spec_count(r.limiter@, u, d) == 0,
    {
        Engine {
            table,
            events: Vec::new(),
            users: Vec::new(),
            organizers: Vec::new(),
            records: Vec::new(),
            progressions: Vec::new(),
            nonces: Vec::new(),
            limiter: RateLimiter::new(),
            next_audit_id: 1,
        }
    }

    /// Add a user with an initial XP total; rejected when the id is taken.
    pub fn add_user(&mut self, id: u128, experience_points: u32) -> (r: Result<(), ApiError>)
        requires
            old(self).wf(),
        ensures
            final(self).wf(),
            final(self).table == old(self).table,
            r is Ok <==> !spec_has_user(old(self).users@, id),
            match r {
                Ok(()) => {
                    &&& !spec_has_user(old(self).users@, id)
                    &&& final(self).users@.len() == old(self).users@.len() + 1
                    &&& final(self).users@.subrange(0, old(self).users@.len() as int) == old(
                        self,
                    ).users@
                    &&& spec_has_user(final(self).users@, id)
                    &&& spec_user(final(self).users@, id).experience_points == experience_points
                    &&& spec_user(final(self).users@, id).current_level as int == spec_level_of(
                        old(self).table@,
                        experience_points,
                    )
                    &&& forall|x: u128|
                        x != id ==> (spec_has_user(final(self).users@, x) <==> spec_has_user(
                            old(self).users@,
                            x,
                        ))
                    &&& forall|x: u128|
                        x != id && spec_has_user(old(self).users@, x) ==> spec_user(
                            final(self).users@,
                            x,
                        ) == spec_user(old(self).users@, x)
                    &&& final(self).events == old(self).events
                    &&& final(self).organizers == old(self).organizers
                    &&& final(self).records == old(self).records
                    &&& final(self).progressions == old(self).progressions
                    &&& final(self).nonces == old(self).nonces
                    &&& final(self).limiter == old(self).limiter
                    &&& final(self).next_audit_id == old(self).next_audit_id
                },
                Err(e) => {
                    &&& e matches ApiError::InvalidInput(_)
                    &&& spec_has_user(old(self).users@, id)
                    &&& *final(self) == *old(self)
                },
            },
    {
        if find_user(&self.users, id).is_some() {
            return Err(ApiError::InvalidInput(String::from_str("user id taken")));
        }
        let current_level = self.table.level_for(experience_points);
        let u = User { id, experience_points, current_level };
        self.users.push(u);
        proof {
            lemma_user_push(old(self).users@, self.users@, u);
        }
        Ok(())
    }

    /// Generate and store a signing keypair for an existing user; rejected
    /// when the user is unknown or already keyed.
    pub fn add_organizer(&mut self, user_id: u128) -> (r: Result<(), ApiError>)
        requires
            old(self).wf(),
        ensures
            final(self).wf(),
            r is Ok <==> (spec_has_user(old(self).users@, user_id) && !spec_has_org(
                old(self).organizers@,
                user_id,
            )),
            match r {
                Ok(()) => {
                    &&& spec_has_user(old(self).users@, user_id)
                    &&& !spec_has_org(old(self).organizers@, user_id)
                    &&& spec_has_org(final(self).organizers@, user_id)
                    &&& spec_org_wf(spec_org(final(self).organizers@, user_id))
                    &&& forall|x: u128|
                        x != user_id ==> (spec_has_org(final(self).organizers@, x)
                            <==> spec_has_org(old(self).organizers@, x))
                    &&& forall|x: u128|
                        x != user_id && spec_has_org(old(self).organizers@, x) ==> spec_org(
                            final(self).organizers@,
                            x,
                        ) == spec_org(old(self).organizers@, x)
                    &&& final(self).events == old(self).events
                    &&& final(self).users == old(self).users
                    &&& final(self).records == old(self).records
                    &&& final(self).progressions == old(self).progressions
                    &&& final(self).nonces == old(self).nonces
                    &&& final(self).limiter == old(self).limiter
                    &&& final(self).table == old(self).table
                    &&& final(self).next_audit_id == old(self).next_audit_id
                },
                Err(e) => {
                    &&& *final(self) == *old(self)
                    &&& (e == ApiError::UserNotFound <==> !spec_has_user(old(self).users@, user_id))
                    &&& (e matches ApiError::InvalidInput(_) <==> (spec_has_user(
                        old(self).users@,
                        user_id,
                    ) && spec_has_org(old(self).organizers@, user_id)))
                },
            },
    {
        if find_user(&self.users, user_id).is_none() {
            return Err(ApiError::UserNotFound);
        }
        if find_org(&self.organizers, user_id).is_some() {
            return Err(ApiError::InvalidInput(String::from_str("organizer key exists")));
        }
        let (signing_key, verifying_key) = generate_keypair();
        let o = OrganizerKey { user_id, signing_key, verifying_key };
        self.organizers.push(o);
        proof {
            lemma_org_push(old(self).organizers@, self.organizers@, self.organizers@.last());
        }
        Ok(())
    }

    /// The stored verifying key of an organizer.
    pub fn organizer_key(&self, user_id: u128) -> (r: Option<&VerifyingKey>)
        requires
            self.wf(),
        ensures
            match r {
                Some(vk) => spec_has_org(self.organizers@, user_id) && vk@ == spec_org(
                    self.organizers@,
                    user_id,
                ).verifying_key@,
                None => !spec_has_org(self.organizers@, user_id),
            },
    {
        match find_org(&self.organizers, user_id) {
            Some(i) => Some(&self.organizers[i].verifying_key),
            None => None,
        }
    }

    /// Add an event; malformed input is rejected before any side effect,
    /// and only an existing user of sufficient level may organize.
    pub fn add_event(&mut self, ev: Event) -> (r: Result<(), ApiError>)
        requires
            old(self).wf(),
        ensures
            final(self).wf(),
            r is Err ==> *final(self) == *old(self),
            (r matches Err(ApiError::InvalidInput(_))) <==> (!spec_event_wf(ev) || spec_has_event(
                old(self).events@,
                ev.id,
            )),
            r == Err::<(), ApiError>(ApiError::Forbidden) <==> (spec_event_wf(ev)
                && !spec_has_event(old(self).events@, ev.id) && !(spec_has_user(
                old(self).users@,
                ev.organizer_id,
            ) && spec_user(old(self).users@, ev.organizer_id).current_level >= 2)),
            r is Ok <==> (spec_event_wf(ev) && !spec_has_event(old(self).events@, ev.id)
                && spec_has_user(old(self).users@, ev.organizer_id) && spec_user(
                old(self).users@,
                ev.organizer_id,
            ).current_level >= 2),
            r is Ok ==> {
                &&& spec_event_wf(ev)
                &&& !spec_has_event(old(self).events@, ev.id)
                &&& spec_has_user(old(self).users@, ev.organizer_id)
                &&& spec_user(old(self).users@, ev.organizer_id).current_level >= 2
                &&& final(self).events@.len() == old(self).events@.len() + 1
                &&& final(self).events@.subrange(0, old(self).events@.len() as int) == old(
                    self,
                ).events@
                &&& spec_has_event(final(self).events@, ev.id)
                &&& spec_event(final(self).events@, ev.id) == ev
                &&& forall|x: u128|
                    x != ev.id ==> (spec_has_event(final(self).events@, x) <==> spec_has_event(
                        old(self).events@,
                        x,
                    ))
                &&& forall|x: u128|
                    x != ev.id && spec_has_event(old(self).events@, x) ==> spec_event(
                        final(self).events@,
                        x,
                    ) == spec_event(old(self).events@, x)
                &&& final(self).users == old(self).users
                &&& final(self).organizers == old(self).organizers
                &&& final(self).records == old(self).records
                &&& final(self).progressions == old(self).progressions
                &&& final(self).nonces == old(self).nonces
                &&& final(self).limiter == old(self).limiter
                &&& final(self).table == old(self).table
                &&& final(self).next_audit_id == old(self).next_audit_id
            },
    {
        let shape_ok = is_event_shape_ok(&ev);
        if !shape_ok {
            return Err(ApiError::InvalidInput(String::from_str("malformed event")));
        }
        if find_event(&self.events, ev.id).is_some() {
            return Err(ApiError::InvalidInput(String::from_str("event id taken")));
        }
        let organizer_ok = match find_user(&self.users, ev.organizer_id) {
            Some(i) => self.users[i].current_level >= 2,
            None => false,
        };
        if !organizer_ok {
            return Err(ApiError::Forbidden);
        }
        let ghost ev0 = ev;
        self.events.push(ev);
        proof {
            lemma_event_push(old(self).events@, self.events@, ev0);
        }
        Ok(())
    }
}

/// A structurally valid claim: in-range timestamp, 64 hex digits of
/// nonce, 128 hex digits of signature, well-formed location cell.
pub open spec fn spec_claim_shape_ok(claim: VerifyRequest) -> bool {
    &&& spec_ts_in_range(claim.timestamp)
    &&& spec_hex_decode(encode_utf8(claim.nonce@)) matches Some(b) && b.len() == 32
    &&& spec_hex_decode(encode_utf8(claim.signature@)) matches Some(b) && b.len() == 64
    &&& spec_valid_cell(claim.location_cell@)
}

/// The signature bytes a structurally valid claim carries.
pub open spec fn spec_claim_sig_bytes(claim: VerifyRequest) -> Seq<u8> {
    spec_hex_decode(encode_utf8(claim.signature@)).unwrap()
}

/// Whether a timestamp lies within the event's window, give or take the
/// grace period.
pub open spec fn spec_within_window(ev: Event, ts: i64) -> bool {
    ev.start_time - GRACE_SECONDS <= ts < ev.end_time + GRACE_SECONDS
}

/// The temporal check: both the claim's signed timestamp and the moment
/// of verification lie within the event's window plus grace.
pub open spec fn spec_timely(ev: Event, ts: i64, now: i64) -> bool {
    spec_within_window(ev, ts) && spec_within_window(ev, now)
}

/// Whether a claimed cell lies within the geofence: the event's cell or
/// its neighborhood within the configured rings.
pub open spec fn spec_within_geofence(ev: Event, cell: Seq<char>) -> bool {
    parsed_cell_of(cell) matches Some(d) && disk_of(
        parsed_cell_of(ev.location_cell@).unwrap(),
        GEOFENCE_RINGS as int,
    ).contains(d)
}

impl Engine {
    /// Structural check: the claim names a known event whose stored
    /// organizer matches.
    pub open spec fn spec_event_ok(&self, claim: VerifyRequest) -> bool {
        &&& spec_has_event(self.events@, claim.event_id)
        &&& spec_event(self.events@, claim.event_id).organizer_id == claim.organizer_id
    }

    /// Cryptographic check: the organizer has a stored key and the claim's
    /// signature verifies over the canonical message.
    pub open spec fn spec_signature_ok(&self, claim: VerifyRequest) -> bool {
        &&& spec_has_org(self.organizers@, claim.organizer_id)
        &&& sig_valid(
            spec_org(self.organizers@, claim.organizer_id).verifying_key@,
            spec_canonical_message(
                claim.event_id,
                claim.organizer_id,
                claim.timestamp,
                claim.nonce@,
            ),
            spec_claim_sig_bytes(claim),
        )
    }

    /// The checks before the replay and signature stage.
    pub open spec fn spec_pre_sig_ok(&self, user_id: u128, claim: VerifyRequest, now: i64) -> bool {
        &&& spec_claim_shape_ok(claim)
        &&& spec_has_user(self.users@, user_id)
        &&& self.spec_event_ok(claim)
        &&& !spec_has_record(self.records@, claim.event_id, user_id)
        &&& spec_count(self.limiter@, user_id, spec_utc_day(now)) < MAX_DAILY_VERIFICATIONS
    }

    /// Whether every check accepts the claim.
    pub open spec fn spec_accepted(&self, user_id: u128, claim: VerifyRequest, now: i64) -> bool {
        &&& self.spec_pre_sig_ok(user_id, claim, now)
        &&& !spec_nonce_used(self.nonces@, claim.event_id, claim.nonce@)
        &&& self.spec_signature_ok(claim)
        &&& spec_timely(spec_event(self.events@, claim.event_id), claim.timestamp, now)
        &&& spec_within_geofence(spec_event(self.events@, claim.event_id), claim.location_cell@)
    }

    /// Generate the signed QR payload for an event; only the event's
    /// organizer may generate, and only with a stored signing key. An
    /// unknown event and a foreign requester draw the same `Forbidden`, so
    /// the answer does not tell a non-organizer whether an event exists.
    pub fn generate_qr(&self, event_id: u128, requesting_user: u128, now: i64) -> (r: Result<
        QrPayload,
        ApiError,
    >)
        requires
            self.wf(),
            spec_ts_in_range(now),
        ensures
            r == Err::<QrPayload, ApiError>(ApiError::Forbidden) <==> !(spec_has_event(
                self.events@,
                event_id,
            ) && spec_event(self.events@, event_id).organizer_id == requesting_user),
            r == Err::<QrPayload, ApiError>(ApiError::Unauthorized) <==> (spec_has_event(
                self.events@,
                event_id,
            ) && spec_event(self.events@, event_id).organizer_id == requesting_user
                && !spec_has_org(self.organizers@, requesting_user)),
            r is Ok <==> (spec_has_event(self.events@, event_id) && spec_event(
                self.events@,
                event_id,
            ).organizer_id == requesting_user && spec_has_org(self.organizers@, requesting_user)),
            r matches Ok(p) ==> {
                let sk = spec_org(self.organizers@, requesting_user).signing_key@;
                let msg = spec_canonical_message(event_id, requesting_user, now, p.nonce@);
                &&& p.event_id == event_id
                &&& p.organizer_id == requesting_user
                &&& p.timestamp == now
                &&& spec_hex_decode(encode_utf8(p.nonce@)) matches Some(b) && b.len() == 32
                &&& encode_utf8(p.signature@) == spec_hex_encode(sig_of(sk, msg))
                &&& spec_hex_decode(encode_utf8(p.signature@)) == Some(sig_of(sk, msg))
                &&& sig_of(sk, msg).len() == 64
                &&& sig_valid(pubkey_of(sk), msg, sig_of(sk, msg))
            },
    {
        let ei = match find_event(&self.events, event_id) {
            Some(i) => i,
            None => {
                return Err(ApiError::Forbidden);
            },
        };
        if self.events[ei].organizer_id != requesting_user {
            return Err(ApiError::Forbidden);
        }
        let oi = match find_org(&self.organizers, requesting_user) {
            Some(i) => i,
            None => {
                return Err(ApiError::Unauthorized);
            },
        };
        let nonce = generate_nonce();
        let msg = canonical_message(event_id, requesting_user, now, nonce.as_str());
        let sig = sign_message(&self.organizers[oi].signing_key, msg.as_slice());
        let signature = hex_encode_str(sig.bytes().as_slice());
        proof {
            lemma_hex_decode_encode(sig@);
        }
        Ok(QrPayload { event_id, organizer_id: requesting_user, timestamp: now, nonce, signature })
    }

    /// Verify an attendance claim: the ordered checks, first failure
    /// short-circuiting with no side effect, and on acceptance the commit
    /// of nonce consumption, audit record, XP award, level progression and
    /// rate counter, all together.
    pub fn verify_attendance(&mut self, user_id: u128, claim: &VerifyRequest, now: i64) -> (r:
        Result<VerifyResponse, ApiError>)
        requires
            old(self).wf(),
            spec_ts_in_range(now),
        ensures
            final(self).wf(),
            r is Err ==> *final(self) == *old(self),
            (r matches Err(ApiError::InvalidInput(_))) <==> !spec_claim_shape_ok(*claim),
            r == Err::<VerifyResponse, ApiError>(ApiError::Unauthorized) <==> (spec_claim_shape_ok(
                *claim,
            ) && !spec_has_user(old(self).users@, user_id)),
            r == Err::<VerifyResponse, ApiError>(ApiError::EventNotFound) <==> (spec_claim_shape_ok(
                *claim,
            ) && spec_has_user(old(self).users@, user_id) && !old(self).spec_event_ok(*claim)),
            r == Err::<VerifyResponse, ApiError>(ApiError::AlreadyVerified) <==> (
            spec_claim_shape_ok(*claim) && spec_has_user(old(self).users@, user_id) && old(
                self,
            ).spec_event_ok(*claim) && spec_has_record(
                old(self).records@,
                claim.event_id,
                user_id,
            )),
            r == Err::<VerifyResponse, ApiError>(ApiError::RateLimited) <==> (spec_claim_shape_ok(
                *claim,
            ) && spec_has_user(old(self).users@, user_id) && old(self).spec_event_ok(*claim)
                && !spec_has_record(old(self).records@, claim.event_id, user_id) && spec_count(
                old(self).limiter@,
                user_id,
                spec_utc_day(now),
            ) >= MAX_DAILY_VERIFICATIONS),
            r == Err::<VerifyResponse, ApiError>(ApiError::InvalidSignature) <==> (old(
                self,
            ).spec_pre_sig_ok(user_id, *claim, now) && (spec_nonce_used(
                old(self).nonces@,
                claim.event_id,
                claim.nonce@,
            ) || !old(self).spec_signature_ok(*claim))),
            r == Err::<VerifyResponse, ApiError>(ApiError::OutsideTimeWindow) <==> (old(
                self,
            ).spec_pre_sig_ok(user_id, *claim, now) && !spec_nonce_used(
                old(self).nonces@,
                claim.event_id,
                claim.nonce@,
            ) && old(self).spec_signature_ok(*claim) && !spec_timely(
                spec_event(old(self).events@, claim.event_id),
                claim.timestamp,
                now,
            )),
            r == Err::<VerifyResponse, ApiError>(ApiError::OutsideLocation) <==> (old(
                self,
            ).spec_pre_sig_ok(user_id, *claim, now) && !spec_nonce_used(
                old(self).nonces@,
                claim.event_id,
                claim.nonce@,
            ) && old(self).spec_signature_ok(*claim) && spec_timely(
                spec_event(old(self).events@, claim.event_id),
                claim.timestamp,
                now,
            ) && !spec_within_geofence(
                spec_event(old(self).events@, claim.event_id),
                claim.location_cell@,
            )),
            r is Ok <==> old(self).spec_accepted(user_id, *claim, now),
            r matches Ok(resp) ==> {
                let old_xp = spec_user(old(self).users@, user_id).experience_points;
                let new_xp = spec_saturating_add(old_xp, VERIFICATION_XP);
                let day = spec_utc_day(now);
                &&& resp.success
                &&& resp.xp_awarded == VERIFICATION_XP
                &&& resp.new_total_xp == new_xp
                &&& resp.level as int == spec_level_of(old(self).table@, new_xp)
                &&& resp.level_up == (spec_level_of(old(self).table@, new_xp) > spec_level_of(
                    old(self).table@,
                    old_xp,
                ))
                &&& spec_has_user(final(self).users@, user_id)
                &&& spec_user(final(self).users@, user_id).id == user_id
                &&& spec_user(final(self).users@, user_id).experience_points == new_xp
                &&& spec_user(final(self).users@, user_id).current_level == resp.level
                &&& forall|x: u128|
                    x != user_id ==> (spec_has_user(final(self).users@, x) <==> spec_has_user(
                        old(self).users@,
                        x,
                    ))
                &&& forall|x: u128|
                    x != user_id && spec_has_user(old(self).users@, x) ==> spec_user(
                        final(self).users@,
                        x,
                    ) == spec_user(old(self).users@, x)
                &&& final(self).records@.len() == old(self).records@.len() + 1
                &&& final(self).records@.subrange(0, old(self).records@.len() as int) == old(
                    self,
                ).records@
                &&& ({
                    let rec = final(self).records@.last();
                    &&& rec.id == old(self).next_audit_id
                    &&& rec.event_id == claim.event_id
                    &&& rec.user_id == user_id
                    &&& rec.organizer_id == claim.organizer_id
                    &&& rec.signature@ == spec_claim_sig_bytes(*claim)
                    &&& rec.verified_at == now
                    &&& rec.experience_awarded == VERIFICATION_XP
                    &&& rec.location_cell@ == claim.location_cell@
                })
                &&& resp.level_up ==> ({
                    let p = final(self).progressions@.last();
                    &&& final(self).progressions@.len() == old(self).progressions@.len() + 1
                    &&& final(self).progressions@.subrange(
                        0,
                        old(self).progressions@.len() as int,
                    ) == old(self).progressions@
                    &&& p.id == old(self).next_audit_id
                    &&& p.user_id == user_id
                    &&& p.from_level as int == spec_level_of(old(self).table@, old_xp)
                    &&& p.to_level == resp.level
                    &&& p.reason@ == "verification"@
                    &&& p.progressed_at == now
                })
                &&& !resp.level_up ==> final(self).progressions@ == old(self).progressions@
                &&& forall|e2: u128, n2: Seq<char>|
                    spec_nonce_used(final(self).nonces@, e2, n2) <==> ((e2 == claim.event_id && n2
                        == claim.nonce@) || spec_nonce_used_unexpired(
                        old(self).nonces@,
                        e2,
                        n2,
                        now,
                    ))
                &&& spec_count(final(self).limiter@, user_id, day) == spec_count(
                    old(self).limiter@,
                    user_id,
                    day,
                ) + 1
                &&& forall|u2: u128, d2: u64|
                    !(u2 == user_id && d2 == day) ==> spec_count(final(self).limiter@, u2, d2)
                        == spec_count(old(self).limiter@, u2, d2)
                &&& final(self).events == old(self).events
                &&& final(self).organizers == old(self).organizers
                &&& final(self).table == old(self).table
                &&& final(self).next_audit_id == (if old(self).next_audit_id == u128::MAX {
                    u128::MAX
                } else {
                    (old(self).next_audit_id + 1) as u128
                })
            },
    {
        // Input validation, before any side effect: fail closed on
        // anything malformed.
        let ts_ok = claim.timestamp >= 0 && claim.timestamp <= TIMESTAMP_MAX;
        let nonce_bytes_opt = hex_decode(claim.nonce.as_str().as_bytes());
        let nonce_ok = match &nonce_bytes_opt {
            Some(b) => b.len() == 32,
            None => false,
        };
        let sig_bytes_opt = hex_decode(claim.signature.as_str().as_bytes());
        let sig_shape_ok = match &sig_bytes_opt {
            Some(b) => b.len() == 64,
            None => false,
        };
        let cell_ok = crate::location::is_valid_cell(claim.location_cell.as_str());
        if !(ts_ok && nonce_ok && sig_shape_ok && cell_ok) {
            return Err(ApiError::InvalidInput(String::from_str("malformed claim")));
        }
        let sig_bytes = match sig_bytes_opt {
            Some(b) => b,
            None => {
                return Err(ApiError::InvalidInput(String::from_str("malformed claim")));
            },
        };
        let sig = match Signature::from_bytes(sig_bytes) {
            Some(s) => s,
            None => {
                return Err(ApiError::InvalidInput(String::from_str("malformed claim")));
            },
        };

        // The attendee must be a known user.
        let ui = match find_user(&self.users, user_id) {
            Some(i) => i,
            None => {
                return Err(ApiError::Unauthorized);
            },
        };

        // Structural: known, active event whose organizer matches.
        let ei = match find_event(&self.events, claim.event_id) {
            Some(i) => i,
            None => {
                return Err(ApiError::EventNotFound);
            },
        };
        proof {
            assert(spec_event_wf(self.events@[ei as int]));
        }
        let ev_start = self.events[ei].start_time;
        let ev_end = self.events[ei].end_time;
        if self.events[ei].organizer_id != claim.organizer_id {
            return Err(ApiError::EventNotFound);
        }

        // Duplicate: at most one success per (event, user).
        if has_record_exec(&self.records, claim.event_id, user_id) {
            return Err(ApiError::AlreadyVerified);
        }

        // Rate limit: counted per user and UTC day.
        let day = utc_day(now);
        if self.limiter.count_for(user_id, day) >= MAX_DAILY_VERIFICATIONS {
            return Err(ApiError::RateLimited);
        }

        // Replay and signature: deliberately one error for both, so a
        // caller cannot distinguish a replay from a forgery.
        let replayed = nonce_used_exec(&self.nonces, claim.event_id, &claim.nonce);
        let signature_good = if replayed {
            false
        } else {
            match find_org(&self.organizers, claim.organizer_id) {
                Some(oi) => {
                    let msg = canonical_message(
                        claim.event_id,
                        claim.organizer_id,
                        claim.timestamp,
                        claim.nonce.as_str(),
                    );
                    verify_signature(&self.organizers[oi].verifying_key, msg.as_slice(), &sig)
                },
                None => false,
            }
        };
        if replayed || !signature_good {
            return Err(ApiError::InvalidSignature);
        }

        // Temporal: the claim's signed timestamp and the moment of
        // verification both within the window plus grace.
        if !(claim.timestamp >= ev_start - GRACE_SECONDS && claim.timestamp < ev_end
            + GRACE_SECONDS && now >= ev_start - GRACE_SECONDS && now < ev_end + GRACE_SECONDS) {
            return Err(ApiError::OutsideTimeWindow);
        }

        // Spatial: the claimed cell within the event's geofence.
        let evc = match parse_cell(self.events[ei].location_cell.as_str()) {
            Some(c) => c,
            None => {
                return Err(ApiError::OutsideLocation);
            },
        };
        let cd = match parse_cell(claim.location_cell.as_str()) {
            Some(c) => c,
            None => {
                return Err(ApiError::OutsideLocation);
            },
        };
        if !cell_in_disk(evc, cd) {
            return Err(ApiError::OutsideLocation);
        }

        // Commit: nonce consumption, audit record, XP award and rate
        // counter stand or fall together.
        let award = self.table.apply_award(self.users[ui].experience_points, VERIFICATION_XP);
        let expires_at = ev_end + GRACE_SECONDS;
        consume_nonce(&mut self.nonces, claim.event_id, claim.nonce.clone(), expires_at, now);
        let rec_sig = vstd::slice::slice_to_vec(sig.bytes().as_slice());
        let rec = Verification {
            id: self.next_audit_id,
            event_id: claim.event_id,
            user_id,
            organizer_id: claim.organizer_id,
            signature: rec_sig,
            verified_at: now,
            experience_awarded: VERIFICATION_XP,
            location_cell: claim.location_cell.clone(),
        };
        let ghost records0 = self.records@;
        self.records.push(rec);
        proof {
            lemma_record_push(records0, self.records@, self.records@.last());
        }
        let ghost users0 = self.users@;
        self.users[ui].experience_points = award.new_total_xp;
        self.users[ui].current_level = award.level;
        proof {
            let u_fin = User {
                id: user_id,
                experience_points: award.new_total_xp,
                current_level: award.level,
            };
            assert(self.users@ =~= users0.update(ui as int, u_fin));
            lemma_user_update(users0, self.users@, ui as int, u_fin);
        }
        if award.level_up {
            let prog = LevelProgression {
                id: self.next_audit_id,
                user_id,
                from_level: award.from_level,
                to_level: award.level,
                reason: String::from_str("verification"),
                progressed_at: now,
            };
            self.progressions.push(prog);
        }
        self.limiter.record(user_id, day);
        if self.next_audit_id < u128::MAX {
            self.next_audit_id = self.next_audit_id + 1;
        }
        Ok(
            VerifyResponse {
                success: true,
                xp_awarded: VERIFICATION_XP,
                new_total_xp: award.new_total_xp,
                level: award.level,
                level_up: award.level_up,
            },
        )
    }
}

/// Law: only one verification per (event, user) pair can ever succeed.
/// Once a record for the pair exists — and a successful verification
/// writes one — no state accepts another claim for it, whatever the claim
/// holds; it is rejected as already verified.
pub proof fn lemma_single_success(s: Engine, user_id: u128, claim: VerifyRequest, now: i64)
    requires
        spec_has_record(s.records@, claim.event_id, user_id),
    ensures
        !s.spec_accepted(user_id, claim, now),
{
}

/// Whether a record for the (event, user) pair exists.
fn has_record_exec(records: &Vec<Verification>, event_id: u128, user_id: u128) -> (r: bool)
    ensures
        r == spec_has_record(records@, event_id, user_id),
{
    let n = records.len();
    let mut i: usize = 0;
    while i < n
        invariant
            n == records@.len(),
            0 <= i <= n,
            forall|j: int|
                0 <= j < i ==> !((#[trigger] records@[j]).event_id == event_id && records@[j].user_id
                    == user_id),
        decreases n - i,
    {
        if records[i].event_id == event_id && records[i].user_id == user_id {
            return true;
        }
        i = i + 1;
    }
    false
}

/// Whether the (event, nonce) pair is in the registry.
fn nonce_used_exec(nonces: &Vec<NonceEntry>, event_id: u128, nonce: &String) -> (r: bool)
    ensures
        r == spec_nonce_used(nonces@, event_id, nonce@),
{
    let n = nonces.len();
    let mut i: usize = 0;
    while i < n
        invariant
            n == nonces@.len(),
            0 <= i <= n,
            forall|j: int|
                0 <= j < i ==> !((#[trigger] nonces@[j]).event_id == event_id && nonces@[j].nonce@
                    == nonce@),
        decreases n - i,
    {
        if nonces[i].event_id == event_id && nonces[i].nonce.eq(nonce) {
            return true;
        }
        i = i + 1;
    }
    false
}

/// Whether a cell lies within the configured geofence rings of a center.
fn cell_in_disk(center: u64, cell: u64) -> (r: bool)
    requires
        is_cell_value(center),
    ensures
        r == disk_of(center, GEOFENCE_RINGS as int).contains(cell),
{
    let disk = grid_disk_cells(center, GEOFENCE_RINGS);
    let n = disk.len();
    let mut i: usize = 0;
    while i < n
        invariant
            n == disk@.len(),
            0 <= i <= n,
            forall|j: int| 0 <= j < i ==> #[trigger] disk@[j] != cell,
            forall|j: int|
                0 <= j < disk@.len() ==> disk_of(center, GEOFENCE_RINGS as int).contains(
                    #[trigger] disk@[j],
                ),
            forall|d: u64| #[trigger]
                disk_of(center, GEOFENCE_RINGS as int).contains(d) ==> disk@.contains(d),
        decreases n - i,
    {
        if disk[i] == cell {
            return true;
        }
        i = i + 1;
    }
    proof {
        if disk_of(center, GEOFENCE_RINGS as int).contains(cell) {
            assert(disk@.contains(cell));
            let j = choose|j: int| 0 <= j < disk@.len() && disk@[j] == cell;
            assert(false);
        }
    }
    false
}

/// Consume a nonce: lazily prune expired registry entries, then record
/// the pair; afterwards exactly the unexpired old pairs and the new pair
/// are consumed.
fn consume_nonce(
    nonces: &mut Vec<NonceEntry>,
    event_id: u128,
    nonce: String,
    expires_at: i64,
    now: i64,
)
    requires
        spec_nonces_distinct(old(nonces)@),
        !spec_nonce_used(old(nonces)@, event_id, nonce@),
        expires_at > now,
    ensures
        spec_nonces_distinct(final(nonces)@),
        forall|e2: u128, n2: Seq<char>|
            spec_nonce_used(final(nonces)@, e2, n2) <==> ((e2 == event_id && n2 == nonce@)
                || spec_nonce_used_unexpired(old(nonces)@, e2, n2, now)),
{
    let ghost s0 = nonces@;
    let n = nonces.len();
    let mut kept: Vec<NonceEntry> = Vec::new();
    let ghost mut srcs: Seq<int> = Seq::empty();
    let mut i: usize = 0;
    while i < n
        invariant
            s0 == nonces@,
            n == s0.len(),
            0 <= i <= n,
            srcs.len() == kept@.len(),
            forall|m: int|
                0 <= m < srcs.len() ==> 0 <= #[trigger] srcs[m] < i && kept@[m] == s0[srcs[m]]
                    && s0[srcs[m]].expires_at > now,
            forall|m1: int, m2: int| 0 <= m1 < m2 < srcs.len() ==> srcs[m1] < srcs[m2],
            forall|j: int|
                0 <= j < i && s0[j].expires_at > now ==> exists|m: int|
                    0 <= m < srcs.len() && #[trigger] srcs[m] == j,
        decreases n - i,
    {
        if nonces[i].expires_at > now {
            let e = &nonces[i];
            kept.push(
                NonceEntry {
                    event_id: e.event_id,
                    nonce: e.nonce.clone(),
                    expires_at: e.expires_at,
                },
            );
            proof {
                assert(kept@.last() == s0[i as int]);
                let ghost srcs_old = srcs;
                srcs = srcs.push(i as int);
                assert(srcs[srcs.len() - 1] == i as int);
                assert forall|j: int| 0 <= j < i && s0[j].expires_at > now implies exists|m: int|
                    0 <= m < srcs.len() && #[trigger] srcs[m] == j by {
                    let m0 = choose|m0: int| 0 <= m0 < srcs_old.len() && #[trigger] srcs_old[m0]
                        == j;
                    assert(srcs[m0] == j);
                }
            }
        }
        i = i + 1;
    }
    let ghost pruned = kept@;
    kept.push(NonceEntry { event_id, nonce, expires_at });
    *nonces = kept;
    proof {
        let sf = nonces@;
        let last = sf.len() - 1;
        assert(sf[last].event_id == event_id && sf[last].nonce@ == nonce@ && sf[last].expires_at
            == expires_at);
        assert(spec_nonces_distinct(old(nonces)@));
        assert forall|m: int| 0 <= m < last implies !((#[trigger] sf[m]).event_id == event_id
            && sf[m].nonce@ == nonce@) by {
            assert(sf[m] == s0[srcs[m]]);
            if sf[m].event_id == event_id && sf[m].nonce@ == nonce@ {
                assert(spec_nonce_used(s0, event_id, nonce@));
                assert(false);
            }
        }
        assert forall|m1: int, m2: int| 0 <= m1 < m2 < sf.len() implies !((#[trigger] sf[m1]).event_id
            == (#[trigger] sf[m2]).event_id && sf[m1].nonce@ == sf[m2].nonce@) by {
            if m2 < last {
                assert(sf[m1] == s0[srcs[m1]]);
                assert(sf[m2] == s0[srcs[m2]]);
                assert(srcs[m1] < srcs[m2]);
            }
        }
        assert forall|e2: u128, n2: Seq<char>| spec_nonce_used(sf, e2, n2) implies ((e2 == event_id
            && n2 == nonce@) || spec_nonce_used_unexpired(s0, e2, n2, now)) by {
            let m = choose|m: int| 0 <= m < sf.len() && (#[trigger] sf[m]).event_id == e2
                && sf[m].nonce@ == n2;
            if m < last {
                assert(sf[m] == s0[srcs[m]]);
                assert(0 <= srcs[m] < s0.len() && s0[srcs[m]].event_id == e2 && s0[srcs[m]].nonce@
                    == n2 && s0[srcs[m]].expires_at > now);
            }
        }
        assert forall|e2: u128, n2: Seq<char>| spec_nonce_used_unexpired(s0, e2, n2, now) implies
            spec_nonce_used(sf, e2, n2) by {
            let j = choose|j: int| 0 <= j < s0.len() && (#[trigger] s0[j]).event_id == e2
                && s0[j].nonce@ == n2 && s0[j].expires_at > now;
            let m = choose|m: int| 0 <= m < srcs.len() && #[trigger] srcs[m] == j;
            assert(sf[m] == s0[j]);
        }
        assert(spec_nonce_used(sf, event_id, nonce@));
    }
}

/// Appending a record for a fresh (event, user) pair keeps records unique
/// per pair and leaves every other pair's membership unchanged.
proof fn lemma_record_push(s0: Seq<Verification>, s1: Seq<Verification>, v: Verification)
    requires
        !spec_has_record(s0, v.event_id, v.user_id),
        s1 == s0.push(v),
        spec_records_distinct(s0),
    ensures
        spec_records_distinct(s1),
        spec_has_record(s1, v.event_id, v.user_id),
        forall|e2: u128, u2: u128|
            !(e2 == v.event_id && u2 == v.user_id) ==> (spec_has_record(s1, e2, u2)
                <==> spec_has_record(s0, e2, u2)),
{
    let last = s1.len() - 1;
    assert(s1[last] == v);
    assert(spec_has_record(s1, v.event_id, v.user_id));
    assert forall|e2: u128, u2: u128| !(e2 == v.event_id && u2 == v.user_id) implies (
    spec_has_record(s1, e2, u2) <==> spec_has_record(s0, e2, u2)) by {
        if spec_has_record(s0, e2, u2) {
            let j = choose|j: int|
                0 <= j < s0.len() && (#[trigger] s0[j]).event_id == e2 && s0[j].user_id == u2;
            assert(s1[j] == s0[j]);
            assert(spec_has_record(s1, e2, u2));
        }
        if spec_has_record(s1, e2, u2) {
            let j = choose|j: int|
                0 <= j < s1.len() && (#[trigger] s1[j]).event_id == e2 && s1[j].user_id == u2;
            assert(j != last);
            assert(s0[j] == s1[j]);
            assert(spec_has_record(s0, e2, u2));
        }
    }
}

/// Updating the user at its own index keeps ids distinct and changes no
/// other user's lookup.
proof fn lemma_user_update(s0: Seq<User>, s1: Seq<User>, i: int, u: User)
    requires
        0 <= i < s0.len(),
        s0[i].id == u.id,
        s1 == s0.update(i, u),
        spec_users_distinct(s0),
    ensures
        spec_users_distinct(s1),
        spec_has_user(s1, u.id),
        spec_user(s1, u.id) == u,
        forall|x: u128| x != u.id ==> (spec_has_user(s1, x) <==> spec_has_user(s0, x)),
        forall|x: u128|
            x != u.id && spec_has_user(s0, x) ==> spec_user(s1, x) == spec_user(s0, x),
{
    assert(s1[i] == u);
    assert(spec_has_user(s1, u.id));
    let i1 = spec_user_index(s1, u.id);
    if i1 != i {
        assert(s0[i1] == s1[i1]);
        assert(false);
    }
    assert forall|x: u128| x != u.id && spec_has_user(s0, x) implies spec_has_user(s1, x)
        && spec_user(s1, x) == spec_user(s0, x) by {
        let j = spec_user_index(s0, x);
        assert(j != i);
        assert(s1[j] == s0[j]);
        assert(spec_has_user(s1, x));
        let j1 = spec_user_index(s1, x);
        if j1 != j {
            assert(false);
        }
    }
    assert forall|x: u128| x != u.id && spec_has_user(s1, x) implies spec_has_user(s0, x) by {
        let j1 = spec_user_index(s1, x);
        assert(j1 != i);
        assert(s0[j1] == s1[j1]);
    }
}

/// Whether an event's fields are well formed.
fn is_event_shape_ok(ev: &Event) -> (r: bool)
    ensures
        r == spec_event_wf(*ev),
{
    crate::location::is_valid_cell(ev.location_cell.as_str()) && 0 <= ev.start_time
        && ev.start_time < ev.end_time && ev.end_time <= TIMESTAMP_MAX
}

/// Find the index of the event with the id.
fn find_event(events: &Vec<Event>, id: u128) -> (r: Option<usize>)
    requires
        spec_events_distinct(events@),
    ensures
        match r {
            Some(i) => i < events@.len() && events@[i as int].id == id && spec_has_event(
                events@,
                id,
            ) && spec_event(events@, id) == events@[i as int],
            None => !spec_has_event(events@, id),
        },
{
    let n = events.len();
    let mut i: usize = 0;
    while i < n
        invariant
            spec_events_distinct(events@),
            n == events@.len(),
            0 <= i <= n,
            forall|j: int| 0 <= j < i ==> (#[trigger] events@[j]).id != id,
        decreases n - i,
    {
        if events[i].id == id {
            proof {
                assert(spec_has_event(events@, id));
                let i2 = spec_event_index(events@, id);
                if i2 != i as int {
                    assert(false);
                }
            }
            return Some(i);
        }
        i = i + 1;
    }
    None
}

/// Find the index of the user with the id.
fn find_user(users: &Vec<User>, id: u128) -> (r: Option<usize>)
    requires
        spec_users_distinct(users@),
    ensures
        match r {
            Some(i) => i < users@.len() && users@[i as int].id == id && spec_has_user(users@, id)
                && spec_user(users@, id) == users@[i as int],
            None => !spec_has_user(users@, id),
        },
{
    let n = users.len();
    let mut i: usize = 0;
    while i < n
        invariant
            spec_users_distinct(users@),
            n == users@.len(),
            0 <= i <= n,
            forall|j: int| 0 <= j < i ==> (#[trigger] users@[j]).id != id,
        decreases n - i,
    {
        if users[i].id == id {
            proof {
                assert(spec_has_user(users@, id));
                let i2 = spec_user_index(users@, id);
                if i2 != i as int {
                    assert(false);
                }
            }
            return Some(i);
        }
        i = i + 1;
    }
    None
}

/// Find the index of the stored keypair for the user.
fn find_org(orgs: &Vec<OrganizerKey>, user_id: u128) -> (r: Option<usize>)
    requires
        spec_orgs_distinct(orgs@),
    ensures
        match r {
            Some(i) => i < orgs@.len() && orgs@[i as int].user_id == user_id && spec_has_org(
                orgs@,
                user_id,
            ) && spec_org(orgs@, user_id) == orgs@[i as int],
            None => !spec_has_org(orgs@, user_id),
        },
{
    let n = orgs.len();
    let mut i: usize = 0;
    while i < n
        invariant
            spec_orgs_distinct(orgs@),
            n == orgs@.len(),
            0 <= i <= n,
            forall|j: int| 0 <= j < i ==> (#[trigger] orgs@[j]).user_id != user_id,
        decreases n - i,
    {
        if orgs[i].user_id == user_id {
            proof {
                assert(spec_has_org(orgs@, user_id));
                let i2 = spec_org_index(orgs@, user_id);
                if i2 != i as int {
                    assert(false);
                }
            }
            return Some(i);
        }
        i = i + 1;
    }
    None
}

/// Appending a user with a fresh id keeps ids distinct and changes no
/// other user's lookup.
proof fn lemma_user_push(s0: Seq<User>, s1: Seq<User>, u: User)
    requires
        !spec_has_user(s0, u.id),
        s1 == s0.push(u),
        spec_users_distinct(s0),
    ensures
        spec_users_distinct(s1),
        spec_has_user(s1, u.id),
        spec_user(s1, u.id) == u,
        forall|x: u128| x != u.id ==> (spec_has_user(s1, x) <==> spec_has_user(s0, x)),
        forall|x: u128|
            x != u.id && spec_has_user(s0, x) ==> spec_user(s1, x) == spec_user(s0, x),
{
    let last = s1.len() - 1;
    assert(s1[last] == u);
    assert(spec_has_user(s1, u.id));
    let i1 = spec_user_index(s1, u.id);
    if i1 != last {
        assert(s0[i1] == s1[i1]);
        assert(false);
    }
    assert forall|x: u128| x != u.id && spec_has_user(s0, x) implies spec_has_user(s1, x)
        && spec_user(s1, x) == spec_user(s0, x) by {
        let j = spec_user_index(s0, x);
        assert(s1[j] == s0[j]);
        assert(spec_has_user(s1, x));
        let j1 = spec_user_index(s1, x);
        if j1 != j {
            assert(false);
        }
    }
    assert forall|x: u128| x != u.id && spec_has_user(s1, x) implies spec_has_user(s0, x) by {
        let j1 = spec_user_index(s1, x);
        assert(j1 != last);
        assert(s0[j1] == s1[j1]);
    }
}

/// Appending an event with a fresh id keeps ids distinct and changes no
/// other event's lookup.
proof fn lemma_event_push(s0: Seq<Event>, s1: Seq<Event>, ev: Event)
    requires
        !spec_has_event(s0, ev.id),
        s1 == s0.push(ev),
        spec_events_distinct(s0),
    ensures
        spec_events_distinct(s1),
        spec_has_event(s1, ev.id),
        spec_event(s1, ev.id) == ev,
        forall|x: u128| x != ev.id ==> (spec_has_event(s1, x) <==> spec_has_event(s0, x)),
        forall|x: u128|
            x != ev.id && spec_has_event(s0, x) ==> spec_event(s1, x) == spec_event(s0, x),
{
    let last = s1.len() - 1;
    assert(s1[last] == ev);
    assert(spec_has_event(s1, ev.id));
    let i1 = spec_event_index(s1, ev.id);
    if i1 != last {
        assert(s0[i1] == s1[i1]);
        assert(false);
    }
    assert forall|x: u128| x != ev.id && spec_has_event(s0, x) implies spec_has_event(s1, x)
        && spec_event(s1, x) == spec_event(s0, x) by {
        let j = spec_event_index(s0, x);
        assert(s1[j] == s0[j]);
        assert(spec_has_event(s1, x));
        let j1 = spec_event_index(s1, x);
        if j1 != j {
            assert(false);
        }
    }
    assert forall|x: u128| x != ev.id && spec_has_event(s1, x) implies spec_has_event(s0, x) by {
        let j1 = spec_event_index(s1, x);
        assert(j1 != last);
        assert(s0[j1] == s1[j1]);
    }
}

/// Appending a keypair for a fresh user keeps keys distinct and changes no
/// other user's lookup.
proof fn lemma_org_push(s0: Seq<OrganizerKey>, s1: Seq<OrganizerKey>, o: OrganizerKey)
    requires
        !spec_has_org(s0, o.user_id),
        s1 == s0.push(o),
        spec_orgs_distinct(s0),
    ensures
        spec_orgs_distinct(s1),
        spec_has_org(s1, o.user_id),
        spec_org(s1, o.user_id) == o,
        forall|x: u128| x != o.user_id ==> (spec_has_org(s1, x) <==> spec_has_org(s0, x)),
        forall|x: u128|
            x != o.user_id && spec_has_org(s0, x) ==> spec_org(s1, x) == spec_org(s0, x),
{
    let last = s1.len() - 1;
    assert(s1[last] == o);
    assert(spec_has_org(s1, o.user_id));
    let i1 = spec_org_index(s1, o.user_id);
    if i1 != last {
        assert(s0[i1] == s1[i1]);
        assert(false);
    }
    assert forall|x: u128| x != o.user_id && spec_has_org(s0, x) implies spec_has_org(s1, x)
        && spec_org(s1, x) == spec_org(s0, x) by {
        let j = spec_org_index(s0, x);
        assert(s1[j] == s0[j]);
        assert(spec_has_org(s1, x));
        let j1 = spec_org_index(s1, x);
        if j1 != j {
            assert(false);
        }
    }
    assert forall|x: u128| x != o.user_id && spec_has_org(s1, x) implies spec_has_org(s0, x) by {
        let j1 = spec_org_index(s1, x);
        assert(j1 != last);
        assert(s0[j1] == s1[j1]);
    }
}

} // verus!
