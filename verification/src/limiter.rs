//! Rate Limiter: per-user daily attempt counters, keyed by user and UTC
//! calendar day. Keys are date-stamped, so no background sweep is needed.

use vstd::prelude::*;

verus! {

/// Maximum successful verifications per user per UTC day.
pub const MAX_DAILY_VERIFICATIONS: u32 = 3;

/// Seconds per UTC calendar day.
pub const SECONDS_PER_DAY: u64 = 86400;

/// The UTC calendar day a non-negative Unix timestamp falls in.
pub open spec fn spec_utc_day(ts: i64) -> u64
    recommends
        ts >= 0,
{
    ((ts as int) / (86400 as int)) as u64
}

/// The UTC calendar day a non-negative Unix timestamp falls in.
pub fn utc_day(ts: i64) -> (r: u64)
    requires
        ts >= 0,
    ensures
        r == spec_utc_day(ts),
{
    (ts as u64) / SECONDS_PER_DAY
}

/// One daily counter: attempts recorded for a user on a UTC day.
#[derive(Debug, Clone, Copy, PartialEq, Eq)]
pub struct RateEntry {
    pub user: u128,
    pub day: u64,
    pub count: u32,
}

/// Whether a counter for the key exists.
pub open spec fn spec_has_entry(s: Seq<RateEntry>, user: u128, day: u64) -> bool {
    exists|i: int| 0 <= i < s.len() && (#[trigger] s[i]).user == user && s[i].day == day
}

/// The index of the counter for the key.
pub open spec fn spec_entry_index(s: Seq<RateEntry>, user: u128, day: u64) -> int {
    choose|i: int| 0 <= i < s.len() && (#[trigger] s[i]).user == user && s[i].day == day
}

/// Attempts recorded for a user on a UTC day; zero without a counter.
pub open spec fn spec_count(s: Seq<RateEntry>, user: u128, day: u64) -> u32 {
    if spec_has_entry(s, user, day) {
        s[spec_entry_index(s, user, day)].count
    } else {
        0
    }
}

/// Per-user daily attempt counters.
pub struct RateLimiter {
    entries: Vec<RateEntry>,
}

impl View for RateLimiter {
    type V = Seq<RateEntry>;

    closed spec fn view(&self) -> Seq<RateEntry> {
        self.entries@
    }
}

impl RateLimiter {
    /// Well-formed: at most one counter per (user, day) key.
    pub open spec fn wf(&self) -> bool {
        forall|i: int, j: int|
            0 <= i < j < self@.len() ==> !((#[trigger] self@[i]).user == (
            #[trigger] self@[j]).user && self@[i].day == self@[j].day)
    }

    /// An empty limiter: no attempts recorded for anyone.
    pub fn new() -> (r: RateLimiter)
        ensures
            r.wf(),
            forall|u: u128, d: u64| spec_count(r@, u, d) == 0,
    {
        RateLimiter { entries: Vec::new() }
    }

    /// The attempts recorded for a user on a UTC day.
    pub fn count_for(&self, user: u128, day: u64) -> (r: u32)
        requires
            self.wf(),
        ensures
            r == spec_count(self@, user, day),
    {
        let n = self.entries.len();
        let mut i: usize = 0;
        while i < n
            invariant
                self.wf(),
                n == self@.len(),
                0 <= i <= n,
                forall|j: int|
                    0 <= j < i ==> !((#[trigger] self@[j]).user == user && self@[j].day == day),
            decreases n - i,
        {
            if self.entries[i].user == user && self.entries[i].day == day {
                proof {
                    assert(spec_has_entry(self@, user, day));
                    let i2 = spec_entry_index(self@, user, day);
                    assert(0 <= i2 < self@.len() && self@[i2].user == user && self@[i2].day == day);
                    if i2 != i as int {
                        assert(false);
                    }
                }
                return self.entries[i].count;
            }
            i = i + 1;
        }
        proof {
            assert(!spec_has_entry(self@, user, day));
        }
        0
    }

    /// Record one attempt for a user on a UTC day: that key's counter
    /// grows by one and every other counter is untouched.
    pub fn record(&mut self, user: u128, day: u64)
        requires
            old(self).wf(),
            spec_count(old(self)@, user, day) < u32::MAX,
        ensures
            final(self).wf(),
            spec_count(final(self)@, user, day) == spec_count(old(self)@, user, day) + 1,
            forall|u2: u128, d2: u64|
                !(u2 == user && d2 == day) ==> spec_count(final(self)@, u2, d2) == spec_count(
                    old(self)@,
                    u2,
                    d2,
                ),
    {
        let n = self.entries.len();
        let mut i: usize = 0;
        while i < n
            invariant
                self.wf(),
                self@ == old(self)@,
                n == self@.len(),
                0 <= i <= n,
                spec_count(old(self)@, user, day) < u32::MAX,
                forall|j: int|
                    0 <= j < i ==> !((#[trigger] self@[j]).user == user && self@[j].day == day),
            decreases n - i,
        {
            if self.entries[i].user == user && self.entries[i].day == day {
                proof {
                    assert(spec_has_entry(self@, user, day));
                    let i2 = spec_entry_index(self@, user, day);
                    if i2 != i as int {
                        assert(false);
                    }
                }
                let c = self.entries[i].count;
                self.entries[i].count = c + 1;
                proof {
                    lemma_count_after_update(old(self)@, self@, i as int, user, day);
                }
                return ;
            }
            i = i + 1;
        }
        self.entries.push(RateEntry { user, day, count: 1 });
        proof {
            lemma_count_after_push(old(self)@, self@, user, day);
        }
    }
}

/// After bumping the counter at the key's own index, that key counts one
/// more and every other key counts the same.
proof fn lemma_count_after_update(s0: Seq<RateEntry>, s1: Seq<RateEntry>, i: int, user: u128, day: u64)
    requires
        0 <= i < s0.len(),
        s0[i].user == user && s0[i].day == day,
        s0[i].count < u32::MAX,
        s1 == s0.update(i, RateEntry { user, day, count: (s0[i].count + 1) as u32 }),
        forall|a: int, b: int|
            0 <= a < b < s0.len() ==> !((#[trigger] s0[a]).user == (#[trigger] s0[b]).user
                && s0[a].day == s0[b].day),
    ensures
        forall|a: int, b: int|
            0 <= a < b < s1.len() ==> !((#[trigger] s1[a]).user == (#[trigger] s1[b]).user
                && s1[a].day == s1[b].day),
        spec_count(s1, user, day) == spec_count(s0, user, day) + 1,
        forall|u2: u128, d2: u64|
            !(u2 == user && d2 == day) ==> spec_count(s1, u2, d2) == spec_count(s0, u2, d2),
{
    assert(spec_has_entry(s0, user, day));
    let i0 = spec_entry_index(s0, user, day);
    if i0 != i {
        assert(false);
    }
    assert(spec_has_entry(s1, user, day)) by {
        assert(s1[i].user == user && s1[i].day == day);
    }
    let i1 = spec_entry_index(s1, user, day);
    if i1 != i {
        assert(false);
    }
    assert forall|u2: u128, d2: u64| !(u2 == user && d2 == day) implies spec_count(s1, u2, d2)
        == spec_count(s0, u2, d2) by {
        if spec_has_entry(s0, u2, d2) {
            let j = spec_entry_index(s0, u2, d2);
            assert(j != i);
            assert(s1[j] == s0[j]);
            assert(spec_has_entry(s1, u2, d2));
            let j1 = spec_entry_index(s1, u2, d2);
            if j1 != j {
                assert(false);
            }
        } else {
            if spec_has_entry(s1, u2, d2) {
                let j1 = spec_entry_index(s1, u2, d2);
                assert(j1 != i);
                assert(s0[j1] == s1[j1]);
                assert(false);
            }
        }
    }
}

/// After appending a fresh counter of one for an unseen key, that key
/// counts one and every other key counts the same.
proof fn lemma_count_after_push(s0: Seq<RateEntry>, s1: Seq<RateEntry>, user: u128, day: u64)
    requires
        !spec_has_entry(s0, user, day),
        s1 == s0.push(RateEntry { user, day, count: 1 }),
        forall|a: int, b: int|
            0 <= a < b < s0.len() ==> !((#[trigger] s0[a]).user == (#[trigger] s0[b]).user
                && s0[a].day == s0[b].day),
    ensures
        forall|a: int, b: int|
            0 <= a < b < s1.len() ==> !((#[trigger] s1[a]).user == (#[trigger] s1[b]).user
                && s1[a].day == s1[b].day),
        spec_count(s1, user, day) == spec_count(s0, user, day) + 1,
        forall|u2: u128, d2: u64|
            !(u2 == user && d2 == day) ==> spec_count(s1, u2, d2) == spec_count(s0, u2, d2),
{
    let last = s1.len() - 1;
    assert(s1[last].user == user && s1[last].day == day);
    assert(spec_has_entry(s1, user, day));
    let i1 = spec_entry_index(s1, user, day);
    if i1 != last {
        assert(s0[i1] == s1[i1]);
        assert(false);
    }
    assert(spec_count(s0, user, day) == 0);
    assert forall|u2: u128, d2: u64| !(u2 == user && d2 == day) implies spec_count(s1, u2, d2)
        == spec_count(s0, u2, d2) by {
        if spec_has_entry(s0, u2, d2) {
            let j = spec_entry_index(s0, u2, d2);
            assert(s1[j] == s0[j]);
            assert(spec_has_entry(s1, u2, d2));
            let j1 = spec_entry_index(s1, u2, d2);
            if j1 != j {
                assert(false);
            }
        } else {
            if spec_has_entry(s1, u2, d2) {
                let j1 = spec_entry_index(s1, u2, d2);
                assert(j1 != last);
                assert(s0[j1] == s1[j1]);
                assert(false);
            }
        }
    }
}

} // verus!
