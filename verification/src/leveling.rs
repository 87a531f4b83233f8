//! Leveling Engine: a pure XP-to-level function over a monotone threshold
//! table taken from external configuration, and level-transition detection.

use vstd::prelude::*;

use crate::error::ApiError;

verus! {

/// The level for a total of experience points: the highest index whose
/// threshold does not exceed the total.
pub open spec fn spec_level_of(thresholds: Seq<u32>, xp: u32) -> int
    decreases thresholds.len(),
{
    if thresholds.len() == 0 {
        0
    } else if thresholds.last() <= xp {
        thresholds.len() as int - 1
    } else {
        spec_level_of(thresholds.drop_last(), xp)
    }
}

/// Addition of experience points, saturating at the representable maximum
/// so a total never wraps around.
pub open spec fn spec_saturating_add(a: u32, b: u32) -> u32 {
    if a + b > u32::MAX {
        u32::MAX
    } else {
        (a + b) as u32
    }
}

/// The level function stays within the table: zero for an empty prefix,
/// never past the last index.
pub proof fn lemma_level_range(thresholds: Seq<u32>, xp: u32)
    ensures
        0 <= spec_level_of(thresholds, xp),
        thresholds.len() >= 1 ==> spec_level_of(thresholds, xp) <= thresholds.len() - 1,
    decreases thresholds.len(),
{
    if thresholds.len() > 0 && !(thresholds.last() <= xp) {
        lemma_level_range(thresholds.drop_last(), xp);
    }
}

/// Law: the level is monotone in experience; awarding points never lowers
/// the level.
pub proof fn lemma_level_monotonic(thresholds: Seq<u32>, xp1: u32, xp2: u32)
    requires
        xp1 <= xp2,
    ensures
        spec_level_of(thresholds, xp1) <= spec_level_of(thresholds, xp2),
    decreases thresholds.len(),
{
    if thresholds.len() > 0 {
        if thresholds.last() <= xp1 {
        } else if thresholds.last() <= xp2 {
            lemma_level_range(thresholds.drop_last(), xp1);
        } else {
            lemma_level_monotonic(thresholds.drop_last(), xp1, xp2);
        }
    }
}

/// The outcome of one XP award.
#[derive(Debug, Clone, Copy, PartialEq, Eq)]
pub struct AwardOutcome {
    /// The level before the award.
    pub from_level: u8,
    /// The level after the award: the highest threshold met by the new
    /// total.
    pub level: u8,
    /// The total of experience points after the award.
    pub new_total_xp: u32,
    /// Whether the award raised the level, however many thresholds it
    /// crossed.
    pub level_up: bool,
}

/// The configured level thresholds: `thresholds[l]` is the least XP total
/// of level `l`.
pub struct LevelTable {
    thresholds: Vec<u32>,
}

impl View for LevelTable {
    type V = Seq<u32>;

    closed spec fn view(&self) -> Seq<u32> {
        self.thresholds@
    }
}

/// A well-shaped threshold table: 1 to 256 thresholds, starting at zero,
/// non-decreasing.
pub open spec fn spec_table_shape(t: Seq<u32>) -> bool {
    &&& 1 <= t.len() <= 256
    &&& t[0] == 0
    &&& forall|i: int| 0 <= i < t.len() - 1 ==> #[trigger] t[i] <= t[i + 1]
}

impl LevelTable {
    /// Well-formed: the thresholds are well shaped.
    pub open spec fn wf(&self) -> bool {
        spec_table_shape(self@)
    }

    /// Build a table from configuration; rejected unless it has 1 to 256
    /// thresholds, starts at zero and is non-decreasing.
    pub fn new(thresholds: Vec<u32>) -> (r: Result<LevelTable, ApiError>)
        ensures
            match r {
                Ok(t) => t.wf() && t@ == thresholds@,
                Err(e) => {
                    &&& e matches ApiError::InvalidInput(_)
                    &&& !spec_table_shape(thresholds@)
                },
            },
    {
        if thresholds.len() < 1 || thresholds.len() > 256 {
            return Err(ApiError::InvalidInput(String::from_str("level table size")));
        }
        if thresholds[0] != 0 {
            return Err(ApiError::InvalidInput(String::from_str("level table must start at zero")));
        }
        let mut i: usize = 0;
        while i < thresholds.len() - 1
            invariant
                thresholds@.len() >= 1,
                0 <= i <= thresholds@.len() - 1,
                forall|j: int| 0 <= j < i ==> #[trigger] thresholds@[j] <= thresholds@[j + 1],
            decreases thresholds@.len() - i,
        {
            if thresholds[i] > thresholds[i + 1] {
                return Err(ApiError::InvalidInput(String::from_str("level table must not decrease")));
            }
            i = i + 1;
        }
        Ok(LevelTable { thresholds })
    }

    /// Number of configured levels.
    pub fn level_count(&self) -> (r: usize)
        ensures
            r == self@.len(),
    {
        self.thresholds.len()
    }

    /// The level for a total of experience points.
    pub fn level_for(&self, xp: u32) -> (r: u8)
        requires
            self.wf(),
        ensures
            r as int == spec_level_of(self@, xp),
    {
        let mut i: usize = self.thresholds.len();
        proof {
            assert(self@.subrange(0, i as int) =~= self@);
        }
        while i > 0
            invariant
                0 <= i <= self@.len() <= 256,
                spec_level_of(self@, xp) == spec_level_of(self@.subrange(0, i as int), xp),
            decreases i,
        {
            i = i - 1;
            if self.thresholds[i] <= xp {
                proof {
                    assert(self@.subrange(0, i as int + 1).last() == self@[i as int]);
                }
                return i as u8;
            }
            proof {
                assert(self@.subrange(0, i as int + 1).drop_last() =~= self@.subrange(0, i as int));
            }
        }
        proof {
            assert(self@.subrange(0, 0) =~= Seq::<u32>::empty());
        }
        0
    }

    /// Apply one XP award: the total grows by the amount (saturating), the
    /// level is recomputed, and a level-up is flagged exactly when the
    /// level rose, however many thresholds the award crossed.
    pub fn apply_award(&self, current_xp: u32, amount: u32) -> (r: AwardOutcome)
        requires
            self.wf(),
        ensures
            r.new_total_xp == spec_saturating_add(current_xp, amount),
            r.from_level as int == spec_level_of(self@, current_xp),
            r.level as int == spec_level_of(self@, r.new_total_xp),
            r.level_up == (spec_level_of(self@, r.new_total_xp) > spec_level_of(self@, current_xp)),
            current_xp <= r.new_total_xp,
            r.from_level <= r.level,
    {
        let new_total_xp: u32 = if amount > u32::MAX - current_xp {
            u32::MAX
        } else {
            current_xp + amount
        };
        let from_level = self.level_for(current_xp);
        let level = self.level_for(new_total_xp);
        proof {
            lemma_level_monotonic(self@, current_xp, new_total_xp);
        }
        AwardOutcome { from_level, level, new_total_xp, level_up: level > from_level }
    }
}

} // verus!
