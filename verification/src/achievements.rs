//! Achievement unlock records: a deduplicating index and a visible history,
//! both kept newest-first and bounded.

use vstd::prelude::*;

use crate::strtools::str_eq;

verus! {

/// Cap on the visible unlock history.
pub const MAX_UNLOCK_HISTORY: usize = 800;

/// Cap on the dedupe index, which survives history clears.
pub const MAX_UNLOCK_INDEX: usize = 1800;

/// How often an achievement can unlock again.
#[derive(Debug, Clone, Copy, PartialEq, Eq, Structural, Hash)]
pub enum AchievementCadence {
    Daily,
    Weekly,
    Monthly,
    Yearly,
    Total,
}

/// One unlock of one achievement in one period.
#[derive(Debug)]
pub struct AchievementUnlockRecord {
    pub achievement_id: String,
    pub cadence: AchievementCadence,
    pub period_key: String,
    pub unlocked_at_ms: u64,
}

/// Newest-first order by unlock time.
pub open spec fn unlocks_sorted(s: Seq<AchievementUnlockRecord>) -> bool {
    forall|i: int, j: int| 0 <= i < j < s.len() ==> s[i].unlocked_at_ms >= s[j].unlocked_at_ms
}

/// Two records of the same achievement, cadence and period.
pub open spec fn spec_same_triple(a: AchievementUnlockRecord, b: AchievementUnlockRecord) -> bool {
    a.achievement_id@ == b.achievement_id@ && a.cadence == b.cadence && a.period_key@
        == b.period_key@
}

/// No two entries unlock the same (achievement, cadence, period).
pub open spec fn triples_distinct(s: Seq<AchievementUnlockRecord>) -> bool {
    forall|i: int, j: int| 0 <= i < j < s.len() ==> !spec_same_triple(#[trigger] s[i],
        #[trigger] s[j])
}

/// The smaller of two lengths.
pub open spec fn spec_min_len(a: int, b: int) -> int {
    if a < b {
        a
    } else {
        b
    }
}

/// The dedupe index and the visible history of unlocks.
#[derive(Debug)]
pub struct AchievementState {
    pub unlock_index: Vec<AchievementUnlockRecord>,
    pub unlock_history: Vec<AchievementUnlockRecord>,
}

impl AchievementState {
    /// Both lists newest-first and within their caps; the index never holds
    /// the same (achievement, cadence, period) twice, which is what keeps an
    /// achievement from unlocking again.
    pub open spec fn wf(self) -> bool {
        &&& unlocks_sorted(self.unlock_index@)
        &&& unlocks_sorted(self.unlock_history@)
        &&& triples_distinct(self.unlock_index@)
        &&& self.unlock_index@.len() <= MAX_UNLOCK_INDEX
        &&& self.unlock_history@.len() <= MAX_UNLOCK_HISTORY
    }

    /// No unlocks yet.
    pub fn new() -> (r: AchievementState)
        ensures
            r.wf(),
            r.unlock_index@.len() == 0,
            r.unlock_history@.len() == 0,
    {
        AchievementState { unlock_index: Vec::new(), unlock_history: Vec::new() }
    }

    /// Whether the index already holds an unlock of the same achievement,
    /// cadence and period.
    fn index_contains(&self, id: &str, cadence: AchievementCadence, period: &str) -> (r: bool)
        ensures
            r == exists|j: int| 0 <= j < self.unlock_index@.len()
                && (#[trigger] self.unlock_index@[j]).achievement_id@ == id@
                && self.unlock_index@[j].cadence == cadence
                && self.unlock_index@[j].period_key@ == period@,
    {
        let n = self.unlock_index.len();
        let mut i: usize = 0;
        while i < n
            invariant
                0 <= i <= n,
                n == self.unlock_index@.len(),
                forall|j: int| 0 <= j < i ==> !((#[trigger] self.unlock_index@[j]).achievement_id@
                    == id@ && self.unlock_index@[j].cadence == cadence
                    && self.unlock_index@[j].period_key@ == period@),
            decreases n - i,
        {
            let rec = &self.unlock_index[i];
            if rec.cadence == cadence && str_eq(rec.achievement_id.as_str(), id) && str_eq(
                rec.period_key.as_str(), period) {
                return true;
            }
            i += 1;
        }
        false
    }

    /// Accepts new unlock records: records with an empty id or period or a
    /// zero timestamp are dropped, repeats of an indexed (achievement,
    /// cadence, period) are dropped — the index stays free of duplicate
    /// triples — and each accepted record lands newest-first in both the
    /// index and the history, whose lengths grow by exactly the accepted
    /// count up to their caps.
    pub fn append_unlocks(&mut self, records: Vec<AchievementUnlockRecord>) -> (accepted: usize)
        requires
            old(self).wf(),
        ensures
            final(self).wf(),
            accepted <= records@.len(),
            unlocks_sorted(final(self).unlock_index@),
            unlocks_sorted(final(self).unlock_history@),
            triples_distinct(final(self).unlock_index@),
            final(self).unlock_index@.len() == spec_min_len(old(self).unlock_index@.len()
                + accepted, MAX_UNLOCK_INDEX as int),
            final(self).unlock_history@.len() == spec_min_len(old(self).unlock_history@.len()
                + accepted, MAX_UNLOCK_HISTORY as int),
    {
        let total = records.len();
        let mut accepted: usize = 0;
        let mut remaining = records;
        loop
            invariant
                self.wf(),
                accepted + remaining@.len() <= total,
                self.unlock_index@.len() == spec_min_len(old(self).unlock_index@.len() + accepted,
                    MAX_UNLOCK_INDEX as int),
                self.unlock_history@.len() == spec_min_len(old(self).unlock_history@.len()
                    + accepted, MAX_UNLOCK_HISTORY as int),
            decreases remaining@.len(),
        {
            if remaining.len() == 0 {
                break;
            }
            let rec = remaining.remove(0);
            if rec.achievement_id.as_str().unicode_len() == 0 {
                continue;
            }
            if rec.period_key.as_str().unicode_len() == 0 {
                continue;
            }
            if rec.unlocked_at_ms == 0 {
                continue;
            }
            if self.index_contains(rec.achievement_id.as_str(), rec.cadence,
                rec.period_key.as_str()) {
                continue;
            }
            let copy = AchievementUnlockRecord {
                achievement_id: crate::counter_map::copy_str(rec.achievement_id.as_str()),
                cadence: rec.cadence,
                period_key: crate::counter_map::copy_str(rec.period_key.as_str()),
                unlocked_at_ms: rec.unlocked_at_ms,
            };
            proof {
                assert(forall|j: int| 0 <= j < self.unlock_index@.len()
                    ==> !spec_same_triple(#[trigger] self.unlock_index@[j], rec));
            }
            insert_sorted_bounded(&mut self.unlock_index, rec, MAX_UNLOCK_INDEX);
            insert_sorted_bounded(&mut self.unlock_history, copy, MAX_UNLOCK_HISTORY);
            accepted += 1;
        }
        accepted
    }

    /// Clears the visible history; the dedupe index survives so nothing can
    /// unlock twice.
    pub fn clear_history(&mut self)
        requires
            old(self).wf(),
        ensures
            final(self).wf(),
            final(self).unlock_history@.len() == 0,
            final(self).unlock_index@ == old(self).unlock_index@,
    {
        self.unlock_history = Vec::new();
    }
}

/// Inserts a record at its newest-first position and drops the oldest past
/// the cap. A record whose (achievement, cadence, period) is absent keeps
/// the list free of duplicate triples.
fn insert_sorted_bounded(v: &mut Vec<AchievementUnlockRecord>, rec: AchievementUnlockRecord,
    cap: usize)
    requires
        unlocks_sorted(old(v)@),
        old(v)@.len() <= cap,
        cap >= 1,
    ensures
        unlocks_sorted(final(v)@),
        final(v)@.len() <= cap,
        final(v)@.len() == spec_min_len(old(v)@.len() as int + 1, cap as int),
        (triples_distinct(old(v)@) && (forall|j: int| 0 <= j < old(v)@.len()
            ==> !spec_same_triple(#[trigger] old(v)@[j], rec))) ==> triples_distinct(final(v)@),
{
    let n = v.len();
    let mut p: usize = 0;
    while p < n && v[p].unlocked_at_ms >= rec.unlocked_at_ms
        invariant
            0 <= p <= n,
            n == v@.len(),
            *v == *old(v),
            forall|i: int| 0 <= i < p ==> v@[i].unlocked_at_ms >= rec.unlocked_at_ms,
        decreases n - p,
    {
        p += 1;
    }
    let ghost pre = v@;
    v.insert(p, rec);
    proof {
        assert forall|i: int| 0 <= i < v@.len() implies v@[i] == (if i < p {
            pre[i]
        } else if i == p {
            rec
        } else {
            pre[i - 1]
        }) by {
            assert(v@ == pre.insert(p as int, rec));
        }
        assert(unlocks_sorted(v@));
        if triples_distinct(pre) && (forall|j: int| 0 <= j < pre.len()
            ==> !spec_same_triple(#[trigger] pre[j], rec)) {
            assert forall|i: int, j: int| 0 <= i < j < v@.len()
                implies !spec_same_triple(#[trigger] v@[i], #[trigger] v@[j]) by {
            }
        }
    }
    let ghost grown = v@;
    if v.len() > cap {
        v.truncate(cap);
        proof {
            assert(forall|i: int| 0 <= i < v@.len() ==> v@[i] == grown[i]);
        }
    }
}

} // verus!
