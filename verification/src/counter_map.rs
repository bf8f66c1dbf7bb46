//! String-keyed counters, used for per-key, per-shortcut, per-button and
//! per-display aggregates.
//!
//! The map is an association list with pairwise-distinct keys; a key that is
//! absent counts as zero. Counts merge with saturating addition, so malformed
//! or extreme input can never make an increment panic.

use vstd::prelude::*;

use crate::assoc::lemma_seq_get_absent;
use crate::assoc::lemma_seq_get_at;
use crate::assoc::lemma_seq_get_push;
use crate::assoc::lemma_seq_get_update;
use crate::assoc::seq_get;
use crate::assoc::seq_keys_distinct;
use crate::strtools::str_eq;

verus! {

/// String-keyed saturating counters; an absent key counts as zero.
#[derive(Debug)]
pub struct CounterMap {
    pub entries: Vec<(String, u64)>,
}

impl CounterMap {
    /// Distinct keys: each key owns exactly one slot.
    pub open spec fn wf(self) -> bool {
        seq_keys_distinct(self.entries@)
    }

    /// The count stored under `k`; zero when the key is absent.
    pub open spec fn spec_get(self, k: Seq<char>) -> u64 {
        match seq_get(self.entries@, k) {
            Some(v) => v,
            None => 0,
        }
    }

    /// An empty map: every key reads zero.
    pub fn new() -> (r: CounterMap)
        ensures
            r.wf(),
            r.entries@.len() == 0,
            forall|k: Seq<char>| r.spec_get(k) == 0,
    {
        CounterMap { entries: Vec::new() }
    }

    /// Number of keys present.
    pub fn len(&self) -> (r: usize)
        ensures
            r == self.entries@.len(),
    {
        self.entries.len()
    }

    /// Reads the count under `k`.
    pub fn get(&self, k: &str) -> (r: u64)
        requires
            self.wf(),
        ensures
            r == self.spec_get(k@),
    {
        let n = self.entries.len();
        let mut i: usize = 0;
        while i < n
            invariant
                0 <= i <= n,
                n == self.entries@.len(),
                self.wf(),
                forall|j: int| 0 <= j < i ==> self.entries@[j].0@ != k@,
            decreases n - i,
        {
            if str_eq(self.entries[i].0.as_str(), k) {
                proof {
                    lemma_seq_get_at(self.entries@, i as int);
                }
                return self.entries[i].1;
            }
            i += 1;
        }
        proof {
            lemma_seq_get_absent(self.entries@, k@);
        }
        0
    }

    /// Adds `delta` to the count under `k`, saturating; every other key keeps
    /// its count.
    pub fn add(&mut self, k: &str, delta: u64)
        requires
            old(self).wf(),
        ensures
            final(self).wf(),
            final(self).spec_get(k@) == old(self).spec_get(k@).saturating_add(delta),
            forall|k2: Seq<char>| k2 != k@ ==> final(self).spec_get(k2) == old(self).spec_get(k2),
    {
        let n = self.entries.len();
        let mut i: usize = 0;
        while i < n
            invariant
                0 <= i <= n,
                n == self.entries@.len(),
                self.wf(),
                *self == *old(self),
                forall|j: int| 0 <= j < i ==> self.entries@[j].0@ != k@,
            decreases n - i,
        {
            if str_eq(self.entries[i].0.as_str(), k) {
                proof {
                    lemma_seq_get_at(self.entries@, i as int);
                }
                let cur = self.entries[i].1;
                let next = cur.saturating_add(delta);
                let ghost pre = self.entries@;
                let slot = &mut self.entries[i].1;
                *slot = next;
                proof {
                    assert(self.entries@ =~= pre.update(i as int, (pre[i as int].0, next)));
                    assert forall|k2: Seq<char>| true implies seq_get(self.entries@, k2) == (
                        if pre[i as int].0@ == k2 {
                            Some(next)
                        } else {
                            seq_get(pre, k2)
                        }) by {
                        lemma_seq_get_update(pre, i as int, next, k2);
                    }
                    assert(seq_keys_distinct(self.entries@));
                }
                return;
            }
            i += 1;
        }
        proof {
            lemma_seq_get_absent(self.entries@, k@);
        }
        let ghost pre = self.entries@;
        let entry = (copy_str(k), delta);
        self.entries.push(entry);
        proof {
            assert forall|k2: Seq<char>| true implies seq_get(self.entries@, k2) == (
                if seq_get(pre, k2) is Some {
                    seq_get(pre, k2)
                } else if k@ == k2 {
                    Some(delta)
                } else {
                    None
                }) by {
                lemma_seq_get_push(pre, (entry.0, delta), k2);
            }
            assert(seq_keys_distinct(self.entries@)) by {
                assert(forall|j: int| 0 <= j < pre.len() ==> pre[j].0@ != k@);
                assert(self.entries@.len() == pre.len() + 1);
                assert(forall|j: int| 0 <= j < pre.len() ==> self.entries@[j] == pre[j]);
            }
        }
    }

    /// Builds a map from raw `(key, count)` rows, as a database query hands
    /// them back: every key ends up at the saturating sum of its rows.
    pub fn from_rows(rows: &Vec<(String, u64)>) -> (r: CounterMap)
        ensures
            r.wf(),
            forall|k: Seq<char>| r.spec_get(k) == row_sum(rows@, rows@.len() as int, k),
    {
        let mut out = CounterMap::new();
        let n = rows.len();
        let mut i: usize = 0;
        while i < n
            invariant
                0 <= i <= n,
                n == rows@.len(),
                out.wf(),
                forall|k: Seq<char>| out.spec_get(k) == row_sum(rows@, i as int, k),
            decreases n - i,
        {
            out.add(rows[i].0.as_str(), rows[i].1);
            i += 1;
        }
        out
    }

    /// An independent copy holding the same counts under the same keys.
    pub fn duplicate(&self) -> (r: CounterMap)
        ensures
            r.entries@.len() == self.entries@.len(),
            forall|i: int| 0 <= i < self.entries@.len() ==> r.entries@[i].0@
                == self.entries@[i].0@ && r.entries@[i].1 == self.entries@[i].1,
            self.wf() ==> r.wf(),
            forall|k: Seq<char>| r.spec_get(k) == self.spec_get(k),
    {
        let n = self.entries.len();
        let mut out: Vec<(String, u64)> = Vec::new();
        let mut i: usize = 0;
        while i < n
            invariant
                0 <= i <= n,
                n == self.entries@.len(),
                out@.len() == i,
                forall|j: int| 0 <= j < i ==> out@[j].0@ == self.entries@[j].0@ && out@[j].1
                    == self.entries@[j].1,
            decreases n - i,
        {
            let k = copy_str(self.entries[i].0.as_str());
            let v = self.entries[i].1;
            out.push((k, v));
            i += 1;
        }
        let r = CounterMap { entries: out };
        proof {
            crate::assoc::lemma_seq_get_congruent(r.entries@, self.entries@);
            if self.wf() {
                assert forall|a: int, b: int| 0 <= a < b < r.entries@.len()
                    implies r.entries@[a].0@ != r.entries@[b].0@ by {
                    assert(self.entries@[a].0@ != self.entries@[b].0@);
                }
            }
        }
        r
    }

    /// Folds every entry of `other` into `self`: each key ends up at the
    /// saturating sum of both counts.
    pub fn merge(&mut self, other: &CounterMap)
        requires
            old(self).wf(),
            other.wf(),
        ensures
            final(self).wf(),
            forall|k: Seq<char>|
                final(self).spec_get(k) == old(self).spec_get(k).saturating_add(
                    other.spec_get(k)),
    {
        let n = other.entries.len();
        let mut i: usize = 0;
        while i < n
            invariant
                0 <= i <= n,
                n == other.entries@.len(),
                other.wf(),
                self.wf(),
                forall|k: Seq<char>|
                    self.spec_get(k) == old(self).spec_get(k).saturating_add(
                        prefix_get(other.entries@, i as int, k)),
            decreases n - i,
        {
            let key = &other.entries[i].0;
            let delta = other.entries[i].1;
            proof {
                lemma_seq_get_at(other.entries@, i as int);
                lemma_prefix_get_absent_step(other.entries@, i as int);
            }
            self.add(key.as_str(), delta);
            i += 1;
        }
        proof {
            assert forall|k: Seq<char>| true implies prefix_get(other.entries@, n as int, k)
                == other.spec_get(k) by {
                lemma_prefix_get_full(other.entries@, k);
            }
        }
    }
}

/// The saturating sum the first `i` rows of `s` contribute to key `k`,
/// duplicates included.
pub open spec fn row_sum(s: Seq<(String, u64)>, i: int, k: Seq<char>) -> u64
    decreases i,
{
    if i <= 0 {
        0u64
    } else {
        row_sum(s, i - 1, k).saturating_add(
            if s[i - 1].0@ == k {
                s[i - 1].1
            } else {
                0u64
            },
        )
    }
}

/// The count contributed by the first `i` entries of `s` for key `k`.
pub open spec fn prefix_get(s: Seq<(String, u64)>, i: int, k: Seq<char>) -> u64 {
    match seq_get(s.take(i), k) {
        Some(v) => v,
        None => 0,
    }
}

/// Extending the prefix by the entry at `i` adds exactly that entry's count
/// for its own key and nothing for any other, when keys are distinct.
pub proof fn lemma_prefix_get_absent_step(s: Seq<(String, u64)>, i: int)
    requires
        seq_keys_distinct(s),
        0 <= i < s.len(),
    ensures
        forall|k: Seq<char>|
            prefix_get(s, i + 1, k) == if s[i].0@ == k {
                prefix_get(s, i, k).saturating_add(s[i].1)
            } else {
                prefix_get(s, i, k)
            },
{
    assert forall|k: Seq<char>| true implies prefix_get(s, i + 1, k) == (if s[i].0@ == k {
        prefix_get(s, i, k).saturating_add(s[i].1)
    } else {
        prefix_get(s, i, k)
    }) by {
        assert(s.take(i + 1) =~= s.take(i).push(s[i]));
        lemma_seq_get_push(s.take(i), s[i], k);
        if s[i].0@ == k {
            assert(forall|j: int| 0 <= j < i ==> s.take(i)[j].0@ != k);
            lemma_seq_get_absent(s.take(i), k);
        }
    }
}

/// Taking the whole sequence as prefix is just ordinary lookup.
pub proof fn lemma_prefix_get_full(s: Seq<(String, u64)>, k: Seq<char>)
    ensures
        prefix_get(s, s.len() as int, k) == match seq_get(s, k) {
            Some(v) => v,
            None => 0u64,
        },
{
    assert(s.take(s.len() as int) =~= s);
}

/// Owned copy of a borrowed string.
pub fn copy_str(s: &str) -> (r: String)
    ensures
        r@ == s@,
{
    String::from_str(s)
}

} // verus!
