//! Per-day aggregates: hourly buckets, per-application stats, and the daily
//! stat record that every counted trigger lands in.
//!
//! All counters saturate instead of overflowing: a malformed or extreme input
//! can never make an increment panic, it can only pin a counter at its
//! maximum.

use vstd::prelude::*;

use crate::assoc::lemma_seq_get_absent;
use crate::assoc::lemma_seq_get_at;
use crate::assoc::lemma_seq_get_push;
use crate::assoc::lemma_seq_get_remove;
use crate::assoc::lemma_seq_get_update;
use crate::assoc::seq_get;
use crate::assoc::seq_keys_distinct;
use crate::counter_map::copy_str;
use crate::input::InputSource;
use crate::strtools::str_eq;

verus! {

/// Cap on distinct applications tracked per day; the least active entries are
/// evicted past it.
pub const MAX_APP_ENTRIES_PER_DAY: usize = 200;

/// Merit counted during one hour of one day, split by modality.
#[derive(Debug, Clone, Copy, PartialEq, Eq, Structural)]
pub struct HourlyStats {
    pub total: u64,
    pub keyboard: u64,
    pub mouse_single: u64,
}

impl HourlyStats {
    /// An empty bucket.
    pub fn zero() -> (r: HourlyStats)
        ensures
            r.total == 0,
            r.keyboard == 0,
            r.mouse_single == 0,
    {
        HourlyStats { total: 0, keyboard: 0, mouse_single: 0 }
    }

    /// The bucket after counting `count` units of `source`.
    pub open spec fn spec_add_merit(self, source: InputSource, count: u64) -> HourlyStats {
        if count == 0 {
            self
        } else {
            HourlyStats {
                total: self.total.saturating_add(count),
                keyboard: if source is Keyboard {
                    self.keyboard.saturating_add(count)
                } else {
                    self.keyboard
                },
                mouse_single: if source is MouseSingle {
                    self.mouse_single.saturating_add(count)
                } else {
                    self.mouse_single
                },
            }
        }
    }

    /// Counts `count` units of `source` into this bucket.
    pub fn add_merit(&mut self, source: InputSource, count: u64)
        ensures
            *final(self) == old(self).spec_add_merit(source, count),
    {
        if count == 0 {
            return;
        }
        self.total = self.total.saturating_add(count);
        match source {
            InputSource::Keyboard => {
                self.keyboard = self.keyboard.saturating_add(count);
            }
            InputSource::MouseSingle => {
                self.mouse_single = self.mouse_single.saturating_add(count);
            }
        }
    }
}

/// The text of an optional name, compared by view.
pub open spec fn spec_opt_name(o: Option<String>) -> Option<Seq<char>> {
    match o {
        Some(s) => Some(s@),
        None => None,
    }
}

/// The text an optional borrowed name carries.
pub open spec fn spec_opt_str(o: Option<&str>) -> Option<Seq<char>> {
    match o {
        Some(s) => Some(s@),
        None => None,
    }
}

/// Merit attributed to one application during one day.
#[derive(Debug)]
pub struct AppInputStats {
    pub name: Option<String>,
    pub total: u64,
    pub keyboard: u64,
    pub mouse_single: u64,
}

impl AppInputStats {
    /// An entry that has counted nothing yet.
    pub fn zero() -> (r: AppInputStats)
        ensures
            r.name is None,
            r.total == 0,
            r.keyboard == 0,
            r.mouse_single == 0,
    {
        AppInputStats { name: None, total: 0, keyboard: 0, mouse_single: 0 }
    }

    /// The numeric fields after counting `count` units of `source`.
    pub open spec fn spec_counts_after(self, source: InputSource, count: u64) -> (u64, u64, u64) {
        (
            self.total.saturating_add(count),
            if source is Keyboard {
                self.keyboard.saturating_add(count)
            } else {
                self.keyboard
            },
            if source is MouseSingle {
                self.mouse_single.saturating_add(count)
            } else {
                self.mouse_single
            },
        )
    }

    /// Counts `count` units of `source` for this application; remembers the
    /// first name seen.
    pub fn add(&mut self, name: Option<&str>, source: InputSource, count: u64)
        ensures
            count == 0 ==> *final(self) == *old(self),
            count > 0 ==> {
                &&& final(self).total == old(self).spec_counts_after(source, count).0
                &&& final(self).keyboard == old(self).spec_counts_after(source, count).1
                &&& final(self).mouse_single == old(self).spec_counts_after(source, count).2
                &&& spec_opt_name(final(self).name) == (if old(self).name is Some {
                    spec_opt_name(old(self).name)
                } else {
                    spec_opt_str(name)
                })
            },
    {
        if count == 0 {
            return;
        }
        if self.name.is_none() {
            self.name = match name {
                Some(n) => Some(copy_str(n)),
                None => None,
            };
        }
        self.total = self.total.saturating_add(count);
        match source {
            InputSource::Keyboard => {
                self.keyboard = self.keyboard.saturating_add(count);
            }
            InputSource::MouseSingle => {
                self.mouse_single = self.mouse_single.saturating_add(count);
            }
        }
    }
}

/// Per-application stats for one day, keyed by application id, bounded in
/// size.
#[derive(Debug)]
pub struct AppStatsMap {
    pub entries: Vec<(String, AppInputStats)>,
}

impl AppStatsMap {
    /// Distinct keys and the entry cap.
    pub open spec fn wf(self) -> bool {
        &&& seq_keys_distinct(self.entries@)
        &&& self.entries@.len() <= MAX_APP_ENTRIES_PER_DAY
    }

    /// The entry stored under `k`, if any.
    pub open spec fn spec_get(self, k: Seq<char>) -> Option<AppInputStats> {
        seq_get(self.entries@, k)
    }

    /// An empty map.
    pub fn new() -> (r: AppStatsMap)
        ensures
            r.wf(),
            r.entries@.len() == 0,
            forall|k: Seq<char>| r.spec_get(k) is None,
    {
        AppStatsMap { entries: Vec::new() }
    }

    /// Number of applications tracked.
    pub fn len(&self) -> (r: usize)
        ensures
            r == self.entries@.len(),
    {
        self.entries.len()
    }

    /// The totals stored under `k`: (total, keyboard, mouse_single), zeros
    /// when absent.
    pub fn get_counts(&self, k: &str) -> (r: (u64, u64, u64))
        requires
            self.wf(),
        ensures
            match self.spec_get(k@) {
                Some(e) => r == (e.total, e.keyboard, e.mouse_single),
                None => r == (0u64, 0u64, 0u64),
            },
    {
        let n = self.entries.len();
        let mut i: usize = 0;
        while i < n
            invariant
                0 <= i <= n,
                n == self.entries@.len(),
                self.wf(),
                forall|j: int| 0 <= j < i ==> self.entries@[j].0@ != k@,
            decreases n - i,
        {
            if str_eq(self.entries[i].0.as_str(), k) {
                proof {
                    lemma_seq_get_at(self.entries@, i as int);
                }
                let e = &self.entries[i].1;
                return (e.total, e.keyboard, e.mouse_single);
            }
            i += 1;
        }
        proof {
            lemma_seq_get_absent(self.entries@, k@);
        }
        (0, 0, 0)
    }

    /// Counts `count` units of `source` under application `app_id`. If the cap
    /// is hit, the least active other entry is evicted; `app_id`'s own entry
    /// always survives with exactly the new counts.
    #[verifier::rlimit(60)]
    pub fn add_app(&mut self, app_id: &str, name: Option<&str>, source: InputSource, count: u64)
        requires
            old(self).wf(),
            count > 0,
        ensures
            final(self).wf(),
            ({
                let prev = match old(self).spec_get(app_id@) {
                    Some(e) => e,
                    None => AppInputStats { name: None, total: 0, keyboard: 0, mouse_single: 0 },
                };
                match final(self).spec_get(app_id@) {
                    Some(e) => {
                        &&& e.total == prev.spec_counts_after(source, count).0
                        &&& e.keyboard == prev.spec_counts_after(source, count).1
                        &&& e.mouse_single == prev.spec_counts_after(source, count).2
                        &&& spec_opt_name(e.name) == (if prev.name is Some {
                            spec_opt_name(prev.name)
                        } else {
                            spec_opt_str(name)
                        })
                    },
                    None => false,
                }
            }),
            forall|k2: Seq<char>| k2 != app_id@ ==> (final(self).spec_get(k2) is Some ==> final(
                self).spec_get(k2) == old(self).spec_get(k2)),
    {
        let n = self.entries.len();
        let mut i: usize = 0;
        while i < n
            invariant
                0 <= i <= n,
                n == self.entries@.len(),
                self.wf(),
                *self == *old(self),
                count > 0,
                forall|j: int| 0 <= j < i ==> self.entries@[j].0@ != app_id@,
            decreases n - i,
        {
            if str_eq(self.entries[i].0.as_str(), app_id) {
                proof {
                    lemma_seq_get_at(self.entries@, i as int);
                }
                let ghost pre = self.entries@;
                let slot = &mut self.entries[i].1;
                slot.add(name, source, count);
                proof {
                    let v = *final(slot);
                    assert(self.entries@ =~= pre.update(i as int, (pre[i as int].0, v)));
                    assert forall|k2: Seq<char>| true implies seq_get(self.entries@, k2) == (
                        if pre[i as int].0@ == k2 {
                            Some(v)
                        } else {
                            seq_get(pre, k2)
                        }) by {
                        lemma_seq_get_update(pre, i as int, v, k2);
                    }
                }
                return;
            }
            i += 1;
        }
        proof {
            lemma_seq_get_absent(self.entries@, app_id@);
        }
        if self.entries.len() >= MAX_APP_ENTRIES_PER_DAY {
            self.evict_least_active(app_id);
        }
        let mut fresh = AppInputStats::zero();
        fresh.add(name, source, count);
        let ghost pre = self.entries@;
        let entry = (copy_str(app_id), fresh);
        self.entries.push(entry);
        proof {
            assert(seq_get(pre, app_id@) is None);
            assert forall|k2: Seq<char>| true implies seq_get(self.entries@, k2) == (
                if seq_get(pre, k2) is Some {
                    seq_get(pre, k2)
                } else if app_id@ == k2 {
                    Some(entry.1)
                } else {
                    None
                }) by {
                lemma_seq_get_push(pre, entry, k2);
            }
            assert(seq_keys_distinct(self.entries@)) by {
                crate::assoc::lemma_absent_of_none(pre, app_id@);
                assert(forall|j: int| 0 <= j < pre.len() ==> self.entries@[j] == pre[j]);
                assert(self.entries@[pre.len() as int] == entry);
            }
        }
    }

    /// Removes the entry with the smallest total whose key differs from
    /// `keep_id`, so a fresh entry can take its place.
    fn evict_least_active(&mut self, keep_id: &str)
        requires
            old(self).wf(),
            old(self).entries@.len() >= 1,
            seq_get(old(self).entries@, keep_id@) is None,
        ensures
            final(self).wf(),
            final(self).entries@.len() == old(self).entries@.len() - 1,
            seq_get(final(self).entries@, keep_id@) is None,
            forall|k2: Seq<char>| (final(self).spec_get(k2) is Some ==> final(self).spec_get(k2)
                == old(self).spec_get(k2)),
    {
        let n = self.entries.len();
        let mut min_idx: usize = 0;
        let mut i: usize = 1;
        while i < n
            invariant
                1 <= i <= n,
                n == self.entries@.len(),
                0 <= min_idx < i,
                *self == *old(self),
            decreases n - i,
        {
            if self.entries[i].1.total < self.entries[min_idx].1.total {
                min_idx = i;
            }
            i += 1;
        }
        let ghost pre = self.entries@;
        self.entries.remove(min_idx);
        proof {
            assert forall|k2: Seq<char>| true implies seq_get(self.entries@, k2) == (
                if pre[min_idx as int].0@ == k2 {
                    None
                } else {
                    seq_get(pre, k2)
                }) by {
                lemma_seq_get_remove(pre, min_idx as int, k2);
            }
            lemma_seq_get_remove(pre, min_idx as int, keep_id@);
        }
    }
}

} // verus!
