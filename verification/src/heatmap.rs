//! Click heatmaps: a fixed 256-by-256 grid of saturating click counts per
//! display, kept both all-time and per day, with the daily tables bounded.
//!
//! The standing invariant of every grid is that the sum of its cells never
//! exceeds the display's total click count: off-grid clicks are dropped,
//! never mis-attributed.

use vstd::prelude::*;

use crate::assoc::lemma_seq_get_absent;
use crate::assoc::lemma_seq_get_at;
use crate::assoc::lemma_seq_get_push;
use crate::assoc::lemma_seq_get_update;
use crate::assoc::seq_get;
use crate::assoc::seq_keys_distinct;
use crate::counter_map::copy_str;
use crate::datekey::DateKey;
use crate::strtools::str_eq;
use crate::vassoc::vlemma_seq_get_absent;
use crate::vassoc::vlemma_seq_get_at;
use crate::vassoc::vlemma_seq_get_push;
use crate::vassoc::vlemma_seq_get_remove;
use crate::vassoc::vlemma_seq_get_update;
use crate::vassoc::vseq_get;
use crate::vassoc::vseq_keys_distinct;

verus! {

/// Columns of the base grid.
pub const CLICK_HEATMAP_BASE_COLS: usize = 256;

/// Rows of the base grid.
pub const CLICK_HEATMAP_BASE_ROWS: usize = 256;

/// Cells of the base grid.
pub const CLICK_HEATMAP_BASE_LEN: usize = 256 * 256;

/// Days of per-day heatmaps kept in memory; older days are evicted.
pub const CLICK_HEATMAP_MAX_DAILY_DAYS: usize = 60;

/// The sum of all cells of a grid, as an unbounded integer.
pub open spec fn sum_grid(s: Seq<u32>) -> int
    decreases s.len(),
{
    if s.len() == 0 {
        0
    } else {
        sum_grid(s.drop_last()) + s.last()
    }
}

/// The sum of a grid is nonnegative and at most `len * u32::MAX`.
pub proof fn lemma_sum_grid_bounds(s: Seq<u32>)
    ensures
        0 <= sum_grid(s) <= s.len() * u32::MAX,
    decreases s.len(),
{
    if s.len() > 0 {
        lemma_sum_grid_bounds(s.drop_last());
        assert(s.drop_last().len() * u32::MAX + u32::MAX == s.len() * u32::MAX) by (nonlinear_arith)
            requires s.len() >= 1 && s.drop_last().len() == s.len() - 1;
    }
}

/// Appending a cell adds its count to the sum.
pub proof fn lemma_sum_grid_push(s: Seq<u32>, v: u32)
    ensures
        sum_grid(s.push(v)) == sum_grid(s) + v,
{
    assert(s.push(v).drop_last() =~= s);
    assert(s.push(v).last() == v);
}

/// Rewriting one cell moves the sum by exactly the difference.
pub proof fn lemma_sum_grid_update(s: Seq<u32>, i: int, v: u32)
    requires
        0 <= i < s.len(),
    ensures
        sum_grid(s.update(i, v)) == sum_grid(s) - s[i] + v,
    decreases s.len(),
{
    let t = s.update(i, v);
    if i == s.len() - 1 {
        assert(t.drop_last() =~= s.drop_last());
        assert(t.last() == v);
        assert(s.last() == s[i]);
    } else {
        assert(t.drop_last() =~= s.drop_last().update(i, v));
        assert(t.last() == s.last());
        lemma_sum_grid_update(s.drop_last(), i, v);
        assert(s.drop_last()[i] == s[i]);
    }
}

/// A grid after `n` recorded hits on cell `idx`: each hit bumps the cell by
/// one, saturating, exactly as `record_hit` does to a display's grid and as
/// `record` does to a daily table's grid.
pub open spec fn spec_grid_after_hits(g: Seq<u32>, idx: int, n: nat) -> Seq<u32>
    decreases n,
{
    if n == 0 {
        g
    } else {
        let prev = spec_grid_after_hits(g, idx, (n - 1) as nat);
        prev.update(idx, prev[idx].saturating_add(1))
    }
}

/// Law: hits are observable one for one. After `n` recorded hits on a cell
/// that stays below saturation, the cell reads exactly `n` more than before
/// and every other cell reads what it did — in the all-time grid and the
/// daily grid alike, since both advance by the same step.
pub proof fn lemma_hits_observable(g: Seq<u32>, idx: int, n: nat)
    requires
        0 <= idx < g.len(),
        g[idx] + n <= u32::MAX,
    ensures
        spec_grid_after_hits(g, idx, n).len() == g.len(),
        spec_grid_after_hits(g, idx, n)[idx] == g[idx] + n,
        forall|j: int| 0 <= j < g.len() && j != idx ==> spec_grid_after_hits(g, idx, n)[j]
            == g[j],
    decreases n,
{
    if n > 0 {
        lemma_hits_observable(g, idx, (n - 1) as nat);
    }
}

/// The click heatmap of one display: the base grid and the total number of
/// clicks attributed to the display.
#[derive(Debug)]
pub struct DisplayClickHeatmap {
    pub grid: Vec<u32>,
    pub total_clicks: u64,
}

impl DisplayClickHeatmap {
    /// The grid has exactly the base resolution and its cells never sum past
    /// the total.
    pub open spec fn wf(self) -> bool {
        &&& self.grid@.len() == CLICK_HEATMAP_BASE_LEN
        &&& sum_grid(self.grid@) <= self.total_clicks
    }

    /// An empty heatmap: all cells zero, no clicks.
    pub fn new() -> (r: DisplayClickHeatmap)
        ensures
            r.wf(),
            r.total_clicks == 0,
            r.grid@ =~= Seq::new(CLICK_HEATMAP_BASE_LEN as nat, |i: int| 0u32),
    {
        let mut grid: Vec<u32> = Vec::new();
        let mut i: usize = 0;
        while i < CLICK_HEATMAP_BASE_LEN
            invariant
                0 <= i <= CLICK_HEATMAP_BASE_LEN,
                grid@.len() == i,
                forall|j: int| 0 <= j < i ==> grid@[j] == 0u32,
                sum_grid(grid@) == 0,
            decreases CLICK_HEATMAP_BASE_LEN - i,
        {
            proof {
                lemma_sum_grid_push(grid@, 0u32);
            }
            grid.push(0);
            i += 1;
        }
        DisplayClickHeatmap { grid, total_clicks: 0 }
    }

    /// Reads one cell.
    pub fn cell(&self, idx: usize) -> (r: u32)
        requires
            self.wf(),
            idx < CLICK_HEATMAP_BASE_LEN,
        ensures
            r == self.grid@[idx as int],
    {
        self.grid[idx]
    }

    /// Counts one click into cell `idx`: the cell and the total both grow by
    /// one, saturating.
    pub fn record_hit(&mut self, idx: usize)
        requires
            old(self).wf(),
            idx < CLICK_HEATMAP_BASE_LEN,
        ensures
            final(self).wf(),
            final(self).grid@ == old(self).grid@.update(idx as int,
                old(self).grid@[idx as int].saturating_add(1)),
            final(self).total_clicks == old(self).total_clicks.saturating_add(1),
    {
        let cur = self.grid[idx];
        let next = cur.saturating_add(1);
        let slot = &mut self.grid[idx];
        *slot = next;
        self.total_clicks = self.total_clicks.saturating_add(1);
        proof {
            lemma_sum_grid_update(old(self).grid@, idx as int, next);
            lemma_sum_grid_bounds(old(self).grid@);
        }
    }
}

/// Per-display heatmaps, keyed by display id.
#[derive(Debug)]
pub struct DisplayMap {
    pub entries: Vec<(String, DisplayClickHeatmap)>,
}

impl DisplayMap {
    /// Distinct display ids, each with a well-formed heatmap.
    pub open spec fn wf(self) -> bool {
        &&& seq_keys_distinct(self.entries@)
        &&& forall|i: int| 0 <= i < self.entries@.len() ==> (#[trigger] self.entries@[i]).1.wf()
    }

    /// The heatmap stored for a display, if any.
    pub open spec fn spec_get(self, k: Seq<char>) -> Option<DisplayClickHeatmap> {
        seq_get(self.entries@, k)
    }

    /// The grid of a display, an all-zero grid when the display is absent.
    pub open spec fn spec_grid(self, k: Seq<char>) -> Seq<u32> {
        match self.spec_get(k) {
            Some(d) => d.grid@,
            None => Seq::new(CLICK_HEATMAP_BASE_LEN as nat, |i: int| 0u32),
        }
    }

    /// The total clicks of a display, zero when absent.
    pub open spec fn spec_total(self, k: Seq<char>) -> u64 {
        match self.spec_get(k) {
            Some(d) => d.total_clicks,
            None => 0,
        }
    }

    /// An empty table.
    pub fn new() -> (r: DisplayMap)
        ensures
            r.wf(),
            r.entries@.len() == 0,
            forall|k: Seq<char>| r.spec_get(k) is None,
    {
        DisplayMap { entries: Vec::new() }
    }

    /// Number of displays present.
    pub fn len(&self) -> (r: usize)
        ensures
            r == self.entries@.len(),
    {
        self.entries.len()
    }

    /// Reads the cell and total of a display: `(cell value, total clicks)`.
    pub fn read(&self, display_id: &str, idx: usize) -> (r: (u32, u64))
        requires
            self.wf(),
            idx < CLICK_HEATMAP_BASE_LEN,
        ensures
            r.0 == self.spec_grid(display_id@)[idx as int],
            r.1 == self.spec_total(display_id@),
    {
        let n = self.entries.len();
        let mut i: usize = 0;
        while i < n
            invariant
                0 <= i <= n,
                n == self.entries@.len(),
                self.wf(),
                idx < CLICK_HEATMAP_BASE_LEN,
                forall|j: int| 0 <= j < i ==> self.entries@[j].0@ != display_id@,
            decreases n - i,
        {
            if str_eq(self.entries[i].0.as_str(), display_id) {
                proof {
                    lemma_seq_get_at(self.entries@, i as int);
                }
                return (self.entries[i].1.cell(idx), self.entries[i].1.total_clicks);
            }
            i += 1;
        }
        proof {
            lemma_seq_get_absent(self.entries@, display_id@);
        }
        (0, 0)
    }

    /// Borrows a display's heatmap, if the display is tracked.
    pub fn get(&self, display_id: &str) -> (r: Option<&DisplayClickHeatmap>)
        requires
            self.wf(),
        ensures
            r is Some <==> self.spec_get(display_id@) is Some,
            r is Some ==> *r->0 == self.spec_get(display_id@)->0 && r->0.wf(),
    {
        let n = self.entries.len();
        let mut i: usize = 0;
        while i < n
            invariant
                0 <= i <= n,
                n == self.entries@.len(),
                self.wf(),
                forall|j: int| 0 <= j < i ==> self.entries@[j].0@ != display_id@,
            decreases n - i,
        {
            if str_eq(self.entries[i].0.as_str(), display_id) {
                proof {
                    lemma_seq_get_at(self.entries@, i as int);
                }
                return Some(&self.entries[i].1);
            }
            i += 1;
        }
        proof {
            lemma_seq_get_absent(self.entries@, display_id@);
        }
        None
    }

    /// Counts one click into cell `idx` of the display's heatmap, creating
    /// the display's entry on first use; other displays keep their state.
    pub fn record(&mut self, display_id: &str, idx: usize)
        requires
            old(self).wf(),
            idx < CLICK_HEATMAP_BASE_LEN,
        ensures
            final(self).wf(),
            final(self).spec_grid(display_id@) == old(self).spec_grid(display_id@).update(
                idx as int, old(self).spec_grid(display_id@)[idx as int].saturating_add(1)),
            final(self).spec_total(display_id@) == old(self).spec_total(
                display_id@).saturating_add(1),
            forall|k2: Seq<char>| k2 != display_id@ ==> final(self).spec_get(k2) == old(
                self).spec_get(k2),
            final(self).entries@.len() == if old(self).spec_get(display_id@) is Some {
                old(self).entries@.len()
            } else {
                old(self).entries@.len() + 1
            },
    {
        let n = self.entries.len();
        let mut i: usize = 0;
        while i < n
            invariant
                0 <= i <= n,
                n == self.entries@.len(),
                self.wf(),
                *self == *old(self),
                idx < CLICK_HEATMAP_BASE_LEN,
                forall|j: int| 0 <= j < i ==> self.entries@[j].0@ != display_id@,
            decreases n - i,
        {
            if str_eq(self.entries[i].0.as_str(), display_id) {
                proof {
                    lemma_seq_get_at(self.entries@, i as int);
                }
                let ghost pre = self.entries@;
                let slot = &mut self.entries[i].1;
                slot.record_hit(idx);
                proof {
                    let v = *final(slot);
                    assert(self.entries@ =~= pre.update(i as int, (pre[i as int].0, v)));
                    assert forall|k2: Seq<char>| true implies seq_get(self.entries@, k2) == (
                        if pre[i as int].0@ == k2 {
                            Some(v)
                        } else {
                            seq_get(pre, k2)
                        }) by {
                        lemma_seq_get_update(pre, i as int, v, k2);
                    }
                }
                return;
            }
            i += 1;
        }
        proof {
            lemma_seq_get_absent(self.entries@, display_id@);
        }
        let mut fresh = DisplayClickHeatmap::new();
        fresh.record_hit(idx);
        let ghost pre = self.entries@;
        let entry = (copy_str(display_id), fresh);
        self.entries.push(entry);
        proof {
            assert forall|k2: Seq<char>| true implies seq_get(self.entries@, k2) == (
                if seq_get(pre, k2) is Some {
                    seq_get(pre, k2)
                } else if display_id@ == k2 {
                    Some(entry.1)
                } else {
                    None
                }) by {
                lemma_seq_get_push(pre, entry, k2);
            }
            assert(seq_keys_distinct(self.entries@)) by {
                assert(forall|j: int| 0 <= j < pre.len() ==> pre[j].0@ != display_id@);
                assert(forall|j: int| 0 <= j < pre.len() ==> self.entries@[j] == pre[j]);
                assert(self.entries@[pre.len() as int] == entry);
            }
            assert(final(self).spec_grid(display_id@) =~= old(self).spec_grid(
                display_id@).update(idx as int, old(self).spec_grid(
                display_id@)[idx as int].saturating_add(1)));
        }
    }

    /// Forgets one display's heatmap.
    pub fn remove(&mut self, display_id: &str)
        requires
            old(self).wf(),
        ensures
            final(self).wf(),
            final(self).spec_get(display_id@) is None,
            forall|k2: Seq<char>| k2 != display_id@ ==> final(self).spec_get(k2) == old(
                self).spec_get(k2),
    {
        let n = self.entries.len();
        let mut i: usize = 0;
        while i < n
            invariant
                0 <= i <= n,
                n == self.entries@.len(),
                self.wf(),
                *self == *old(self),
                forall|j: int| 0 <= j < i ==> self.entries@[j].0@ != display_id@,
            decreases n - i,
        {
            if str_eq(self.entries[i].0.as_str(), display_id) {
                let ghost pre = self.entries@;
                self.entries.remove(i);
                proof {
                    assert forall|k2: Seq<char>| true implies seq_get(self.entries@, k2) == (
                        if pre[i as int].0@ == k2 {
                            None
                        } else {
                            seq_get(pre, k2)
                        }) by {
                        crate::assoc::lemma_seq_get_remove(pre, i as int, k2);
                    }
                    assert forall|j: int| 0 <= j < self.entries@.len()
                        implies (#[trigger] self.entries@[j]).1.wf() by {
                        assert(self.entries@[j] == if j < i {
                            pre[j]
                        } else {
                            pre[j + 1]
                        });
                    }
                }
                return;
            }
            i += 1;
        }
        proof {
            lemma_seq_get_absent(self.entries@, display_id@);
        }
    }

    /// Forgets every display.
    pub fn clear(&mut self)
        ensures
            final(self).wf(),
            forall|k: Seq<char>| final(self).spec_get(k) is None,
            final(self).entries@.len() == 0,
    {
        self.entries = Vec::new();
    }
}

/// The per-display heatmaps of one day.
#[derive(Debug)]
pub struct DailyClickHeatmapState {
    pub displays: DisplayMap,
}

impl DailyClickHeatmapState {
    /// Well-formed display table.
    pub open spec fn wf(self) -> bool {
        self.displays.wf()
    }

    /// An empty day.
    pub fn new() -> (r: DailyClickHeatmapState)
        ensures
            r.wf(),
            r.displays.entries@.len() == 0,
            forall|k: Seq<char>| r.displays.spec_get(k) is None,
    {
        DailyClickHeatmapState { displays: DisplayMap::new() }
    }
}

/// Daily heatmap tables keyed by calendar day, bounded in age.
#[derive(Debug)]
pub struct DayMap {
    pub entries: Vec<(DateKey, DailyClickHeatmapState)>,
}

impl DayMap {
    /// Distinct, well-formed days with well-formed tables.
    pub open spec fn wf(self) -> bool {
        &&& vseq_keys_distinct(self.entries@)
        &&& forall|i: int| 0 <= i < self.entries@.len() ==> (#[trigger] self.entries@[i]).0.wf()
        &&& forall|i: int| 0 <= i < self.entries@.len() ==> (#[trigger] self.entries@[i]).1.wf()
    }

    /// The day's table, if the day is tracked.
    pub open spec fn spec_get(self, k: DateKey) -> Option<DailyClickHeatmapState> {
        vseq_get(self.entries@, k)
    }

    /// An empty table.
    pub fn new() -> (r: DayMap)
        ensures
            r.wf(),
            r.entries@.len() == 0,
            forall|k: DateKey| r.spec_get(k) is None,
    {
        DayMap { entries: Vec::new() }
    }

    /// Number of days tracked.
    pub fn len(&self) -> (r: usize)
        ensures
            r == self.entries@.len(),
    {
        self.entries.len()
    }

    /// Reads the cell and total of a display on a day; zeros when untracked.
    pub fn read(&self, date: DateKey, display_id: &str, idx: usize) -> (r: (u32, u64))
        requires
            self.wf(),
            idx < CLICK_HEATMAP_BASE_LEN,
        ensures
            match self.spec_get(date) {
                Some(day) => r.0 == day.displays.spec_grid(display_id@)[idx as int] && r.1
                    == day.displays.spec_total(display_id@),
                None => r == (0u32, 0u64),
            },
    {
        let n = self.entries.len();
        let mut i: usize = 0;
        while i < n
            invariant
                0 <= i <= n,
                n == self.entries@.len(),
                self.wf(),
                idx < CLICK_HEATMAP_BASE_LEN,
                forall|j: int| 0 <= j < i ==> self.entries@[j].0 != date,
            decreases n - i,
        {
            if self.entries[i].0 == date {
                proof {
                    vlemma_seq_get_at(self.entries@, i as int);
                }
                return self.entries[i].1.displays.read(display_id, idx);
            }
            i += 1;
        }
        proof {
            vlemma_seq_get_absent(self.entries@, date);
        }
        (0, 0)
    }

    /// Borrows a day's table, if the day is tracked.
    pub fn get_day(&self, date: DateKey) -> (r: Option<&DailyClickHeatmapState>)
        requires
            self.wf(),
        ensures
            r is Some <==> self.spec_get(date) is Some,
            r is Some ==> *r->0 == self.spec_get(date)->0 && r->0.wf(),
    {
        let n = self.entries.len();
        let mut i: usize = 0;
        while i < n
            invariant
                0 <= i <= n,
                n == self.entries@.len(),
                self.wf(),
                forall|j: int| 0 <= j < i ==> self.entries@[j].0 != date,
            decreases n - i,
        {
            if self.entries[i].0 == date {
                proof {
                    vlemma_seq_get_at(self.entries@, i as int);
                }
                return Some(&self.entries[i].1);
            }
            i += 1;
        }
        proof {
            vlemma_seq_get_absent(self.entries@, date);
        }
        None
    }

    /// Counts one click into the day's table, creating the day on first use;
    /// other days keep their state.
    pub fn record(&mut self, date: DateKey, display_id: &str, idx: usize)
        requires
            old(self).wf(),
            date.wf(),
            idx < CLICK_HEATMAP_BASE_LEN,
        ensures
            final(self).wf(),
            ({
                let prev_grid = match old(self).spec_get(date) {
                    Some(day) => day.displays.spec_grid(display_id@),
                    None => Seq::new(CLICK_HEATMAP_BASE_LEN as nat, |i: int| 0u32),
                };
                let prev_total = match old(self).spec_get(date) {
                    Some(day) => day.displays.spec_total(display_id@),
                    None => 0u64,
                };
                match final(self).spec_get(date) {
                    Some(day) => day.displays.spec_grid(display_id@) == prev_grid.update(
                        idx as int, prev_grid[idx as int].saturating_add(1))
                        && day.displays.spec_total(display_id@) == prev_total.saturating_add(1),
                    None => false,
                }
            }),
            forall|k2: DateKey| k2 != date ==> final(self).spec_get(k2) == old(self).spec_get(k2),
            final(self).entries@.len() == if old(self).spec_get(date) is Some {
                old(self).entries@.len()
            } else {
                old(self).entries@.len() + 1
            },
    {
        let n = self.entries.len();
        let mut i: usize = 0;
        while i < n
            invariant
                0 <= i <= n,
                n == self.entries@.len(),
                self.wf(),
                *self == *old(self),
                idx < CLICK_HEATMAP_BASE_LEN,
                forall|j: int| 0 <= j < i ==> self.entries@[j].0 != date,
            decreases n - i,
        {
            if self.entries[i].0 == date {
                proof {
                    vlemma_seq_get_at(self.entries@, i as int);
                }
                let ghost pre = self.entries@;
                let day = &mut self.entries[i].1;
                day.displays.record(display_id, idx);
                proof {
                    let v = *final(day);
                    assert(self.entries@ =~= pre.update(i as int, (pre[i as int].0, v)));
                    assert forall|k2: DateKey| true implies vseq_get(self.entries@, k2) == (
                        if pre[i as int].0 == k2 {
                            Some(v)
                        } else {
                            vseq_get(pre, k2)
                        }) by {
                        vlemma_seq_get_update(pre, i as int, v, k2);
                    }
                }
                return;
            }
            i += 1;
        }
        proof {
            vlemma_seq_get_absent(self.entries@, date);
        }
        let mut fresh = DailyClickHeatmapState::new();
        fresh.displays.record(display_id, idx);
        let ghost pre = self.entries@;
        let entry = (date, fresh);
        self.entries.push(entry);
        proof {
            assert forall|k2: DateKey| true implies vseq_get(self.entries@, k2) == (
                if vseq_get(pre, k2) is Some {
                    vseq_get(pre, k2)
                } else if date == k2 {
                    Some(entry.1)
                } else {
                    None
                }) by {
                vlemma_seq_get_push(pre, entry, k2);
            }
            assert(vseq_keys_distinct(self.entries@)) by {
                assert(forall|j: int| 0 <= j < pre.len() ==> pre[j].0 != date);
                assert(forall|j: int| 0 <= j < pre.len() ==> self.entries@[j] == pre[j]);
                assert(self.entries@[pre.len() as int] == entry);
            }
            assert(final(self).spec_get(date) is Some);
            let day = final(self).spec_get(date)->Some_0;
            assert(day.displays.spec_grid(display_id@) =~= Seq::new(
                CLICK_HEATMAP_BASE_LEN as nat, |i: int| 0u32).update(idx as int,
                Seq::new(CLICK_HEATMAP_BASE_LEN as nat, |i: int| 0u32)[idx as int].saturating_add(
                1)));
        }
    }

    /// Evicts the oldest tracked day. A day that survives keeps its table; a
    /// day evicted is at least as old as every tracked day.
    pub fn evict_oldest(&mut self)
        requires
            old(self).wf(),
            old(self).entries@.len() > 0,
        ensures
            final(self).wf(),
            final(self).entries@.len() == old(self).entries@.len() - 1,
            forall|k: DateKey| final(self).spec_get(k) is Some ==> final(self).spec_get(k) == old(
                self).spec_get(k),
            forall|k: DateKey, k2: DateKey|
                (old(self).spec_get(k) is Some && final(self).spec_get(k) is None && old(
                    self).spec_get(k2) is Some) ==> k.spec_ord() <= k2.spec_ord(),
    {
        let n = self.entries.len();
        let mut min_idx: usize = 0;
        let mut i: usize = 1;
        while i < n
            invariant
                1 <= i <= n,
                n == self.entries@.len(),
                0 <= min_idx < i,
                *self == *old(self),
                self.wf(),
                forall|j: int| 0 <= j < i ==> self.entries@[min_idx as int].0.spec_ord()
                    <= (#[trigger] self.entries@[j]).0.spec_ord(),
            decreases n - i,
        {
            if self.entries[i].0.ord() < self.entries[min_idx].0.ord() {
                min_idx = i;
            }
            i += 1;
        }
        let ghost pre = self.entries@;
        self.entries.remove(min_idx);
        proof {
            assert forall|k2: DateKey| true implies vseq_get(self.entries@, k2) == (
                if pre[min_idx as int].0 == k2 {
                    None
                } else {
                    vseq_get(pre, k2)
                }) by {
                vlemma_seq_get_remove(pre, min_idx as int, k2);
            }
            assert forall|j: int| 0 <= j < self.entries@.len()
                implies (#[trigger] self.entries@[j]).0.wf() && self.entries@[j].1.wf() by {
                assert(self.entries@[j] == if j < min_idx {
                    pre[j]
                } else {
                    pre[j + 1]
                });
            }
            assert forall|k: DateKey, k2: DateKey|
                (vseq_get(pre, k) is Some && vseq_get(self.entries@, k) is None && vseq_get(pre,
                    k2) is Some) implies k.spec_ord() <= k2.spec_ord() by {
                if vseq_get(pre, k) is Some && vseq_get(self.entries@, k) is None {
                    assert(k == pre[min_idx as int].0);
                    if vseq_get(pre, k2) is Some {
                        assert(exists|j: int| 0 <= j < pre.len() && pre[j].0 == k2) by {
                            vlemma_some_means_present(pre, k2);
                        }
                        let j = choose|j: int| 0 <= j < pre.len() && pre[j].0 == k2;
                        assert(pre[min_idx as int].0.spec_ord() <= pre[j].0.spec_ord());
                    }
                }
            }
        }
    }

    /// Forgets one day's table.
    pub fn remove_day(&mut self, date: DateKey)
        requires
            old(self).wf(),
        ensures
            final(self).wf(),
            final(self).entries@.len() <= old(self).entries@.len(),
            final(self).spec_get(date) is None,
            forall|k2: DateKey| k2 != date ==> final(self).spec_get(k2) == old(self).spec_get(k2),
    {
        let n = self.entries.len();
        let mut i: usize = 0;
        while i < n
            invariant
                0 <= i <= n,
                n == self.entries@.len(),
                self.wf(),
                *self == *old(self),
                forall|j: int| 0 <= j < i ==> self.entries@[j].0 != date,
            decreases n - i,
        {
            if self.entries[i].0 == date {
                let ghost pre = self.entries@;
                self.entries.remove(i);
                proof {
                    assert forall|k2: DateKey| true implies vseq_get(self.entries@, k2) == (
                        if pre[i as int].0 == k2 {
                            None
                        } else {
                            vseq_get(pre, k2)
                        }) by {
                        vlemma_seq_get_remove(pre, i as int, k2);
                    }
                    assert forall|j: int| 0 <= j < self.entries@.len()
                        implies (#[trigger] self.entries@[j]).0.wf() && self.entries@[j].1.wf()
                        by {
                        assert(self.entries@[j] == if j < i {
                            pre[j]
                        } else {
                            pre[j + 1]
                        });
                    }
                }
                return;
            }
            i += 1;
        }
        proof {
            vlemma_seq_get_absent(self.entries@, date);
        }
    }
}

/// A present lookup has a witness entry.
proof fn vlemma_some_means_present(s: Seq<(DateKey, DailyClickHeatmapState)>, k: DateKey)
    requires
        vseq_get(s, k) is Some,
    ensures
        exists|j: int| 0 <= j < s.len() && s[j].0 == k,
    decreases s.len(),
{
    if s.len() > 0 {
        if s[0].0 == k {
            assert(0 <= 0 < s.len() && s[0].0 == k);
        } else {
            vlemma_some_means_present(s.drop_first(), k);
            let j = choose|j: int| 0 <= j < s.drop_first().len() && s.drop_first()[j].0 == k;
            assert(s[j + 1].0 == k);
        }
    }
}

} // verus!
