//! The whole click-heatmap state: all-time per-display grids plus bounded
//! per-day tables, and the operations the counting store runs on them.

use vstd::prelude::*;

use crate::datekey::DateKey;
use crate::heatmap::DayMap;
use crate::heatmap::DisplayMap;
use crate::heatmap::CLICK_HEATMAP_BASE_LEN;
use crate::heatmap::CLICK_HEATMAP_MAX_DAILY_DAYS;

verus! {

/// Version tag written into persisted heatmap snapshots.
pub const CLICK_HEATMAP_STATE_VERSION: u32 = 2;

/// Minimum spacing of heatmap-updated notifications per display, in
/// milliseconds.
pub const HEATMAP_EMIT_MIN_INTERVAL_MS: u64 = 120;

/// The payload of a heatmap-updated notification: which display changed.
#[derive(Debug)]
pub struct ClickHeatmapUpdatedPayload {
    pub display_id: String,
}

/// Whether a heatmap-updated notification for a display may go out now,
/// given when its last one went: at most one per interval.
pub fn should_emit_heatmap_update(last_emit_ms: u64, now_ms: u64) -> (r: bool)
    ensures
        r == (now_ms - last_emit_ms >= HEATMAP_EMIT_MIN_INTERVAL_MS),
{
    now_ms.saturating_sub(last_emit_ms) >= HEATMAP_EMIT_MIN_INTERVAL_MS
}

/// All-time and per-day click heatmaps for every display.
#[derive(Debug)]
pub struct ClickHeatmapState {
    pub version: u32,
    pub displays: DisplayMap,
    pub daily: DayMap,
}

impl ClickHeatmapState {
    /// Both tables well-formed and the daily table within its age bound.
    pub open spec fn wf(self) -> bool {
        &&& self.displays.wf()
        &&& self.daily.wf()
        &&& self.daily.entries@.len() <= CLICK_HEATMAP_MAX_DAILY_DAYS
    }

    /// An empty state at the current snapshot version.
    pub fn new() -> (r: ClickHeatmapState)
        ensures
            r.wf(),
            r.version == CLICK_HEATMAP_STATE_VERSION,
            forall|k: Seq<char>| r.displays.spec_get(k) is None,
            forall|k: DateKey| r.daily.spec_get(k) is None,
    {
        ClickHeatmapState {
            version: CLICK_HEATMAP_STATE_VERSION,
            displays: DisplayMap::new(),
            daily: DayMap::new(),
        }
    }

    /// Counts one click into cell `idx` of `display_id`, both all-time and in
    /// the table of `date`; a cell index off the grid changes nothing. The
    /// all-time cell and total grow by exactly one (saturating); so do the
    /// daily ones, unless the touched day was itself the oldest of an
    /// overfull table and fell to the age bound.
    pub fn record_click_heatmap_cell(&mut self, display_id: &str, date: DateKey, idx: usize)
        requires
            old(self).wf(),
            date.wf(),
        ensures
            final(self).wf(),
            idx >= CLICK_HEATMAP_BASE_LEN ==> *final(self) == *old(self),
            idx < CLICK_HEATMAP_BASE_LEN ==> {
                &&& final(self).displays.spec_grid(display_id@) == old(self).displays.spec_grid(
                    display_id@).update(idx as int, old(self).displays.spec_grid(
                    display_id@)[idx as int].saturating_add(1))
                &&& final(self).displays.spec_total(display_id@) == old(self).displays.spec_total(
                    display_id@).saturating_add(1)
                &&& (forall|k2: Seq<char>| k2 != display_id@ ==> final(self).displays.spec_get(k2)
                    == old(self).displays.spec_get(k2))
            },
            idx < CLICK_HEATMAP_BASE_LEN ==> match final(self).daily.spec_get(date) {
                Some(day) => {
                    let prev_grid = match old(self).daily.spec_get(date) {
                        Some(d) => d.displays.spec_grid(display_id@),
                        None => Seq::new(CLICK_HEATMAP_BASE_LEN as nat, |i: int| 0u32),
                    };
                    let prev_total = match old(self).daily.spec_get(date) {
                        Some(d) => d.displays.spec_total(display_id@),
                        None => 0u64,
                    };
                    &&& day.displays.spec_grid(display_id@) == prev_grid.update(idx as int,
                        prev_grid[idx as int].saturating_add(1))
                    &&& day.displays.spec_total(display_id@) == prev_total.saturating_add(1)
                },
                None => true,
            },
    {
        if idx >= CLICK_HEATMAP_BASE_LEN {
            return;
        }
        self.displays.record(display_id, idx);
        self.daily.record(date, display_id, idx);
        let ghost mid_displays = self.displays;
        let ghost mid_version = self.version;
        let ghost mid_daily = self.daily;
        while self.daily.len() > CLICK_HEATMAP_MAX_DAILY_DAYS
            invariant
                self.displays == mid_displays,
                self.version == mid_version,
                self.daily.wf(),
                forall|k: DateKey| self.daily.spec_get(k) is Some ==> self.daily.spec_get(k)
                    == mid_daily.spec_get(k),
            decreases self.daily.entries@.len(),
        {
            self.daily.evict_oldest();
        }
    }

    /// Clears heatmap data: for one display or all displays, all-time or for
    /// one day, matching which of the two selectors are given.
    pub fn clear_click_heatmap(&mut self, display_id: Option<&str>, date_key: Option<DateKey>)
        requires
            old(self).wf(),
        ensures
            final(self).wf(),
            match (display_id, date_key) {
                (Some(id), Some(d)) => match final(self).daily.spec_get(d) {
                    Some(day) => day.displays.spec_get(id@) is None,
                    None => true,
                },
                (None, Some(d)) => final(self).daily.spec_get(d) is None,
                (Some(id), None) => final(self).displays.spec_get(id@) is None && final(
                    self).daily == old(self).daily,
                (None, None) => (forall|k: Seq<char>| final(self).displays.spec_get(k) is None)
                    && final(self).daily == old(self).daily,
            },
    {
        match date_key {
            Some(key) => {
                match display_id {
                    Some(id) => {
                        self.remove_daily_display(key, id);
                    },
                    None => {
                        self.daily.remove_day(key);
                    },
                }
            },
            None => {
                match display_id {
                    Some(id) => {
                        self.displays.remove(id);
                    },
                    None => {
                        self.displays.clear();
                    },
                }
            },
        }
    }

    /// Removes one display from one day's table; drops the day when its table
    /// becomes empty.
    fn remove_daily_display(&mut self, date: DateKey, display_id: &str)
        requires
            old(self).wf(),
        ensures
            final(self).wf(),
            match final(self).daily.spec_get(date) {
                Some(day) => day.displays.spec_get(display_id@) is None,
                None => true,
            },
            final(self).displays == old(self).displays,
            final(self).version == old(self).version,
    {
        let n = self.daily.entries.len();
        let mut i: usize = 0;
        while i < n
            invariant
                0 <= i <= n,
                n == self.daily.entries@.len(),
                self.wf(),
                *self == *old(self),
                forall|j: int| 0 <= j < i ==> self.daily.entries@[j].0 != date,
            decreases n - i,
        {
            if self.daily.entries[i].0 == date {
                proof {
                    crate::vassoc::vlemma_seq_get_at(self.daily.entries@, i as int);
                }
                let ghost pre = self.daily.entries@;
                let day = &mut self.daily.entries[i].1;
                day.displays.remove(display_id);
                let now_empty = self.daily.entries[i].1.displays.len() == 0;
                proof {
                    let v = self.daily.entries@[i as int].1;
                    assert(self.daily.entries@ =~= pre.update(i as int, (pre[i as int].0, v)));
                    assert forall|k2: DateKey| true implies crate::vassoc::vseq_get(
                        self.daily.entries@, k2) == (if pre[i as int].0 == k2 {
                        Some(v)
                    } else {
                        crate::vassoc::vseq_get(pre, k2)
                    }) by {
                        crate::vassoc::vlemma_seq_get_update(pre, i as int, v, k2);
                    }
                    assert forall|j: int| 0 <= j < self.daily.entries@.len()
                        implies (#[trigger] self.daily.entries@[j]).0.wf()
                        && self.daily.entries@[j].1.wf() by {
                        if j != i {
                            assert(self.daily.entries@[j] == pre[j]);
                        }
                    }
                    assert(crate::vassoc::vseq_keys_distinct(self.daily.entries@)) by {
                        assert(forall|j: int| 0 <= j < pre.len()
                            ==> self.daily.entries@[j].0 == pre[j].0);
                    }
                    crate::vassoc::vlemma_seq_get_at(self.daily.entries@, i as int);
                }
                if now_empty {
                    self.daily.remove_day(date);
                }
                return;
            }
            i += 1;
        }
        proof {
            crate::vassoc::vlemma_seq_get_absent(self.daily.entries@, date);
        }
    }
}

} // verus!
