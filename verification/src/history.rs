//! The write-behind side of durable history: heatmap deltas buffered in
//! memory and flushed as one batch, plus the aggregate answer shape of the
//! statistics queries.
//!
//! The database worker owns the durable connection; the library owns the
//! buffering policy: deltas coalesce in memory and flush when either the
//! flush interval elapses or enough clicks accumulate.

use vstd::prelude::*;

use crate::datekey::DateKey;
use crate::counter_map::CounterMap;
use crate::heatmap::CLICK_HEATMAP_BASE_LEN;
use crate::heatmap_state::ClickHeatmapState;
use crate::stats::AppStatsMap;
use crate::stats::HourlyStats;

verus! {

/// Spacing of heatmap batch flushes, in milliseconds.
pub const HEATMAP_FLUSH_INTERVAL_MS: u64 = 650;

/// Clicks that force a flush before the interval elapses.
pub const HEATMAP_FLUSH_MAX_CLICKS: u64 = 1200;

/// The in-memory accumulation of heatmap deltas awaiting one batched write.
#[derive(Debug)]
pub struct HeatmapWriteBuffer {
    pub pending: ClickHeatmapState,
    pub pending_clicks: u64,
    pub last_flush_ms: u64,
}

impl HeatmapWriteBuffer {
    /// A well-formed pending state.
    pub open spec fn wf(self) -> bool {
        self.pending.wf()
    }

    /// Nothing pending.
    pub fn new() -> (r: HeatmapWriteBuffer)
        ensures
            r.wf(),
            r.pending_clicks == 0,
            r.last_flush_ms == 0,
            forall|k: Seq<char>| r.pending.displays.spec_get(k) is None,
    {
        HeatmapWriteBuffer {
            pending: ClickHeatmapState::new(),
            pending_clicks: 0,
            last_flush_ms: 0,
        }
    }

    /// Buffers one click delta for a cell; a cell off the grid changes
    /// nothing. The pending cell and totals grow exactly as the live
    /// heatmap's would.
    pub fn record(&mut self, display_id: &str, date: DateKey, idx: usize)
        requires
            old(self).wf(),
            date.wf(),
        ensures
            final(self).wf(),
            final(self).last_flush_ms == old(self).last_flush_ms,
            idx >= CLICK_HEATMAP_BASE_LEN ==> *final(self) == *old(self),
            idx < CLICK_HEATMAP_BASE_LEN ==> {
                &&& final(self).pending_clicks == old(self).pending_clicks.saturating_add(1)
                &&& final(self).pending.displays.spec_total(display_id@) == old(
                    self).pending.displays.spec_total(display_id@).saturating_add(1)
                &&& final(self).pending.displays.spec_grid(display_id@) == old(
                    self).pending.displays.spec_grid(display_id@).update(idx as int, old(
                    self).pending.displays.spec_grid(display_id@)[idx as int].saturating_add(1))
            },
    {
        if idx >= CLICK_HEATMAP_BASE_LEN {
            return;
        }
        self.pending.record_click_heatmap_cell(display_id, date, idx);
        self.pending_clicks = self.pending_clicks.saturating_add(1);
    }

    /// Whether the batch should flush now: something is pending and either
    /// the interval elapsed or enough clicks accumulated.
    pub fn should_flush(&self, now_ms: u64) -> (r: bool)
        ensures
            r == (self.pending_clicks > 0 && (now_ms - self.last_flush_ms
                >= HEATMAP_FLUSH_INTERVAL_MS || self.pending_clicks >= HEATMAP_FLUSH_MAX_CLICKS)),
    {
        self.pending_clicks > 0 && (now_ms.saturating_sub(self.last_flush_ms)
            >= HEATMAP_FLUSH_INTERVAL_MS || self.pending_clicks >= HEATMAP_FLUSH_MAX_CLICKS)
    }

    /// Takes the accumulated batch for writing and starts an empty one.
    pub fn take_batch(&mut self, now_ms: u64) -> (batch: ClickHeatmapState)
        requires
            old(self).wf(),
        ensures
            batch == old(self).pending,
            batch.wf(),
            final(self).wf(),
            final(self).pending_clicks == 0,
            final(self).last_flush_ms == now_ms,
            forall|k: Seq<char>| final(self).pending.displays.spec_get(k) is None,
    {
        let mut batch = ClickHeatmapState::new();
        core::mem::swap(&mut self.pending, &mut batch);
        self.pending_clicks = 0;
        self.last_flush_ms = now_ms;
        batch
    }
}

/// The aggregate answer of a statistics range query: per-key, per-shortcut
/// and per-button totals, hourly buckets, and per-application totals.
#[derive(Debug)]
pub struct StatisticsAggregates {
    pub key_counts_all: CounterMap,
    pub key_counts_unshifted: CounterMap,
    pub key_counts_shifted: CounterMap,
    pub shortcut_counts: CounterMap,
    pub mouse_button_counts: CounterMap,
    pub hourly: Vec<HourlyStats>,
    pub app_input_counts: AppStatsMap,
}

impl StatisticsAggregates {
    /// Well-formed maps and exactly one bucket per hour.
    pub open spec fn wf(self) -> bool {
        &&& self.key_counts_all.wf()
        &&& self.key_counts_unshifted.wf()
        &&& self.key_counts_shifted.wf()
        &&& self.shortcut_counts.wf()
        &&& self.mouse_button_counts.wf()
        &&& self.hourly@.len() == 24
        &&& self.app_input_counts.wf()
    }

    /// Nothing aggregated.
    pub fn new() -> (r: StatisticsAggregates)
        ensures
            r.wf(),
            forall|k: Seq<char>| r.key_counts_all.spec_get(k) == 0,
            forall|k: Seq<char>| r.shortcut_counts.spec_get(k) == 0,
            forall|k: Seq<char>| r.mouse_button_counts.spec_get(k) == 0,
            forall|k: Seq<char>| r.app_input_counts.spec_get(k) is None,
    {
        let mut hourly: Vec<HourlyStats> = Vec::new();
        let mut i: usize = 0;
        while i < 24
            invariant
                0 <= i <= 24,
                hourly@.len() == i,
            decreases 24 - i,
        {
            hourly.push(HourlyStats::zero());
            i += 1;
        }
        StatisticsAggregates {
            key_counts_all: CounterMap::new(),
            key_counts_unshifted: CounterMap::new(),
            key_counts_shifted: CounterMap::new(),
            shortcut_counts: CounterMap::new(),
            mouse_button_counts: CounterMap::new(),
            hourly,
            app_input_counts: AppStatsMap::new(),
        }
    }
}

} // verus!
