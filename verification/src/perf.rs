//! Performance counters and timings for the hot paths, cheap enough to keep
//! on: a counter moves only while the instrumentation is enabled.

use vstd::prelude::*;

verus! {

/// Which hot path a timing sample belongs to.
#[derive(Debug, Clone, Copy, PartialEq, Eq, Structural)]
pub enum TimerKind {
    KeyCodeMap,
    ActiveAppQuery,
    ClickHeatmap,
    MouseDistanceMove,
    MouseDistanceFlush,
    BatchProcess,
}

/// Event counters.
#[derive(Debug, Clone, Copy, PartialEq, Eq, Structural)]
pub struct PerfCounters {
    pub input_events_total: u64,
    pub input_events_key: u64,
    pub input_events_mouse_click: u64,
    pub input_events_mouse_move: u64,
    pub enqueue_triggers_total: u64,
    pub batch_process_calls: u64,
    pub batch_process_triggers: u64,
    pub persist_requests: u64,
    pub heatmap_clicks_recorded: u64,
    pub heatmap_emits: u64,
}

/// One accumulated timing: samples, total time, and the average.
#[derive(Debug, Clone, Copy, PartialEq, Eq, Structural)]
pub struct PerfTiming {
    pub samples: u64,
    pub total_ns: u64,
    pub avg_ns: u64,
}

/// The timings of every instrumented path.
#[derive(Debug, Clone, Copy, PartialEq, Eq, Structural)]
pub struct PerfTimings {
    pub keycode_map: PerfTiming,
    pub active_app_query: PerfTiming,
    pub click_heatmap: PerfTiming,
    pub mouse_distance_move: PerfTiming,
    pub mouse_distance_flush: PerfTiming,
    pub batch_process: PerfTiming,
}

/// A self-contained report of the counters and timings.
#[derive(Debug, Clone, Copy, PartialEq, Eq, Structural)]
pub struct PerfSnapshot {
    pub supported: bool,
    pub enabled: bool,
    pub uptime_ms: u64,
    pub counters: PerfCounters,
    pub timings: PerfTimings,
}

/// The reported timing a cell yields: its samples and total, with the
/// average over the samples, zero when there are none.
pub open spec fn spec_reports(cell: TimingCell, t: PerfTiming) -> bool {
    &&& t.samples == cell.samples
    &&& t.total_ns == cell.total_ns
    &&& t.avg_ns == if cell.samples > 0 {
        cell.total_ns / cell.samples
    } else {
        0u64
    }
}

/// One timing accumulator: nanoseconds and samples.
#[derive(Debug, Clone, Copy, PartialEq, Eq, Structural)]
pub struct TimingCell {
    pub total_ns: u64,
    pub samples: u64,
}

/// The live instrumentation state.
#[derive(Debug, Clone, Copy, PartialEq, Eq, Structural)]
pub struct PerfState {
    pub enabled: bool,
    pub counters: PerfCounters,
    pub keycode_map: TimingCell,
    pub active_app_query: TimingCell,
    pub click_heatmap: TimingCell,
    pub mouse_distance_move: TimingCell,
    pub mouse_distance_flush: TimingCell,
    pub batch_process: TimingCell,
}

impl TimingCell {
    /// No samples yet.
    pub fn zero() -> (r: TimingCell)
        ensures
            r.total_ns == 0,
            r.samples == 0,
    {
        TimingCell { total_ns: 0, samples: 0 }
    }

    /// The cell after one sample of `ns` nanoseconds.
    pub open spec fn spec_sampled(self, ns: u64) -> TimingCell {
        TimingCell {
            total_ns: self.total_ns.saturating_add(ns),
            samples: self.samples.saturating_add(1),
        }
    }

    /// The reported timing: average over the samples, zero with none.
    pub fn report(&self) -> (r: PerfTiming)
        ensures
            r.samples == self.samples,
            r.total_ns == self.total_ns,
            self.samples > 0 ==> r.avg_ns == self.total_ns / self.samples,
            self.samples == 0 ==> r.avg_ns == 0,
    {
        let avg_ns = if self.samples > 0 {
            self.total_ns / self.samples
        } else {
            0
        };
        PerfTiming { samples: self.samples, total_ns: self.total_ns, avg_ns }
    }
}

impl PerfState {
    /// Instrumentation on with everything at zero.
    pub fn new() -> (r: PerfState)
        ensures
            r.enabled,
            r.counters == (PerfCounters {
                input_events_total: 0u64,
                input_events_key: 0u64,
                input_events_mouse_click: 0u64,
                input_events_mouse_move: 0u64,
                enqueue_triggers_total: 0u64,
                batch_process_calls: 0u64,
                batch_process_triggers: 0u64,
                persist_requests: 0u64,
                heatmap_clicks_recorded: 0u64,
                heatmap_emits: 0u64,
            }),
    {
        PerfState {
            enabled: true,
            counters: PerfCounters {
                input_events_total: 0,
                input_events_key: 0,
                input_events_mouse_click: 0,
                input_events_mouse_move: 0,
                enqueue_triggers_total: 0,
                batch_process_calls: 0,
                batch_process_triggers: 0,
                persist_requests: 0,
                heatmap_clicks_recorded: 0,
                heatmap_emits: 0,
            },
            keycode_map: TimingCell::zero(),
            active_app_query: TimingCell::zero(),
            click_heatmap: TimingCell::zero(),
            mouse_distance_move: TimingCell::zero(),
            mouse_distance_flush: TimingCell::zero(),
            batch_process: TimingCell::zero(),
        }
    }

    /// Whether samples are being taken.
    pub fn is_enabled(&self) -> (r: bool)
        ensures
            r == self.enabled,
    {
        self.enabled
    }

    /// Turns the instrumentation on or off.
    pub fn set_enabled(&mut self, enabled: bool)
        ensures
            *final(self) == (PerfState { enabled, ..*old(self) }),
    {
        self.enabled = enabled;
    }

    /// Counts one key event.
    pub fn inc_input_key(&mut self)
        ensures
            !old(self).enabled ==> *final(self) == *old(self),
            old(self).enabled ==> *final(self) == (PerfState {
                counters: PerfCounters {
                    input_events_total: old(self).counters.input_events_total.saturating_add(1),
                    input_events_key: old(self).counters.input_events_key.saturating_add(1),
                    ..old(self).counters
                },
                ..*old(self)
            }),
    {
        if !self.enabled {
            return;
        }
        self.counters.input_events_total = self.counters.input_events_total.saturating_add(1);
        self.counters.input_events_key = self.counters.input_events_key.saturating_add(1);
    }

    /// Counts one mouse click.
    pub fn inc_input_mouse_click(&mut self)
        ensures
            !old(self).enabled ==> *final(self) == *old(self),
            old(self).enabled ==> *final(self) == (PerfState {
                counters: PerfCounters {
                    input_events_total: old(self).counters.input_events_total.saturating_add(1),
                    input_events_mouse_click: old(
                        self).counters.input_events_mouse_click.saturating_add(1),
                    ..old(self).counters
                },
                ..*old(self)
            }),
    {
        if !self.enabled {
            return;
        }
        self.counters.input_events_total = self.counters.input_events_total.saturating_add(1);
        self.counters.input_events_mouse_click =
            self.counters.input_events_mouse_click.saturating_add(1);
    }

    /// Counts one mouse move.
    pub fn inc_input_mouse_move(&mut self)
        ensures
            !old(self).enabled ==> *final(self) == *old(self),
            old(self).enabled ==> *final(self) == (PerfState {
                counters: PerfCounters {
                    input_events_total: old(self).counters.input_events_total.saturating_add(1),
                    input_events_mouse_move: old(
                        self).counters.input_events_mouse_move.saturating_add(1),
                    ..old(self).counters
                },
                ..*old(self)
            }),
    {
        if !self.enabled {
            return;
        }
        self.counters.input_events_total = self.counters.input_events_total.saturating_add(1);
        self.counters.input_events_mouse_move =
            self.counters.input_events_mouse_move.saturating_add(1);
    }

    /// Counts enqueued trigger units.
    pub fn inc_enqueue_triggers(&mut self, count: u64)
        ensures
            !old(self).enabled ==> *final(self) == *old(self),
            old(self).enabled ==> *final(self) == (PerfState {
                counters: PerfCounters {
                    enqueue_triggers_total: old(
                        self).counters.enqueue_triggers_total.saturating_add(count),
                    ..old(self).counters
                },
                ..*old(self)
            }),
    {
        if !self.enabled {
            return;
        }
        self.counters.enqueue_triggers_total =
            self.counters.enqueue_triggers_total.saturating_add(count);
    }

    /// Counts one persistence request.
    pub fn inc_persist_requests(&mut self)
        ensures
            !old(self).enabled ==> *final(self) == *old(self),
            old(self).enabled ==> *final(self) == (PerfState {
                counters: PerfCounters {
                    persist_requests: old(self).counters.persist_requests.saturating_add(1),
                    ..old(self).counters
                },
                ..*old(self)
            }),
    {
        if !self.enabled {
            return;
        }
        self.counters.persist_requests = self.counters.persist_requests.saturating_add(1);
    }

    /// Counts one heatmap click recorded.
    pub fn inc_heatmap_click_recorded(&mut self)
        ensures
            !old(self).enabled ==> *final(self) == *old(self),
            old(self).enabled ==> *final(self) == (PerfState {
                counters: PerfCounters {
                    heatmap_clicks_recorded: old(
                        self).counters.heatmap_clicks_recorded.saturating_add(1),
                    ..old(self).counters
                },
                ..*old(self)
            }),
    {
        if !self.enabled {
            return;
        }
        self.counters.heatmap_clicks_recorded =
            self.counters.heatmap_clicks_recorded.saturating_add(1);
    }

    /// Counts one heatmap update emission.
    pub fn inc_heatmap_emit(&mut self)
        ensures
            !old(self).enabled ==> *final(self) == *old(self),
            old(self).enabled ==> *final(self) == (PerfState {
                counters: PerfCounters {
                    heatmap_emits: old(self).counters.heatmap_emits.saturating_add(1),
                    ..old(self).counters
                },
                ..*old(self)
            }),
    {
        if !self.enabled {
            return;
        }
        self.counters.heatmap_emits = self.counters.heatmap_emits.saturating_add(1);
    }

    /// Records one timing sample for a path.
    pub fn record_duration(&mut self, kind: TimerKind, duration_ns: u64)
        ensures
            !old(self).enabled ==> *final(self) == *old(self),
            old(self).enabled ==> *final(self) == match kind {
                TimerKind::KeyCodeMap => PerfState {
                    keycode_map: old(self).keycode_map.spec_sampled(duration_ns),
                    ..*old(self)
                },
                TimerKind::ActiveAppQuery => PerfState {
                    active_app_query: old(self).active_app_query.spec_sampled(duration_ns),
                    ..*old(self)
                },
                TimerKind::ClickHeatmap => PerfState {
                    click_heatmap: old(self).click_heatmap.spec_sampled(duration_ns),
                    ..*old(self)
                },
                TimerKind::MouseDistanceMove => PerfState {
                    mouse_distance_move: old(self).mouse_distance_move.spec_sampled(duration_ns),
                    ..*old(self)
                },
                TimerKind::MouseDistanceFlush => PerfState {
                    mouse_distance_flush: old(self).mouse_distance_flush.spec_sampled(
                        duration_ns),
                    ..*old(self)
                },
                TimerKind::BatchProcess => PerfState {
                    batch_process: old(self).batch_process.spec_sampled(duration_ns),
                    ..*old(self)
                },
            },
    {
        if !self.enabled {
            return;
        }
        match kind {
            TimerKind::KeyCodeMap => {
                self.keycode_map.total_ns = self.keycode_map.total_ns.saturating_add(duration_ns);
                self.keycode_map.samples = self.keycode_map.samples.saturating_add(1);
            },
            TimerKind::ActiveAppQuery => {
                self.active_app_query.total_ns = self.active_app_query.total_ns.saturating_add(
                    duration_ns);
                self.active_app_query.samples = self.active_app_query.samples.saturating_add(1);
            },
            TimerKind::ClickHeatmap => {
                self.click_heatmap.total_ns = self.click_heatmap.total_ns.saturating_add(
                    duration_ns);
                self.click_heatmap.samples = self.click_heatmap.samples.saturating_add(1);
            },
            TimerKind::MouseDistanceMove => {
                self.mouse_distance_move.total_ns =
                    self.mouse_distance_move.total_ns.saturating_add(duration_ns);
                self.mouse_distance_move.samples =
                    self.mouse_distance_move.samples.saturating_add(1);
            },
            TimerKind::MouseDistanceFlush => {
                self.mouse_distance_flush.total_ns =
                    self.mouse_distance_flush.total_ns.saturating_add(duration_ns);
                self.mouse_distance_flush.samples =
                    self.mouse_distance_flush.samples.saturating_add(1);
            },
            TimerKind::BatchProcess => {
                self.batch_process.total_ns = self.batch_process.total_ns.saturating_add(
                    duration_ns);
                self.batch_process.samples = self.batch_process.samples.saturating_add(1);
            },
        }
    }

    /// Records one processed batch: its size and its duration.
    pub fn record_batch_process(&mut self, triggers: u64, duration_ns: u64)
        ensures
            !old(self).enabled ==> *final(self) == *old(self),
            old(self).enabled ==> {
                &&& final(self).counters.batch_process_calls == old(
                    self).counters.batch_process_calls.saturating_add(1)
                &&& final(self).counters.batch_process_triggers == old(
                    self).counters.batch_process_triggers.saturating_add(triggers)
                &&& final(self).batch_process == old(self).batch_process.spec_sampled(duration_ns)
                &&& final(self).enabled == old(self).enabled
            },
    {
        if !self.enabled {
            return;
        }
        self.counters.batch_process_calls = self.counters.batch_process_calls.saturating_add(1);
        self.counters.batch_process_triggers = self.counters.batch_process_triggers.saturating_add(
            triggers);
        self.record_duration(TimerKind::BatchProcess, duration_ns);
    }

    /// The full report at the given uptime: each timing carries its cell's
    /// samples and total, with the average `total_ns / samples` (zero with
    /// no samples, so no division by zero).
    pub fn snapshot(&self, uptime_ms: u64) -> (r: PerfSnapshot)
        ensures
            r.supported,
            r.enabled == self.enabled,
            r.uptime_ms == uptime_ms,
            r.counters == self.counters,
            spec_reports(self.keycode_map, r.timings.keycode_map),
            spec_reports(self.active_app_query, r.timings.active_app_query),
            spec_reports(self.click_heatmap, r.timings.click_heatmap),
            spec_reports(self.mouse_distance_move, r.timings.mouse_distance_move),
            spec_reports(self.mouse_distance_flush, r.timings.mouse_distance_flush),
            spec_reports(self.batch_process, r.timings.batch_process),
    {
        PerfSnapshot {
            supported: true,
            enabled: self.enabled,
            uptime_ms,
            counters: self.counters,
            timings: PerfTimings {
                keycode_map: self.keycode_map.report(),
                active_app_query: self.active_app_query.report(),
                click_heatmap: self.click_heatmap.report(),
                mouse_distance_move: self.mouse_distance_move.report(),
                mouse_distance_flush: self.mouse_distance_flush.report(),
                batch_process: self.batch_process.report(),
            },
        }
    }
}

} // verus!
