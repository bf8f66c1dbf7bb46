//! The aggregate for one calendar day: totals, hourly buckets, per-key,
//! per-shortcut, per-button and per-application counters, and mouse travel.

use vstd::prelude::*;

use crate::counter_map::CounterMap;
use crate::datekey::DateKey;
use crate::input::InputSource;
use crate::stats::AppStatsMap;
use crate::stats::HourlyStats;

verus! {

/// Hours in a day; the `hourly` vector always holds exactly this many buckets.
pub const HOURS_PER_DAY: usize = 24;

/// Everything counted during one day.
#[derive(Debug)]
pub struct DailyStats {
    pub date: DateKey,
    pub total: u64,
    pub keyboard: u64,
    pub mouse_single: u64,
    pub first_event_at_ms: Option<u64>,
    pub last_event_at_ms: Option<u64>,
    pub mouse_move_distance_px: u64,
    pub mouse_move_distance_px_by_display: CounterMap,
    pub hourly: Vec<HourlyStats>,
    pub key_counts: CounterMap,
    pub key_counts_unshifted: CounterMap,
    pub key_counts_shifted: CounterMap,
    pub shortcut_counts: CounterMap,
    pub mouse_button_counts: CounterMap,
    pub app_input_counts: AppStatsMap,
}

/// The slim view of a day handed to the UI on every refresh: totals and
/// hourly buckets without the heavy per-key maps.
#[derive(Debug)]
pub struct DailyStatsLite {
    pub date: DateKey,
    pub total: u64,
    pub keyboard: u64,
    pub mouse_single: u64,
    pub first_event_at_ms: Option<u64>,
    pub last_event_at_ms: Option<u64>,
    pub mouse_move_distance_px: u64,
    pub mouse_move_distance_px_by_display: CounterMap,
    pub hourly: Vec<HourlyStats>,
}

/// All of a day's detail maps empty: every counter reads zero and no
/// application is tracked.
pub open spec fn spec_empty_maps(d: DailyStats) -> bool {
    &&& (forall|k: Seq<char>| d.key_counts.spec_get(k) == 0)
    &&& (forall|k: Seq<char>| d.key_counts_unshifted.spec_get(k) == 0)
    &&& (forall|k: Seq<char>| d.key_counts_shifted.spec_get(k) == 0)
    &&& (forall|k: Seq<char>| d.shortcut_counts.spec_get(k) == 0)
    &&& (forall|k: Seq<char>| d.mouse_button_counts.spec_get(k) == 0)
    &&& (forall|k: Seq<char>| d.mouse_move_distance_px_by_display.spec_get(k) == 0)
    &&& (forall|k: Seq<char>| d.app_input_counts.spec_get(k) is None)
}

impl DailyStats {
    /// A day the library will work on: a real date, exactly 24 hourly
    /// buckets, and well-formed counter maps.
    pub open spec fn wf(self) -> bool {
        &&& self.date.wf()
        &&& self.hourly@.len() == HOURS_PER_DAY
        &&& self.mouse_move_distance_px_by_display.wf()
        &&& self.key_counts.wf()
        &&& self.key_counts_unshifted.wf()
        &&& self.key_counts_shifted.wf()
        &&& self.shortcut_counts.wf()
        &&& self.mouse_button_counts.wf()
        &&& self.app_input_counts.wf()
    }

    /// A fresh, empty day.
    pub fn new(date: DateKey) -> (r: DailyStats)
        requires
            date.wf(),
        ensures
            r.wf(),
            r.date == date,
            r.total == 0,
            r.keyboard == 0,
            r.mouse_single == 0,
            r.first_event_at_ms is None,
            r.last_event_at_ms is None,
            r.mouse_move_distance_px == 0,
            forall|k: Seq<char>| r.key_counts.spec_get(k) == 0,
            forall|k: Seq<char>| r.key_counts_unshifted.spec_get(k) == 0,
            forall|k: Seq<char>| r.key_counts_shifted.spec_get(k) == 0,
            forall|k: Seq<char>| r.mouse_move_distance_px_by_display.spec_get(k) == 0,
            forall|k: Seq<char>| r.shortcut_counts.spec_get(k) == 0,
            forall|k: Seq<char>| r.mouse_button_counts.spec_get(k) == 0,
            forall|k: Seq<char>| r.app_input_counts.spec_get(k) is None,
            forall|h: int| 0 <= h < 24 ==> r.hourly@[h] == (HourlyStats {
                total: 0u64,
                keyboard: 0u64,
                mouse_single: 0u64,
            }),
            spec_empty_maps(r),
    {
        let mut hourly: Vec<HourlyStats> = Vec::new();
        let mut i: usize = 0;
        while i < HOURS_PER_DAY
            invariant
                0 <= i <= HOURS_PER_DAY,
                hourly@.len() == i,
                forall|h: int| 0 <= h < i ==> hourly@[h] == (HourlyStats {
                    total: 0u64,
                    keyboard: 0u64,
                    mouse_single: 0u64,
                }),
            decreases HOURS_PER_DAY - i,
        {
            hourly.push(HourlyStats::zero());
            i += 1;
        }
        DailyStats {
            date,
            total: 0,
            keyboard: 0,
            mouse_single: 0,
            first_event_at_ms: None,
            last_event_at_ms: None,
            mouse_move_distance_px: 0,
            mouse_move_distance_px_by_display: CounterMap::new(),
            hourly,
            key_counts: CounterMap::new(),
            key_counts_unshifted: CounterMap::new(),
            key_counts_shifted: CounterMap::new(),
            shortcut_counts: CounterMap::new(),
            mouse_button_counts: CounterMap::new(),
            app_input_counts: AppStatsMap::new(),
        }
    }

    /// The first/last timestamps after seeing an event at `event_at_ms`;
    /// a zero timestamp means "clock unavailable" and is ignored.
    pub open spec fn spec_stamps_after(self, event_at_ms: u64) -> (Option<u64>, Option<u64>) {
        if event_at_ms == 0 {
            (self.first_event_at_ms, self.last_event_at_ms)
        } else {
            (
                match self.first_event_at_ms {
                    Some(f) => Some(if event_at_ms < f {
                        event_at_ms
                    } else {
                        f
                    }),
                    None => Some(event_at_ms),
                },
                match self.last_event_at_ms {
                    Some(l) => Some(if event_at_ms > l {
                        event_at_ms
                    } else {
                        l
                    }),
                    None => Some(event_at_ms),
                },
            )
        }
    }

    /// Widens the first/last-event window to cover `event_at_ms`.
    fn record_event_at_ms(&mut self, event_at_ms: u64)
        ensures
            final(self).first_event_at_ms == old(self).spec_stamps_after(event_at_ms).0,
            final(self).last_event_at_ms == old(self).spec_stamps_after(event_at_ms).1,
            *final(self) == (DailyStats {
                first_event_at_ms: final(self).first_event_at_ms,
                last_event_at_ms: final(self).last_event_at_ms,
                ..*old(self)
            }),
    {
        if event_at_ms == 0 {
            return;
        }
        self.first_event_at_ms = Some(
            match self.first_event_at_ms {
                Some(existing) => if event_at_ms < existing {
                    event_at_ms
                } else {
                    existing
                },
                None => event_at_ms,
            },
        );
        self.last_event_at_ms = Some(
            match self.last_event_at_ms {
                Some(existing) => if event_at_ms > existing {
                    event_at_ms
                } else {
                    existing
                },
                None => event_at_ms,
            },
        );
    }

    /// Counts `count` units of `source` into the day's totals and stamps the
    /// event time. A zero count changes nothing.
    pub fn add_merit(&mut self, source: InputSource, count: u64, event_at_ms: u64)
        ensures
            count == 0 ==> *final(self) == *old(self),
            count > 0 ==> *final(self) == (DailyStats {
                total: old(self).total.saturating_add(count),
                keyboard: if source is Keyboard {
                    old(self).keyboard.saturating_add(count)
                } else {
                    old(self).keyboard
                },
                mouse_single: if source is MouseSingle {
                    old(self).mouse_single.saturating_add(count)
                } else {
                    old(self).mouse_single
                },
                first_event_at_ms: old(self).spec_stamps_after(event_at_ms).0,
                last_event_at_ms: old(self).spec_stamps_after(event_at_ms).1,
                ..*old(self)
            }),
    {
        if count == 0 {
            return;
        }
        self.record_event_at_ms(event_at_ms);
        self.total = self.total.saturating_add(count);
        match source {
            InputSource::Keyboard => {
                self.keyboard = self.keyboard.saturating_add(count);
            }
            InputSource::MouseSingle => {
                self.mouse_single = self.mouse_single.saturating_add(count);
            }
        }
    }

    /// Counts `count` units of `source` into the bucket for `hour`; an hour
    /// out of range changes nothing.
    pub fn add_hourly_merit(&mut self, hour: usize, source: InputSource, count: u64)
        requires
            old(self).wf(),
        ensures
            final(self).wf(),
            (count == 0 || hour >= 24) ==> *final(self) == *old(self),
            (count > 0 && hour < 24) ==> *final(self) == (DailyStats {
                hourly: final(self).hourly,
                ..*old(self)
            }),
            (count > 0 && hour < 24) ==> final(self).hourly@ == old(self).hourly@.update(
                hour as int,
                old(self).hourly@[hour as int].spec_add_merit(source, count)),
    {
        if count == 0 {
            return;
        }
        if hour >= HOURS_PER_DAY {
            return;
        }
        let bucket = &mut self.hourly[hour];
        bucket.add_merit(source, count);
    }

    /// Adds pixels of mouse travel to the day total; nothing moves for zero.
    pub fn add_mouse_move_distance_px(&mut self, px: u64)
        ensures
            *final(self) == (DailyStats {
                mouse_move_distance_px: old(self).mouse_move_distance_px.saturating_add(px),
                ..*old(self)
            }),
    {
        if px == 0 {
            return;
        }
        self.mouse_move_distance_px = self.mouse_move_distance_px.saturating_add(px);
    }

    /// Adds mouse travel, attributes it to a display when one is named, and
    /// stamps the event time.
    pub fn add_mouse_move_distance_px_for_display(
        &mut self,
        display_id: Option<&str>,
        px: u64,
        event_at_ms: u64,
    )
        requires
            old(self).wf(),
        ensures
            final(self).wf(),
            px == 0 ==> *final(self) == *old(self),
            px > 0 ==> final(self).mouse_move_distance_px == old(
                self).mouse_move_distance_px.saturating_add(px),
            px > 0 ==> final(self).first_event_at_ms == old(self).spec_stamps_after(
                event_at_ms).0,
            px > 0 ==> final(self).last_event_at_ms == old(self).spec_stamps_after(event_at_ms).1,
            px > 0 ==> match display_id {
                Some(id) => id@.len() > 0 ==> final(
                    self).mouse_move_distance_px_by_display.spec_get(id@) == old(
                    self).mouse_move_distance_px_by_display.spec_get(id@).saturating_add(px),
                None => final(self).mouse_move_distance_px_by_display == old(
                    self).mouse_move_distance_px_by_display,
            },
            // Every other display's distance stays as it was; a blank id
            // attributes nothing.
            px > 0 ==> forall|k2: Seq<char>| (match display_id {
                Some(id) => k2 != id@,
                None => true,
            }) ==> final(self).mouse_move_distance_px_by_display.spec_get(k2) == old(
                self).mouse_move_distance_px_by_display.spec_get(k2),
            px > 0 && display_id is Some && display_id->0@.len() == 0 ==> final(
                self).mouse_move_distance_px_by_display == old(
                self).mouse_move_distance_px_by_display,
            final(self).total == old(self).total,
            final(self).keyboard == old(self).keyboard,
            final(self).mouse_single == old(self).mouse_single,
            final(self).date == old(self).date,
            final(self).hourly == old(self).hourly,
            final(self).key_counts == old(self).key_counts,
            final(self).shortcut_counts == old(self).shortcut_counts,
            final(self).mouse_button_counts == old(self).mouse_button_counts,
            final(self).app_input_counts == old(self).app_input_counts,
    {
        if px == 0 {
            return;
        }
        self.record_event_at_ms(event_at_ms);
        self.add_mouse_move_distance_px(px);
        let id = match display_id {
            Some(id) => id,
            None => {
                return;
            },
        };
        if id.unicode_len() == 0 {
            return;
        }
        self.mouse_move_distance_px_by_display.add(id, px);
    }

    /// Counts `count` units of `source` under the application `app_id`.
    pub fn add_app_merit(
        &mut self,
        app_id: &str,
        app_name: Option<&str>,
        source: InputSource,
        count: u64,
    )
        requires
            old(self).wf(),
        ensures
            final(self).wf(),
            count == 0 ==> *final(self) == *old(self),
            count > 0 ==> *final(self) == (DailyStats {
                app_input_counts: final(self).app_input_counts,
                ..*old(self)
            }),
            count > 0 ==> {
                let prev = match old(self).app_input_counts.spec_get(app_id@) {
                    Some(e) => e,
                    None => crate::stats::AppInputStats {
                        name: None,
                        total: 0,
                        keyboard: 0,
                        mouse_single: 0,
                    },
                };
                match final(self).app_input_counts.spec_get(app_id@) {
                    Some(e) => e.total == prev.spec_counts_after(source, count).0
                        && e.keyboard == prev.spec_counts_after(source, count).1
                        && e.mouse_single == prev.spec_counts_after(source, count).2
                        && crate::stats::spec_opt_name(e.name) == (if prev.name is Some {
                        crate::stats::spec_opt_name(prev.name)
                    } else {
                        crate::stats::spec_opt_str(app_name)
                    }),
                    None => false,
                }
            },
    {
        if count == 0 {
            return;
        }
        self.app_input_counts.add_app(app_id, app_name, source, count);
    }

    /// Folds a batch of per-key counts into the day.
    pub fn add_key_counts(&mut self, counts: &CounterMap)
        requires
            old(self).wf(),
            counts.wf(),
        ensures
            final(self).wf(),
            *final(self) == (DailyStats { key_counts: final(self).key_counts, ..*old(self) }),
            forall|k: Seq<char>| final(self).key_counts.spec_get(k) == old(
                self).key_counts.spec_get(k).saturating_add(counts.spec_get(k)),
    {
        self.key_counts.merge(counts);
    }

    /// Folds a batch of unshifted per-key counts into the day.
    pub fn add_key_unshifted_counts(&mut self, counts: &CounterMap)
        requires
            old(self).wf(),
            counts.wf(),
        ensures
            final(self).wf(),
            *final(self) == (DailyStats {
                key_counts_unshifted: final(self).key_counts_unshifted,
                ..*old(self)
            }),
            forall|k: Seq<char>| final(self).key_counts_unshifted.spec_get(k) == old(
                self).key_counts_unshifted.spec_get(k).saturating_add(counts.spec_get(k)),
    {
        self.key_counts_unshifted.merge(counts);
    }

    /// Folds a batch of shifted per-key counts into the day.
    pub fn add_key_shifted_counts(&mut self, counts: &CounterMap)
        requires
            old(self).wf(),
            counts.wf(),
        ensures
            final(self).wf(),
            *final(self) == (DailyStats {
                key_counts_shifted: final(self).key_counts_shifted,
                ..*old(self)
            }),
            forall|k: Seq<char>| final(self).key_counts_shifted.spec_get(k) == old(
                self).key_counts_shifted.spec_get(k).saturating_add(counts.spec_get(k)),
    {
        self.key_counts_shifted.merge(counts);
    }

    /// Folds a batch of shortcut counts into the day.
    pub fn add_shortcut_counts(&mut self, counts: &CounterMap)
        requires
            old(self).wf(),
            counts.wf(),
        ensures
            final(self).wf(),
            *final(self) == (DailyStats {
                shortcut_counts: final(self).shortcut_counts,
                ..*old(self)
            }),
            forall|k: Seq<char>| final(self).shortcut_counts.spec_get(k) == old(
                self).shortcut_counts.spec_get(k).saturating_add(counts.spec_get(k)),
    {
        self.shortcut_counts.merge(counts);
    }

    /// Folds a batch of mouse-button counts into the day.
    pub fn add_mouse_button_counts(&mut self, counts: &CounterMap)
        requires
            old(self).wf(),
            counts.wf(),
        ensures
            final(self).wf(),
            *final(self) == (DailyStats {
                mouse_button_counts: final(self).mouse_button_counts,
                ..*old(self)
            }),
            forall|k: Seq<char>| final(self).mouse_button_counts.spec_get(k) == old(
                self).mouse_button_counts.spec_get(k).saturating_add(counts.spec_get(k)),
    {
        self.mouse_button_counts.merge(counts);
    }

    /// Re-derives the day's total from its per-modality counters, so that
    /// `total == keyboard + mouse_single` holds again after a snapshot was
    /// loaded from disk.
    pub fn recompute_counters(&mut self)
        requires
            old(self).wf(),
        ensures
            final(self).wf(),
            final(self).total == old(self).keyboard.saturating_add(old(self).mouse_single),
            final(self).keyboard == old(self).keyboard,
            final(self).mouse_single == old(self).mouse_single,
            final(self).date == old(self).date,
    {
        self.total = self.keyboard.saturating_add(self.mouse_single);
    }

    /// The slim view of this day.
    pub fn lite(&self) -> (r: DailyStatsLite)
        ensures
            r.date == self.date,
            r.total == self.total,
            r.keyboard == self.keyboard,
            r.mouse_single == self.mouse_single,
            r.first_event_at_ms == self.first_event_at_ms,
            r.last_event_at_ms == self.last_event_at_ms,
            r.mouse_move_distance_px == self.mouse_move_distance_px,
            r.hourly@ == self.hourly@,
            forall|k: Seq<char>| r.mouse_move_distance_px_by_display.spec_get(k)
                == self.mouse_move_distance_px_by_display.spec_get(k),
    {
        DailyStatsLite {
            date: self.date,
            total: self.total,
            keyboard: self.keyboard,
            mouse_single: self.mouse_single,
            first_event_at_ms: self.first_event_at_ms,
            last_event_at_ms: self.last_event_at_ms,
            mouse_move_distance_px: self.mouse_move_distance_px,
            mouse_move_distance_px_by_display: self.mouse_move_distance_px_by_display.duplicate(),
            hourly: copy_hourly(&self.hourly),
        }
    }
}

/// An element-for-element copy of the hourly buckets.
fn copy_hourly(v: &Vec<HourlyStats>) -> (r: Vec<HourlyStats>)
    ensures
        r@ == v@,
{
    let n = v.len();
    let mut out: Vec<HourlyStats> = Vec::new();
    let mut i: usize = 0;
    while i < n
        invariant
            0 <= i <= n,
            n == v@.len(),
            out@ =~= v@.take(i as int),
        decreases n - i,
    {
        out.push(v[i]);
        proof {
            assert(out@ =~= v@.take(i + 1));
        }
        i += 1;
    }
    proof {
        assert(v@.take(n as int) =~= v@);
    }
    out
}

} // verus!
