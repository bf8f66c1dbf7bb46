//! The live counter state: the all-time total, today's record, and the
//! bounded archive of previous days.
//!
//! Day rollover is detected lazily on the first write of a new day: the old
//! day is archived unchanged into the history (kept sorted, newest first,
//! bounded) and a fresh day starts with the very increment that noticed the
//! change, so no merit is attributed to the wrong day.

use vstd::prelude::*;

use crate::daily::DailyStats;
use crate::datekey::DateKey;
use crate::input::InputSource;
use crate::input::LocalNow;
use crate::stats::HourlyStats;

verus! {

/// Cap on archived days; the oldest fall off past it.
pub const MAX_HISTORY_DAYS: usize = 400;

/// The all-time counter with today's detail and recent history.
#[derive(Debug)]
pub struct MeritStats {
    pub total_merit: u64,
    pub today: DailyStats,
    pub history: Vec<DailyStats>,
}

/// The slim view of the counter state broadcast to the UI.
#[derive(Debug)]
pub struct MeritStatsLite {
    pub total_merit: u64,
    pub today: crate::daily::DailyStatsLite,
}

/// Where `d` lands in a newest-first archive: before the first strictly older
/// day, after every day at least as new.
pub open spec fn spec_insert_archived(h: Seq<DailyStats>, d: DailyStats) -> Seq<DailyStats>
    decreases h.len(),
{
    if h.len() == 0 {
        seq![d]
    } else if h[0].date.spec_ord() < d.date.spec_ord() {
        seq![d] + h
    } else {
        seq![h[0]] + spec_insert_archived(h.drop_first(), d)
    }
}

/// The archive bound applied to a sequence of days.
pub open spec fn spec_trunc_history(s: Seq<DailyStats>) -> Seq<DailyStats> {
    if s.len() <= MAX_HISTORY_DAYS {
        s
    } else {
        s.take(MAX_HISTORY_DAYS as int)
    }
}

/// When `p` is the first position whose day is strictly older than `d`,
/// `spec_insert_archived` puts `d` exactly there and shifts the rest.
proof fn lemma_insert_elements(h: Seq<DailyStats>, d: DailyStats, p: int)
    requires
        0 <= p <= h.len(),
        forall|i: int| 0 <= i < p ==> h[i].date.spec_ord() >= d.date.spec_ord(),
        p < h.len() ==> h[p].date.spec_ord() < d.date.spec_ord(),
    ensures
        spec_insert_archived(h, d).len() == h.len() + 1,
        forall|q: int| 0 <= q < h.len() + 1 ==> spec_insert_archived(h, d)[q] == (if q < p {
            h[q]
        } else if q == p {
            d
        } else {
            h[q - 1]
        }),
    decreases h.len(),
{
    if h.len() == 0 {
    } else if h[0].date.spec_ord() < d.date.spec_ord() {
        assert(p == 0);
        assert forall|q: int| 0 <= q < h.len() + 1 implies spec_insert_archived(h, d)[q] == (
            if q < p {
                h[q]
            } else if q == p {
                d
            } else {
                h[q - 1]
            }) by {
            assert(spec_insert_archived(h, d) == seq![d] + h);
        }
    } else {
        assert(p >= 1);
        let t = h.drop_first();
        assert forall|i: int| 0 <= i < p - 1 implies t[i].date.spec_ord() >= d.date.spec_ord() by {
            assert(t[i] == h[i + 1]);
        }
        assert(p - 1 < t.len() ==> t[p - 1] == h[p]);
        lemma_insert_elements(t, d, p - 1);
        let m = spec_insert_archived(h, d);
        let mt = spec_insert_archived(t, d);
        assert(m == seq![h[0]] + mt);
        assert forall|q: int| 0 <= q < h.len() + 1 implies m[q] == (if q < p {
            h[q]
        } else if q == p {
            d
        } else {
            h[q - 1]
        }) by {
            if q == 0 {
            } else {
                assert(m[q] == mt[q - 1]);
                if q - 1 > p - 1 {
                    assert(mt[q - 1] == t[q - 2]);
                    assert(t[q - 2] == h[q - 1]);
                } else if q - 1 < p - 1 {
                    assert(mt[q - 1] == t[q - 1]);
                    assert(t[q - 1] == h[q]);
                }
            }
        }
    }
}

/// Law: rollover archives the finished day unchanged. When every archived
/// day is older than the day being archived — as it always is while the
/// clock moves forward — the archive after rollover is exactly the old day
/// in front of the untouched old archive; `add_merit`'s contract then puts
/// the triggering increment on a fresh day that started at zero.
pub proof fn lemma_rollover_archives_front(h: Seq<DailyStats>, d: DailyStats)
    requires
        h.len() < MAX_HISTORY_DAYS,
        forall|i: int| 0 <= i < h.len() ==> (#[trigger] h[i]).date.spec_ord()
            < d.date.spec_ord(),
    ensures
        spec_trunc_history(spec_insert_archived(h, d)) == seq![d] + h,
{
    if h.len() == 0 {
        assert(spec_insert_archived(h, d) =~= seq![d] + h);
    } else {
        assert(h[0].date.spec_ord() < d.date.spec_ord());
    }
    assert(spec_insert_archived(h, d).len() == h.len() + 1) by {
        assert((seq![d] + h).len() == h.len() + 1);
    }
}

impl MeritStats {
    /// A state the library maintains: a well-formed today, well-formed
    /// archived days sorted newest first, within the archive bound.
    pub open spec fn wf(self) -> bool {
        &&& self.today.wf()
        &&& self.history@.len() <= MAX_HISTORY_DAYS
        &&& forall|i: int| 0 <= i < self.history@.len() ==> (#[trigger] self.history@[i]).wf()
        &&& forall|i: int, j: int| 0 <= i < j < self.history@.len()
            ==> self.history@[i].date.spec_ord() >= self.history@[j].date.spec_ord()
    }

    /// A fresh state: nothing counted, an empty day, no history.
    pub fn new(today: DateKey) -> (r: MeritStats)
        requires
            today.wf(),
        ensures
            r.wf(),
            r.total_merit == 0,
            r.today.date == today,
            r.today.total == 0,
            r.today.keyboard == 0,
            r.today.mouse_single == 0,
            r.today.first_event_at_ms is None,
            r.today.last_event_at_ms is None,
            r.today.mouse_move_distance_px == 0,
            crate::daily::spec_empty_maps(r.today),
            forall|h: int| 0 <= h < 24 ==> r.today.hourly@[h] == (HourlyStats {
                total: 0u64,
                keyboard: 0u64,
                mouse_single: 0u64,
            }),
            r.history@.len() == 0,
    {
        MeritStats { total_merit: 0, today: DailyStats::new(today), history: Vec::new() }
    }

    /// Archives today into the history (when it counted anything) and starts
    /// the given fresh day.
    fn roll_over(&mut self, date: DateKey)
        requires
            old(self).wf(),
            date.wf(),
        ensures
            final(self).wf(),
            final(self).total_merit == old(self).total_merit,
            final(self).today.date == date,
            final(self).today.total == 0,
            final(self).today.keyboard == 0,
            final(self).today.mouse_single == 0,
            final(self).today.first_event_at_ms is None,
            final(self).today.last_event_at_ms is None,
            final(self).today.mouse_move_distance_px == 0,
            forall|k: Seq<char>| final(self).today.key_counts.spec_get(k) == 0,
            forall|k: Seq<char>| final(self).today.key_counts_unshifted.spec_get(k) == 0,
            forall|k: Seq<char>| final(self).today.key_counts_shifted.spec_get(k) == 0,
            forall|k: Seq<char>| final(self).today.shortcut_counts.spec_get(k) == 0,
            forall|k: Seq<char>| final(self).today.mouse_button_counts.spec_get(k) == 0,
            forall|k: Seq<char>| final(self).today.app_input_counts.spec_get(k) is None,
            forall|h: int| 0 <= h < 24 ==> final(self).today.hourly@[h] == (HourlyStats {
                total: 0u64,
                keyboard: 0u64,
                mouse_single: 0u64,
            }),
            crate::daily::spec_empty_maps(final(self).today),
            old(self).today.total > 0 ==> final(self).history@ == spec_trunc_history(
                spec_insert_archived(old(self).history@, old(self).today)),
            old(self).today.total == 0 ==> final(self).history@ == old(self).history@,
    {
        let mut fresh = DailyStats::new(date);
        core::mem::swap(&mut self.today, &mut fresh);
        let archived = fresh;
        let ghost fresh_today = self.today;
        if archived.total > 0 {
            let n = self.history.len();
            let target = archived.date.ord();
            let mut p: usize = 0;
            while p < n && self.history[p].date.ord() >= target
                invariant
                    0 <= p <= n,
                    n == self.history@.len(),
                    self.history@ == old(self).history@,
                    self.total_merit == old(self).total_merit,
                    self.today == fresh_today,
                    old(self).wf(),
                    archived == old(self).today,
                    target == archived.date.spec_ord(),
                    forall|i: int| 0 <= i < p ==> self.history@[i].date.spec_ord()
                        >= archived.date.spec_ord(),
                decreases n - p,
            {
                p += 1;
            }
            proof {
                lemma_insert_elements(self.history@, archived, p as int);
            }
            let ghost pre = self.history@;
            let ghost merged = spec_insert_archived(pre, archived);
            self.history.insert(p, archived);
            proof {
                assert(self.history@ =~= merged) by {
                    assert(self.history@ == pre.insert(p as int, archived));
                    assert(forall|q: int| 0 <= q < merged.len() ==> self.history@[q]
                        == merged[q]);
                }
            }
            if self.history.len() > MAX_HISTORY_DAYS {
                self.history.truncate(MAX_HISTORY_DAYS);
            }
            proof {
                assert(self.history@ == spec_trunc_history(merged));
                assert forall|i: int| 0 <= i < self.history@.len()
                    implies (#[trigger] self.history@[i]).wf() by {
                    assert(self.history@[i] == merged[i]);
                }
                assert forall|i: int, j: int| 0 <= i < j < self.history@.len()
                    implies self.history@[i].date.spec_ord() >= self.history@[j].date.spec_ord()
                    by {
                    assert(self.history@[i] == merged[i]);
                    assert(self.history@[j] == merged[j]);
                }
            }
        }
    }

    /// Counts `count` units of `source` at the local moment `now`, rolling the
    /// day over first when `now` falls on a different day than today's record.
    pub fn add_merit(&mut self, source: InputSource, count: u64, now: LocalNow)
        requires
            old(self).wf(),
            now.wf(),
        ensures
            final(self).wf(),
            final(self).total_merit == old(self).total_merit.saturating_add(count),
            final(self).today.date == now.date,
            // Same day: the increment lands on top of today's record.
            old(self).today.date == now.date ==> {
                &&& final(self).history@ == old(self).history@
                &&& (count > 0 ==> final(self).today.total == old(self).today.total.saturating_add(
                    count))
                &&& (count > 0 ==> final(self).today.keyboard == (if source is Keyboard {
                    old(self).today.keyboard.saturating_add(count)
                } else {
                    old(self).today.keyboard
                }))
                &&& (count > 0 ==> final(self).today.mouse_single == (if source is MouseSingle {
                    old(self).today.mouse_single.saturating_add(count)
                } else {
                    old(self).today.mouse_single
                }))
                &&& (count == 0 ==> final(self).today == old(self).today)
            },
            // A new day: yesterday is archived unchanged (when it counted
            // anything) and the fresh day starts at zero before this
            // increment is applied.
            old(self).today.date != now.date ==> {
                &&& (old(self).today.total > 0 ==> final(self).history@ == spec_trunc_history(
                    spec_insert_archived(old(self).history@, old(self).today)))
                &&& (old(self).today.total == 0 ==> final(self).history@ == old(self).history@)
                &&& final(self).today.total == count
                &&& final(self).today.keyboard == (if source is Keyboard {
                    count
                } else {
                    0u64
                })
                &&& final(self).today.mouse_single == (if source is MouseSingle {
                    count
                } else {
                    0u64
                })
            },
            // The hour bucket of `now` took this increment; on a fresh day it
            // is the only one holding anything.
            count > 0 ==> final(self).today.hourly@[now.hour as int].total == (
                if old(self).today.date == now.date {
                    old(self).today.hourly@[now.hour as int].total.saturating_add(count)
                } else {
                    count
                }),
            // The detail maps of today: untouched on the same day, empty on a
            // fresh one.
            old(self).today.date == now.date ==> {
                &&& final(self).today.key_counts == old(self).today.key_counts
                &&& final(self).today.key_counts_unshifted == old(self).today.key_counts_unshifted
                &&& final(self).today.key_counts_shifted == old(self).today.key_counts_shifted
                &&& final(self).today.shortcut_counts == old(self).today.shortcut_counts
                &&& final(self).today.mouse_button_counts == old(self).today.mouse_button_counts
                &&& final(self).today.mouse_move_distance_px_by_display == old(
                    self).today.mouse_move_distance_px_by_display
                &&& final(self).today.app_input_counts == old(self).today.app_input_counts
                &&& final(self).today.mouse_move_distance_px == old(
                    self).today.mouse_move_distance_px
            },
            old(self).today.date != now.date ==> crate::daily::spec_empty_maps(final(self).today)
                && final(self).today.mouse_move_distance_px == 0,
    {
        if self.today.date.ord() != now.date.ord() {
            self.roll_over(now.date);
        } else {
            proof {
                crate::datekey::lemma_ord_injective(self.today.date, now.date);
            }
        }
        self.total_merit = self.total_merit.saturating_add(count);
        self.today.add_merit(source, count, now.epoch_ms);
        self.today.add_hourly_merit(now.hour as usize, source, count);
    }

    /// Rolls the day over if `today` is a new day; counts nothing.
    pub fn normalize_today(&mut self, today: DateKey)
        requires
            old(self).wf(),
            today.wf(),
        ensures
            final(self).wf(),
            final(self).total_merit == old(self).total_merit,
            final(self).today.date == today,
            old(self).today.date == today ==> *final(self) == *old(self),
            old(self).today.date != today ==> {
                &&& final(self).today.total == 0
                &&& final(self).today.mouse_move_distance_px == 0
                &&& crate::daily::spec_empty_maps(final(self).today)
                &&& (old(self).today.total > 0 ==> final(self).history@ == spec_trunc_history(
                    spec_insert_archived(old(self).history@, old(self).today)))
                &&& (old(self).today.total == 0 ==> final(self).history@ == old(self).history@)
            },
    {
        if self.today.date.ord() != today.ord() {
            self.roll_over(today);
        } else {
            proof {
                crate::datekey::lemma_ord_injective(self.today.date, today);
            }
        }
    }

    /// The slim view of the counter state.
    pub fn lite(&self) -> (r: MeritStatsLite)
        ensures
            r.total_merit == self.total_merit,
            r.today.total == self.today.total,
            r.today.keyboard == self.today.keyboard,
            r.today.mouse_single == self.today.mouse_single,
            r.today.date == self.today.date,
    {
        MeritStatsLite { total_merit: self.total_merit, today: self.today.lite() }
    }

    /// Drops all archived days and re-derives the total from what is left.
    pub fn clear_history(&mut self)
        requires
            old(self).wf(),
        ensures
            final(self).wf(),
            final(self).history@.len() == 0,
            final(self).total_merit == old(self).today.keyboard.saturating_add(
                old(self).today.mouse_single),
            final(self).today.date == old(self).today.date,
    {
        self.history = Vec::new();
        self.recompute_counters();
    }

    /// Forgets everything and starts a fresh day.
    pub fn reset_all(&mut self, today: DateKey)
        requires
            today.wf(),
        ensures
            final(self).wf(),
            final(self).total_merit == 0,
            final(self).today.date == today,
            final(self).today.total == 0,
            final(self).history@.len() == 0,
    {
        self.total_merit = 0;
        self.today = DailyStats::new(today);
        self.history = Vec::new();
    }

    /// Re-derives every day's total from its per-modality counters and the
    /// all-time total as the saturating sum over all days, today included.
    pub fn recompute_counters(&mut self)
        requires
            old(self).wf(),
        ensures
            final(self).wf(),
            final(self).today.date == old(self).today.date,
            final(self).today.total == old(self).today.keyboard.saturating_add(
                old(self).today.mouse_single),
            final(self).today.keyboard == old(self).today.keyboard,
            final(self).today.mouse_single == old(self).today.mouse_single,
            final(self).history@.len() == old(self).history@.len(),
            // Every archived day's total is re-derived from its own
            // counters, which stay as they were.
            forall|i: int| 0 <= i < old(self).history@.len() ==> {
                &&& (#[trigger] final(self).history@[i]).total == old(
                    self).history@[i].keyboard.saturating_add(old(self).history@[i].mouse_single)
                &&& final(self).history@[i].keyboard == old(self).history@[i].keyboard
                &&& final(self).history@[i].mouse_single == old(self).history@[i].mouse_single
                &&& final(self).history@[i].date == old(self).history@[i].date
            },
            final(self).total_merit == spec_day_sum(old(self).history@,
                old(self).history@.len() as int).saturating_add(
                old(self).today.keyboard.saturating_add(old(self).today.mouse_single)),
    {
        self.today.recompute_counters();
        let ghost today_mid = self.today;
        let n = self.history.len();
        let mut i: usize = 0;
        while i < n
            invariant
                0 <= i <= n,
                n == self.history@.len(),
                self.today == today_mid,
                today_mid.wf(),
                today_mid.total == old(self).today.keyboard.saturating_add(
                    old(self).today.mouse_single),
                today_mid.date == old(self).today.date,
                old(self).wf(),
                self.history@.len() == old(self).history@.len(),
                forall|j: int| i <= j < n ==> self.history@[j] == old(self).history@[j],
                forall|j: int| 0 <= j < i ==> (#[trigger] self.history@[j]).wf()
                    && self.history@[j].date == old(self).history@[j].date
                    && self.history@[j].keyboard == old(self).history@[j].keyboard
                    && self.history@[j].mouse_single == old(self).history@[j].mouse_single
                    && self.history@[j].total == old(self).history@[j].keyboard.saturating_add(
                    old(self).history@[j].mouse_single),
            decreases n - i,
        {
            proof {
                assert(self.history@[i as int] == old(self).history@[i as int]);
                assert((old(self).history@[i as int]).wf());
            }
            let day = &mut self.history[i];
            day.recompute_counters();
            i += 1;
        }
        let ghost mid_history = self.history@;
        let mut acc: u64 = 0;
        let mut j: usize = 0;
        while j < n
            invariant
                0 <= j <= n,
                n == self.history@.len(),
                self.history@ == mid_history,
                self.today == today_mid,
                forall|q: int| 0 <= q < n ==> (#[trigger] self.history@[q]).total == old(
                    self).history@[q].keyboard.saturating_add(old(self).history@[q].mouse_single),
                acc == spec_day_sum(old(self).history@, j as int),
            decreases n - j,
        {
            acc = acc.saturating_add(self.history[j].total);
            j += 1;
        }
        self.total_merit = acc.saturating_add(self.today.total);
    }
}

/// Saturating sum of the recomputed totals of the first `i` archived days.
pub open spec fn spec_day_sum(h: Seq<DailyStats>, i: int) -> u64
    decreases i,
{
    if i <= 0 {
        0u64
    } else {
        spec_day_sum(h, i - 1).saturating_add(h[i - 1].keyboard.saturating_add(
            h[i - 1].mouse_single))
    }
}

} // verus!
