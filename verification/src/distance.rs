//! Mouse travel: Euclidean pixel distance between consecutive resolved
//! cursor positions, attributed to the display under the cursor.
//!
//! Distance accumulates in milli-pixels so slow, precise movement is not
//! lost to truncation: each flush hands whole pixels to the store and
//! carries the sub-pixel remainder forward. Jumps beyond a threshold are
//! rejected as cursor warps between displays.

use vstd::prelude::*;

use crate::counter_map::copy_str;
use crate::counter_map::prefix_get;
use crate::counter_map::CounterMap;
use crate::input::LocalNow;
use crate::monitors::MAX_COORD;
use crate::storage::MeritStorage;
use crate::strtools::str_eq;

verus! {

/// Milli-pixels per pixel.
pub const MP_PER_PX: u64 = 1000;

/// Cursor jumps beyond this many pixels on either axis are treated as warps
/// and add no distance.
pub const MAX_JUMP_PX: i64 = 2400;

/// Minimum spacing of per-worker distance handoffs, in milliseconds.
pub const SEND_INTERVAL_MS: u64 = 90;

/// Spacing of aggregate flushes into the store, in milliseconds.
pub const FLUSH_INTERVAL_MS: u64 = 650;

/// The integer square root: the largest `r` with `r * r <= v`.
pub open spec fn spec_isqrt(v: u64) -> u64 {
    choose|r: u64| #[trigger] (r * r) <= v && (r + 1) * (r + 1) > v
}

/// An integer square root exists for every `u64`.
proof fn lemma_isqrt_exists(v: u64)
    ensures
        spec_isqrt(v) * spec_isqrt(v) <= v,
        (spec_isqrt(v) + 1) * (spec_isqrt(v) + 1) > v,
{
    lemma_isqrt_witness(v);
    let r = choose|r: u64| #[trigger] (r * r) <= v && (r + 1) * (r + 1) > v;
    assert(spec_isqrt(v) * spec_isqrt(v) <= v && (spec_isqrt(v) + 1) * (spec_isqrt(v) + 1) > v);
}

/// Constructs a witness for the integer square root.
proof fn lemma_isqrt_witness(v: u64)
    ensures
        exists|r: u64| #[trigger] (r * r) <= v && (r + 1) * (r + 1) > v,
    decreases v,
{
    if v == 0 {
        assert(0u64 * 0u64 <= 0 && (0u64 + 1) * (0u64 + 1) > 0) by (nonlinear_arith);
    } else {
        lemma_isqrt_witness((v - 1) as u64);
        let r = choose|r: u64| #[trigger] (r * r) <= v - 1 && (r + 1) * (r + 1) > v - 1;
        if (r + 1) * (r + 1) > v {
            assert(r * r <= v && (r + 1) * (r + 1) > v);
        } else {
            // (r+1)^2 > v - 1 and (r+1)^2 <= v pin (r+1)^2 == v exactly.
            assert(r <= 4294967295) by (nonlinear_arith)
                requires r * r <= v - 1 && v - 1 < 0xffff_ffff_ffff_ffffu64;
            let s = (r + 1) as u64;
            assert((s as int) == r + 1);
            assert((s as int) * (s as int) == v);
            assert(s * s <= v);
            assert((s + 1) * (s + 1) > v) by (nonlinear_arith)
                requires (s as int) * (s as int) == v && s >= 0;
        }
    }
}

/// The integer square root is unique.
proof fn lemma_isqrt_unique(v: u64, a: u64, b: u64)
    requires
        a * a <= v,
        (a + 1) * (a + 1) > v,
        b * b <= v,
        (b + 1) * (b + 1) > v,
    ensures
        a == b,
{
    assert(a == b) by (nonlinear_arith)
        requires a * a <= v && (a + 1) * (a + 1) > v && b * b <= v && (b + 1) * (b + 1) > v;
}

/// Computes the integer square root by binary search.
pub fn isqrt(v: u64) -> (r: u64)
    ensures
        r == spec_isqrt(v),
        r <= 4294967295,
        r * r <= v,
        (r + 1) * (r + 1) > v,
{
    let mut lo: u64 = 0;
    let mut hi: u64 = 4294967296;
    proof {
        assert(4294967296u64 * 4294967296u64 > 0xffff_ffff_ffff_ffffu64) by (nonlinear_arith);
    }
    while hi - lo > 1
        invariant
            lo < hi <= 4294967296,
            lo * lo <= v,
            hi * hi > v,
        decreases hi - lo,
    {
        let mid = lo + (hi - lo) / 2;
        proof {
            assert(lo < mid < hi);
            assert(mid * mid < 0xffff_ffff_ffff_ffffu64) by (nonlinear_arith)
                requires mid <= 4294967295u64;
        }
        if mid * mid <= v {
            lo = mid;
        } else {
            hi = mid;
        }
    }
    proof {
        assert(hi == lo + 1);
        lemma_isqrt_exists(v);
        lemma_isqrt_unique(v, lo, spec_isqrt(v));
    }
    lo
}

/// The milli-pixel length of a cursor step, rounded to the nearest whole
/// milli-pixel: with `s = dx^2 + dy^2`, the real length is `sqrt(s * 10^6)`,
/// and `(floor(2 * sqrt(s * 10^6)) + 1) / 2` rounds it (ties away from
/// zero), all in integers.
pub open spec fn spec_step_mp(dx: int, dy: int) -> u64 {
    ((spec_isqrt((4 * (dx * dx + dy * dy) * 1000000) as u64) + 1) / 2) as u64
}

/// Computes the milli-pixel length of a cursor step.
pub fn step_mp(dx: i64, dy: i64) -> (r: u64)
    requires
        -MAX_JUMP_PX <= dx <= MAX_JUMP_PX,
        -MAX_JUMP_PX <= dy <= MAX_JUMP_PX,
    ensures
        r == spec_step_mp(dx as int, dy as int),
{
    proof {
        assert(0 <= dx * dx <= 5760000) by (nonlinear_arith)
            requires -2400 <= dx <= 2400;
        assert(0 <= dy * dy <= 5760000) by (nonlinear_arith)
            requires -2400 <= dy <= 2400;
    }
    let sq = (dx * dx + dy * dy) as u64;
    (isqrt(4 * sq * 1000000) + 1) / 2
}

/// A distance delta handed from a worker to the aggregation loop.
#[derive(Debug)]
pub struct MoveDelta {
    pub display_id: String,
    pub mp: u64,
}

/// The milli-pixels carried by a list of deltas.
pub open spec fn spec_deltas_mp(s: Seq<MoveDelta>) -> int
    decreases s.len(),
{
    if s.len() == 0 {
        0
    } else {
        spec_deltas_mp(s.drop_last()) + s.last().mp
    }
}

/// Appending a delta adds its milli-pixels to the carried sum.
proof fn lemma_deltas_push(s: Seq<MoveDelta>, d: MoveDelta)
    ensures
        spec_deltas_mp(s.push(d)) == spec_deltas_mp(s) + d.mp,
{
    assert(s.push(d).drop_last() =~= s);
    assert(s.push(d).last() == d);
}

/// The per-worker cursor state: the last resolved physical position and the
/// milli-pixels accumulated for the display under the cursor.
#[derive(Debug)]
pub struct DistanceTracker {
    pub has_position: bool,
    pub x: i64,
    pub y: i64,
    pub current_display_id: Option<String>,
    pub current_mp: u64,
    pub last_send_ms: u64,
}

impl DistanceTracker {
    /// A seen position stays within the coordinate bounds, and a backlog is
    /// always attributed to some display.
    pub open spec fn wf(self) -> bool {
        &&& self.has_position ==> -MAX_COORD <= self.x <= MAX_COORD && -MAX_COORD <= self.y
            <= MAX_COORD
        &&& self.current_display_id is None ==> self.current_mp == 0
    }

    /// No position seen yet, nothing accumulated.
    pub fn new() -> (r: DistanceTracker)
        ensures
            r.wf(),
            !r.has_position,
            r.current_display_id is None,
            r.current_mp == 0,
            r.last_send_ms == 0,
    {
        DistanceTracker {
            has_position: false,
            x: 0,
            y: 0,
            current_display_id: None,
            current_mp: 0,
            last_send_ms: 0,
        }
    }

    /// Forgets the cursor position and backlog, as when tracking turns off.
    pub fn reset(&mut self)
        ensures
            final(self).wf(),
            !final(self).has_position,
            final(self).current_display_id is None,
            final(self).current_mp == 0,
            final(self).last_send_ms == 0,
    {
        self.has_position = false;
        self.x = 0;
        self.y = 0;
        self.current_display_id = None;
        self.current_mp = 0;
        self.last_send_ms = 0;
    }

    /// Takes the accumulated backlog as a delta for its display, leaving the
    /// backlog empty. `None` when there is nothing or no display yet.
    fn take_delta(&mut self) -> (r: Option<MoveDelta>)
        ensures
            final(self).current_mp == 0,
            *final(self) == (DistanceTracker { current_mp: 0u64, ..*old(self) }),
            match r {
                Some(d) => d.mp == old(self).current_mp && d.mp > 0,
                None => old(self).current_mp == 0 || old(self).current_display_id is None,
            },
    {
        let id = match &self.current_display_id {
            Some(id) => copy_str(id.as_str()),
            None => {
                self.current_mp = 0;
                return None;
            },
        };
        let mp = self.current_mp;
        self.current_mp = 0;
        if mp == 0 {
            return None;
        }
        Some(MoveDelta { display_id: id, mp })
    }

    /// Observes the cursor at a resolved physical position on a display.
    /// The step from the previous position joins the backlog, unless it is
    /// the first observation or a warp-sized jump; a display change flushes
    /// the old display's backlog, an elapsed send interval flushes the new
    /// one. No distance is invented or dropped: what is handed out plus
    /// what stays equals what was there plus this step (saturating).
    pub fn record_move(&mut self, display_id: &str, px: i64, py: i64, now_ms: u64) -> (flushed:
        Vec<MoveDelta>)
        requires
            old(self).wf(),
            -MAX_COORD <= px <= MAX_COORD,
            -MAX_COORD <= py <= MAX_COORD,
        ensures
            final(self).wf(),
            final(self).has_position,
            final(self).x == px,
            final(self).y == py,
            flushed@.len() <= 2,
            ({
                let step = if old(self).has_position && -MAX_JUMP_PX <= px - old(self).x
                    <= MAX_JUMP_PX && -MAX_JUMP_PX <= py - old(self).y <= MAX_JUMP_PX {
                    spec_step_mp(px - old(self).x, py - old(self).y)
                } else {
                    0u64
                };
                spec_deltas_mp(flushed@) + final(self).current_mp == old(
                    self).current_mp.saturating_add(step) || spec_deltas_mp(flushed@) + final(
                    self).current_mp == old(self).current_mp + step
            }),
    {
        let mut out: Vec<MoveDelta> = Vec::new();
        let mut step: u64 = 0;
        if self.has_position {
            let dx = px - self.x;
            let dy = py - self.y;
            if dx >= -MAX_JUMP_PX && dx <= MAX_JUMP_PX && dy >= -MAX_JUMP_PX && dy <= MAX_JUMP_PX {
                step = step_mp(dx, dy);
            }
        }
        if step > 0 {
            let switched = match &self.current_display_id {
                Some(id) => !str_eq(id.as_str(), display_id),
                None => true,
            };
            if switched {
                if let Some(d) = self.take_delta() {
                    proof {
                        lemma_deltas_push(out@, d);
                    }
                    out.push(d);
                }
                self.current_display_id = Some(copy_str(display_id));
            }
            self.current_mp = self.current_mp.saturating_add(step);
        }
        proof {
            assert(spec_deltas_mp(out@) + self.current_mp == old(self).current_mp.saturating_add(
                step) || spec_deltas_mp(out@) + self.current_mp == old(self).current_mp + step);
        }
        self.x = px;
        self.y = py;
        self.has_position = true;
        if self.current_mp > 0 && now_ms.saturating_sub(self.last_send_ms) >= SEND_INTERVAL_MS {
            if let Some(d) = self.take_delta() {
                proof {
                    lemma_deltas_push(out@, d);
                }
                out.push(d);
            }
            self.last_send_ms = now_ms;
        }
        out
    }
}

/// The whole pixels the first `i` pending entries hand to the store.
pub open spec fn spec_px_sum(s: Seq<(String, u64)>, i: int) -> int
    decreases i,
{
    if i <= 0 {
        0
    } else {
        spec_px_sum(s, i - 1) + s[i - 1].1 / MP_PER_PX
    }
}

/// A pixel sum is nonnegative.
proof fn lemma_px_sum_nonneg(s: Seq<(String, u64)>, i: int)
    ensures
        spec_px_sum(s, i) >= 0,
    decreases i,
{
    if i > 0 {
        lemma_px_sum_nonneg(s, i - 1);
    }
}

/// The aggregation side: pending milli-pixels per display, flushed into the
/// store on an interval with the sub-pixel remainder carried forward.
/// Turning tracking off drops the backlog.
#[derive(Debug)]
pub struct MoveAccumulator {
    pub tracking_enabled: bool,
    pub pending: CounterMap,
    pub last_flush_ms: u64,
}

impl MoveAccumulator {
    /// A well-formed pending table.
    pub open spec fn wf(self) -> bool {
        self.pending.wf()
    }

    /// Nothing pending; tracking on.
    pub fn new() -> (r: MoveAccumulator)
        ensures
            r.wf(),
            r.tracking_enabled,
            forall|k: Seq<char>| r.pending.spec_get(k) == 0,
            r.last_flush_ms == 0,
    {
        MoveAccumulator { tracking_enabled: true, pending: CounterMap::new(), last_flush_ms: 0 }
    }

    /// Turns distance tracking on or off; turning it off drops whatever is
    /// pending so a disabled tracker cannot grow.
    pub fn set_tracking_enabled(&mut self, enabled: bool)
        requires
            old(self).wf(),
        ensures
            final(self).wf(),
            final(self).tracking_enabled == enabled,
            final(self).last_flush_ms == old(self).last_flush_ms,
            enabled ==> final(self).pending == old(self).pending,
            !enabled ==> forall|k: Seq<char>| final(self).pending.spec_get(k) == 0,
    {
        self.tracking_enabled = enabled;
        if !enabled {
            self.pending = CounterMap::new();
        }
    }

    /// Folds one worker delta into the pending table; a delta arriving while
    /// tracking is off is dropped.
    pub fn absorb(&mut self, delta: &MoveDelta)
        requires
            old(self).wf(),
        ensures
            final(self).wf(),
            !old(self).tracking_enabled ==> *final(self) == *old(self),
            old(self).tracking_enabled ==> final(self).pending.spec_get(delta.display_id@)
                == old(self).pending.spec_get(delta.display_id@).saturating_add(delta.mp),
            old(self).tracking_enabled ==> forall|k: Seq<char>| k != delta.display_id@ ==> final(
                self).pending.spec_get(k) == old(self).pending.spec_get(k),
            final(self).last_flush_ms == old(self).last_flush_ms,
    {
        if !self.tracking_enabled {
            return;
        }
        self.pending.add(delta.display_id.as_str(), delta.mp);
    }

    /// Drops everything pending, as when tracking turns off.
    pub fn clear(&mut self)
        ensures
            final(self).wf(),
            forall|k: Seq<char>| final(self).pending.spec_get(k) == 0,
            final(self).last_flush_ms == old(self).last_flush_ms,
    {
        self.pending = CounterMap::new();
    }

    /// Whether a flush into the store is due.
    pub fn should_flush(&self, now_ms: u64) -> (r: bool)
        ensures
            r == (now_ms - self.last_flush_ms >= FLUSH_INTERVAL_MS),
    {
        now_ms.saturating_sub(self.last_flush_ms) >= FLUSH_INTERVAL_MS
    }

    /// Flushes whole pixels of every pending display into the store and
    /// carries each sub-pixel remainder: each display hands the store
    /// `floor(pending / 1000)` pixels and afterwards holds exactly its old
    /// backlog modulo one pixel, so no distance is lost or double-counted
    /// across flushes. With mouse tracking disabled the store is untouched.
    pub fn flush(&mut self, storage: &mut MeritStorage, now: LocalNow, now_ms: u64)
        requires
            old(self).wf(),
            old(storage).wf(),
            now.wf(),
        ensures
            final(self).wf(),
            final(storage).wf(),
            final(storage).settings == old(storage).settings,
            final(storage).stats.total_merit == old(storage).stats.total_merit,
            final(self).last_flush_ms == now_ms,
            forall|k: Seq<char>| final(self).pending.spec_get(k) == old(self).pending.spec_get(k)
                % MP_PER_PX,
            !old(storage).settings.enable_mouse_single ==> *final(storage) == *old(storage),
            // With tracking enabled, on the same day: every named display's
            // distance grows by its whole pixels, and the day total by all of
            // them together.
            old(storage).settings.enable_mouse_single && old(storage).stats.today.date
                == now.date ==> {
                &&& (forall|k: Seq<char>| k.len() > 0
                    ==> final(storage).stats.today.mouse_move_distance_px_by_display.spec_get(k)
                    == old(storage).stats.today.mouse_move_distance_px_by_display.spec_get(
                    k).saturating_add(old(self).pending.spec_get(k) / MP_PER_PX))
                &&& final(storage).stats.today.mouse_move_distance_px == crate::batcher::clamp64(
                    old(storage).stats.today.mouse_move_distance_px + spec_px_sum(
                    old(self).pending.entries@, old(self).pending.entries@.len() as int))
            },
    {
        let mut drained = CounterMap::new();
        core::mem::swap(&mut self.pending, &mut drained);
        let n = drained.entries.len();
        let mut i: usize = 0;
        while i < n
            invariant
                0 <= i <= n,
                n == drained.entries@.len(),
                drained.entries@ == old(self).pending.entries@,
                drained.wf(),
                self.pending.wf(),
                storage.wf(),
                now.wf(),
                storage.settings == old(storage).settings,
                storage.stats.total_merit == old(storage).stats.total_merit,
                self.last_flush_ms == old(self).last_flush_ms,
                forall|k: Seq<char>| self.pending.spec_get(k) == prefix_get(drained.entries@,
                    i as int, k) % MP_PER_PX,
                !old(storage).settings.enable_mouse_single ==> *storage == *old(storage),
                old(storage).settings.enable_mouse_single && old(storage).stats.today.date
                    == now.date ==> {
                    &&& storage.stats.today.date == now.date
                    &&& (forall|k: Seq<char>| k.len() > 0
                        ==> storage.stats.today.mouse_move_distance_px_by_display.spec_get(k)
                        == old(storage).stats.today.mouse_move_distance_px_by_display.spec_get(
                        k).saturating_add(prefix_get(drained.entries@, i as int, k) / MP_PER_PX))
                    &&& storage.stats.today.mouse_move_distance_px == crate::batcher::clamp64(
                        old(storage).stats.today.mouse_move_distance_px + spec_px_sum(
                        drained.entries@, i as int))
                },
            decreases n - i,
        {
            proof {
                lemma_px_sum_nonneg(drained.entries@, i as int);
            }
            proof {
                crate::assoc::lemma_seq_get_at(drained.entries@, i as int);
                crate::counter_map::lemma_prefix_get_absent_step(drained.entries@, i as int);
            }
            let id = &drained.entries[i].0;
            let mp = drained.entries[i].1;
            let px = mp / MP_PER_PX;
            let remainder = mp % MP_PER_PX;
            proof {
                assert(prefix_get(drained.entries@, i as int, id@) == 0) by {
                    assert(forall|j: int| 0 <= j < i
                        ==> drained.entries@.take(i as int)[j].0@ != id@);
                    crate::assoc::lemma_seq_get_absent(drained.entries@.take(i as int), id@);
                }
            }
            if px > 0 {
                storage.add_mouse_move_distance_px_for_display_silent(Some(id.as_str()), px, now);
            }
            if remainder > 0 {
                proof {
                    assert(self.pending.spec_get(id@) == prefix_get(drained.entries@, i as int,
                        id@) % MP_PER_PX);
                }
                self.pending.add(id.as_str(), remainder);
            }
            proof {
                assert forall|k: Seq<char>| true implies self.pending.spec_get(k) == prefix_get(
                    drained.entries@, i + 1, k) % MP_PER_PX by {
                    if k == drained.entries@[i as int].0@ {
                        assert(prefix_get(drained.entries@, i as int, k) == 0);
                    }
                }
                assert(spec_px_sum(drained.entries@, i + 1) == spec_px_sum(drained.entries@,
                    i as int) + drained.entries@[i as int].1 / MP_PER_PX);
                if old(storage).settings.enable_mouse_single && old(storage).stats.today.date
                    == now.date {
                    assert forall|k: Seq<char>| k.len() > 0
                        implies storage.stats.today.mouse_move_distance_px_by_display.spec_get(k)
                        == old(storage).stats.today.mouse_move_distance_px_by_display.spec_get(
                        k).saturating_add(prefix_get(drained.entries@, i + 1, k) / MP_PER_PX) by {
                        if k == drained.entries@[i as int].0@ {
                            assert(prefix_get(drained.entries@, i as int, k) == 0);
                        }
                    }
                }
            }
            i += 1;
        }
        proof {
            assert forall|k: Seq<char>| true implies prefix_get(drained.entries@, n as int, k)
                == old(self).pending.spec_get(k) by {
                crate::counter_map::lemma_prefix_get_full(drained.entries@, k);
            }
        }
        self.last_flush_ms = now_ms;
    }
}

} // verus!
