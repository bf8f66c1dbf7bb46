//! Rate-limited UI animation and stats broadcasting.
//!
//! Counting is synchronous and exact; animation is decoupled from it. Each
//! global (origin, source) stream has an accumulator: the first unit of a
//! burst pops immediately, the rest drain in random chunks of one to nine on
//! a fixed cadence, and an idle accumulator is evicted after a quiet spell.
//! A full stats broadcast goes out at most once per interval.

use vstd::prelude::*;

use crate::input::InputEvent;
use crate::input::InputOrigin;
use crate::input::InputSource;

verus! {

/// Largest animation chunk: one digit's worth of pops.
pub const MAX_DIGIT: u64 = 9;

/// Cadence of animation chunks, in milliseconds.
pub const ANIM_EMIT_INTERVAL_MS: u64 = 120;

/// Minimum spacing of full stats broadcasts, in milliseconds.
pub const STATS_EMIT_INTERVAL_MS: u64 = 200;

/// Idle time after which an empty accumulator is dropped, in milliseconds.
pub const IDLE_EVICT_AFTER_MS: u64 = 2000;

/// The accumulator of one animation stream.
#[derive(Debug, Clone, Copy, PartialEq, Eq, Structural)]
pub struct AnimState {
    pub pending: u64,
    pub next_emit_at_ms: u64,
    pub last_seen_at_ms: u64,
}

/// The minimum of a pending backlog and the chunk cap.
pub open spec fn spec_chunk_cap(pending: u64) -> u64 {
    if pending < MAX_DIGIT {
        pending
    } else {
        MAX_DIGIT
    }
}

impl AnimState {
    /// A fresh, empty accumulator seen now.
    pub fn new(now_ms: u64) -> (r: AnimState)
        ensures
            r.pending == 0,
            r.next_emit_at_ms == now_ms,
            r.last_seen_at_ms == now_ms,
    {
        AnimState { pending: 0, next_emit_at_ms: now_ms, last_seen_at_ms: now_ms }
    }

    /// Emits the first chunk of a burst: up to nine units leave the backlog
    /// at once and the cadence clock starts.
    pub fn emit_first(&mut self, now_ms: u64) -> (chunk: u64)
        ensures
            chunk == spec_chunk_cap(old(self).pending),
            final(self).pending == old(self).pending - chunk,
            final(self).next_emit_at_ms == now_ms.saturating_add(ANIM_EMIT_INTERVAL_MS),
            final(self).last_seen_at_ms == old(self).last_seen_at_ms,
    {
        let chunk = if self.pending < MAX_DIGIT {
            self.pending
        } else {
            MAX_DIGIT
        };
        self.pending = self.pending - chunk;
        self.next_emit_at_ms = now_ms.saturating_add(ANIM_EMIT_INTERVAL_MS);
        chunk
    }

    /// Emits a random chunk of one to nine units (never more than the
    /// backlog) and advances the cadence clock.
    pub fn emit_random(&mut self, rng: &mut rand::rngs::SmallRng, now_ms: u64) -> (chunk: u64)
        requires
            old(self).pending >= 1,
        ensures
            1 <= chunk <= spec_chunk_cap(old(self).pending),
            final(self).pending == old(self).pending - chunk,
            final(self).next_emit_at_ms == now_ms.saturating_add(ANIM_EMIT_INTERVAL_MS),
            final(self).last_seen_at_ms == old(self).last_seen_at_ms,
    {
        let max = if self.pending < MAX_DIGIT {
            self.pending
        } else {
            MAX_DIGIT
        };
        let chunk = crate::rng::anim_chunk(rng, max);
        self.pending = self.pending - chunk;
        self.next_emit_at_ms = now_ms.saturating_add(ANIM_EMIT_INTERVAL_MS);
        chunk
    }
}

/// The animation accumulators of the two global streams, plus the stats
/// broadcast throttle.
#[derive(Debug)]
pub struct MeritAnimator {
    pub keyboard: Option<AnimState>,
    pub mouse: Option<AnimState>,
    pub stats_dirty: bool,
    pub last_stats_emit_ms: u64,
}

impl MeritAnimator {
    /// Nothing pending, nothing dirty; the throttle is armed so the first
    /// broadcast goes out immediately.
    pub fn new() -> (r: MeritAnimator)
        ensures
            r.keyboard is None,
            r.mouse is None,
            !r.stats_dirty,
            r.last_stats_emit_ms == 0,
    {
        MeritAnimator { keyboard: None, mouse: None, stats_dirty: false, last_stats_emit_ms: 0 }
    }

    /// Feeds freshly counted global merit of one source into its
    /// accumulator. The first unit of a burst hitting an idle (or absent)
    /// accumulator pops immediately; a due accumulator drains one random
    /// chunk; no merit is invented or dropped: the emitted chunk plus the
    /// remaining backlog equals the old backlog plus `count`.
    pub fn feed(
        &mut self,
        source: InputSource,
        count: u64,
        rng: &mut rand::rngs::SmallRng,
        now_ms: u64,
    ) -> (ev: Option<InputEvent>)
        ensures
            count == 0 ==> *final(self) == *old(self) && ev is None,
            ev is Some ==> ev->0.origin is Global && ev->0.source == source && 1 <= ev->0.count
                <= MAX_DIGIT,
            final(self).stats_dirty == old(self).stats_dirty,
            final(self).last_stats_emit_ms == old(self).last_stats_emit_ms,
            source is Keyboard ==> final(self).mouse == old(self).mouse,
            source is MouseSingle ==> final(self).keyboard == old(self).keyboard,
            count > 0 ==> spec_fed(spec_slot(*old(self), source), spec_slot(*final(self), source),
                ev, source, count, now_ms),
    {
        if count == 0 {
            return None;
        }
        match source {
            InputSource::Keyboard => {
                let (st, ev) = feed_slot(self.keyboard, source, count, rng, now_ms);
                self.keyboard = st;
                ev
            },
            InputSource::MouseSingle => {
                let (st, ev) = feed_slot(self.mouse, source, count, rng, now_ms);
                self.mouse = st;
                ev
            },
        }
    }

    /// Drains every due accumulator by one random chunk and evicts the ones
    /// that sat idle too long. Each slot follows `spec_polled`: a due
    /// backlog emits exactly one chunk and shrinks by it, an idle empty
    /// accumulator is evicted, anything else is untouched.
    pub fn poll(&mut self, rng: &mut rand::rngs::SmallRng, now_ms: u64) -> (evs: Vec<InputEvent>)
        ensures
            evs@.len() <= 2,
            forall|i: int| 0 <= i < evs@.len() ==> (#[trigger] evs@[i]).origin is Global && 1
                <= evs@[i].count <= MAX_DIGIT,
            final(self).stats_dirty == old(self).stats_dirty,
            final(self).last_stats_emit_ms == old(self).last_stats_emit_ms,
            exists|kb: Option<InputEvent>, ms: Option<InputEvent>|
                {
                    &&& #[trigger] spec_polled(old(self).keyboard, final(self).keyboard, kb,
                        InputSource::Keyboard, now_ms)
                    &&& #[trigger] spec_polled(old(self).mouse, final(self).mouse, ms,
                        InputSource::MouseSingle, now_ms)
                    &&& evs@ == spec_opt_seq(kb) + spec_opt_seq(ms)
                },
    {
        let mut evs: Vec<InputEvent> = Vec::new();
        let (kb_st, kb) = poll_slot(self.keyboard, InputSource::Keyboard, rng, now_ms);
        self.keyboard = kb_st;
        if let Some(ev) = kb {
            evs.push(ev);
        }
        let (ms_st, ms) = poll_slot(self.mouse, InputSource::MouseSingle, rng, now_ms);
        self.mouse = ms_st;
        if let Some(ev) = ms {
            evs.push(ev);
        }
        proof {
            assert(evs@ =~= spec_opt_seq(kb) + spec_opt_seq(ms));
        }
        evs
    }

    /// Marks that persisted stats changed; a broadcast becomes due.
    pub fn mark_dirty(&mut self)
        ensures
            *final(self) == (MeritAnimator { stats_dirty: true, ..*old(self) }),
    {
        self.stats_dirty = true;
    }

    /// Whether a full stats broadcast should go out now: something changed
    /// and the last broadcast is at least the interval ago.
    pub fn should_emit_stats(&self, now_ms: u64) -> (r: bool)
        ensures
            r == (self.stats_dirty && now_ms - self.last_stats_emit_ms >= STATS_EMIT_INTERVAL_MS),
    {
        self.stats_dirty && now_ms.saturating_sub(self.last_stats_emit_ms)
            >= STATS_EMIT_INTERVAL_MS
    }

    /// Records that the broadcast went out now; the next one waits a full
    /// interval.
    pub fn mark_stats_emitted(&mut self, now_ms: u64)
        ensures
            *final(self) == (MeritAnimator {
                stats_dirty: false,
                last_stats_emit_ms: now_ms,
                ..*old(self)
            }),
    {
        self.stats_dirty = false;
        self.last_stats_emit_ms = now_ms;
    }

    /// How long the actor may sleep: the time to the nearest deadline — a
    /// due stats broadcast, a due animation chunk or a pending eviction — or
    /// `None` when there is nothing to wait for.
    pub fn next_timeout_ms(&self, now_ms: u64) -> (r: Option<u64>)
        ensures
            r is None ==> !self.stats_dirty && self.keyboard is None && self.mouse is None,
            r is Some ==> r->0 == (if spec_next_deadline(*self) >= now_ms {
                (spec_next_deadline(*self) - now_ms) as u64
            } else {
                0u64
            }),
    {
        let mut next: Option<u64> = None;
        if self.stats_dirty {
            next = Some(self.last_stats_emit_ms.saturating_add(STATS_EMIT_INTERVAL_MS));
        }
        if let Some(st) = &self.keyboard {
            let d = slot_deadline(st);
            next = Some(
                match next {
                    Some(existing) => if existing < d {
                        existing
                    } else {
                        d
                    },
                    None => d,
                },
            );
        }
        if let Some(st) = &self.mouse {
            let d = slot_deadline(st);
            next = Some(
                match next {
                    Some(existing) => if existing < d {
                        existing
                    } else {
                        d
                    },
                    None => d,
                },
            );
        }
        match next {
            Some(deadline) => if deadline > now_ms {
                Some(deadline - now_ms)
            } else {
                Some(0)
            },
            None => None,
        }
    }
}

/// The deadline of one accumulator: its next chunk when it holds a backlog,
/// its eviction moment otherwise.
pub open spec fn spec_slot_deadline(st: AnimState) -> u64 {
    if st.pending > 0 {
        st.next_emit_at_ms
    } else {
        st.last_seen_at_ms.saturating_add(IDLE_EVICT_AFTER_MS)
    }
}

/// The nearest deadline over the stats throttle and both accumulators, in a
/// state where at least one of them is live.
pub open spec fn spec_next_deadline(a: MeritAnimator) -> u64 {
    let stats: Option<u64> = if a.stats_dirty {
        Some(a.last_stats_emit_ms.saturating_add(STATS_EMIT_INTERVAL_MS))
    } else {
        None
    };
    let with_kb: Option<u64> = match (stats, a.keyboard) {
        (Some(d), Some(st)) => Some(min64(d, spec_slot_deadline(st))),
        (None, Some(st)) => Some(spec_slot_deadline(st)),
        (d, None) => d,
    };
    match (with_kb, a.mouse) {
        (Some(d), Some(st)) => min64(d, spec_slot_deadline(st)),
        (None, Some(st)) => spec_slot_deadline(st),
        (Some(d), None) => d,
        (None, None) => 0,
    }
}

/// The smaller of two times.
pub open spec fn min64(a: u64, b: u64) -> u64 {
    if a < b {
        a
    } else {
        b
    }
}

/// The deadline of one accumulator, computed.
fn slot_deadline(st: &AnimState) -> (r: u64)
    ensures
        r == spec_slot_deadline(*st),
{
    if st.pending > 0 {
        st.next_emit_at_ms
    } else {
        st.last_seen_at_ms.saturating_add(IDLE_EVICT_AFTER_MS)
    }
}

/// The accumulator of `source` in an animator.
pub open spec fn spec_slot(a: MeritAnimator, source: InputSource) -> Option<AnimState> {
    match source {
        InputSource::Keyboard => a.keyboard,
        InputSource::MouseSingle => a.mouse,
    }
}

/// One event as a sequence: empty for `None`.
pub open spec fn spec_opt_seq(o: Option<InputEvent>) -> Seq<InputEvent> {
    match o {
        Some(e) => seq![e],
        None => Seq::<InputEvent>::empty(),
    }
}

/// The chunk a returned event carries; zero for `None`.
pub open spec fn spec_ev_count(o: Option<InputEvent>) -> u64 {
    match o {
        Some(e) => e.count,
        None => 0,
    }
}

/// How feeding `count` units moves one accumulator from `st0` to `st1`,
/// emitting `ev`: the accumulator exists afterwards, was just seen, and the
/// emitted chunk plus the remaining backlog equals the old backlog plus
/// `count` exactly. A burst hitting an idle or absent accumulator pops its
/// first chunk immediately (the smaller of `count` and nine); a live
/// backlog drains one random chunk when due and nothing otherwise.
pub open spec fn spec_fed(
    st0: Option<AnimState>,
    st1: Option<AnimState>,
    ev: Option<InputEvent>,
    source: InputSource,
    count: u64,
    now_ms: u64,
) -> bool {
    let pending0: u64 = match st0 {
        Some(st) => st.pending,
        None => 0u64,
    };
    &&& st1 is Some
    &&& st1->0.last_seen_at_ms == now_ms
    &&& spec_ev_count(ev) + st1->0.pending == pending0.saturating_add(count)
    &&& (pending0 == 0 ==> ev == Some(InputEvent {
        origin: InputOrigin::Global,
        source,
        count: spec_chunk_cap(pending0.saturating_add(count)),
    }) && st1->0.next_emit_at_ms == now_ms.saturating_add(ANIM_EMIT_INTERVAL_MS))
    &&& (pending0 > 0 && st0->0.next_emit_at_ms <= now_ms ==> ev is Some
        && st1->0.next_emit_at_ms == now_ms.saturating_add(ANIM_EMIT_INTERVAL_MS))
    &&& (pending0 > 0 && st0->0.next_emit_at_ms > now_ms ==> ev is None
        && st1->0.next_emit_at_ms == st0->0.next_emit_at_ms)
}

/// How one poll moves an accumulator from `st0` to `st1`, emitting `ev`: an
/// absent accumulator stays absent; a due backlog emits exactly one chunk
/// and shrinks by it (and is evicted if that empties it past the idle
/// window); an empty accumulator idle past the window is evicted; anything
/// else is untouched.
pub open spec fn spec_polled(
    st0: Option<AnimState>,
    st1: Option<AnimState>,
    ev: Option<InputEvent>,
    source: InputSource,
    now_ms: u64,
) -> bool {
    match st0 {
        None => st1 is None && ev is None,
        Some(st) => if st.pending > 0 && now_ms >= st.next_emit_at_ms {
            &&& ev is Some
            &&& ev->0.origin is Global
            &&& ev->0.source == source
            &&& 1 <= ev->0.count <= spec_chunk_cap(st.pending)
            &&& ({
                let rem = (st.pending - ev->0.count) as u64;
                if rem == 0 && now_ms - st.last_seen_at_ms >= IDLE_EVICT_AFTER_MS {
                    st1 is None
                } else {
                    st1 == Some(AnimState {
                        pending: rem,
                        next_emit_at_ms: now_ms.saturating_add(ANIM_EMIT_INTERVAL_MS),
                        last_seen_at_ms: st.last_seen_at_ms,
                    })
                }
            })
        } else if st.pending == 0 && now_ms - st.last_seen_at_ms >= IDLE_EVICT_AFTER_MS {
            st1 is None && ev is None
        } else {
            st1 == st0 && ev is None
        },
    }
}

/// Feeds one accumulator by value; see `spec_fed`.
fn feed_slot(
    st0: Option<AnimState>,
    source: InputSource,
    count: u64,
    rng: &mut rand::rngs::SmallRng,
    now_ms: u64,
) -> (r: (Option<AnimState>, Option<InputEvent>))
    requires
        count > 0,
    ensures
        spec_fed(st0, r.0, r.1, source, count, now_ms),
        r.1 is Some ==> r.1->0.origin is Global && r.1->0.source == source && 1 <= r.1->0.count
            <= MAX_DIGIT,
{
    let mut state = match st0 {
        Some(st) => st,
        None => AnimState::new(now_ms),
    };
    let was_idle = state.pending == 0;
    state.last_seen_at_ms = now_ms;
    state.pending = state.pending.saturating_add(count);
    let chunk = if was_idle {
        state.emit_first(now_ms)
    } else if state.next_emit_at_ms <= now_ms {
        state.emit_random(rng, now_ms)
    } else {
        0
    };
    let ev = if chunk == 0 {
        None
    } else {
        Some(InputEvent { origin: InputOrigin::Global, source, count: chunk })
    };
    (Some(state), ev)
}

/// Polls one accumulator by value; see `spec_polled`.
fn poll_slot(
    st0: Option<AnimState>,
    source: InputSource,
    rng: &mut rand::rngs::SmallRng,
    now_ms: u64,
) -> (r: (Option<AnimState>, Option<InputEvent>))
    ensures
        spec_polled(st0, r.0, r.1, source, now_ms),
        r.1 is Some ==> r.1->0.origin is Global && r.1->0.source == source && 1 <= r.1->0.count
            <= MAX_DIGIT,
{
    let mut state = match st0 {
        Some(st) => st,
        None => {
            return (None, None);
        },
    };
    let mut ev: Option<InputEvent> = None;
    if state.pending > 0 && now_ms >= state.next_emit_at_ms {
        let chunk = state.emit_random(rng, now_ms);
        ev = Some(InputEvent { origin: InputOrigin::Global, source, count: chunk });
    }
    if state.pending == 0 && now_ms.saturating_sub(state.last_seen_at_ms) >= IDLE_EVICT_AFTER_MS {
        (None, ev)
    } else {
        (Some(state), ev)
    }
}

} // verus!
