//! The debounced snapshot writer's decision logic and the persisted state
//! shape.
//!
//! Saving is decoupled from the hot path: counting code only requests a
//! save; the writer coalesces bursts of requests and writes one snapshot
//! when the debounce window closes. The file work itself happens outside
//! the library.

use vstd::prelude::*;

use crate::merit_stats::MeritStats;
use crate::placement::PlacementMap;
use crate::settings::Settings;

verus! {

/// The version written into new snapshots.
pub const CURRENT_STATE_VERSION: u32 = 3;

/// The version assumed for snapshots that carry none.
pub fn default_state_version() -> (r: u32)
    ensures
        r == 1,
{
    1
}

/// How long a burst of save requests coalesces before one write happens,
/// in milliseconds.
pub const SAVE_DEBOUNCE_MS: u64 = 650;

/// The debounce state of the snapshot writer.
#[derive(Debug, Clone, Copy, PartialEq, Eq, Structural)]
pub struct SaveDebouncer {
    pub pending: bool,
    pub first_request_ms: u64,
}

impl SaveDebouncer {
    /// Nothing to write.
    pub fn new() -> (r: SaveDebouncer)
        ensures
            !r.pending,
            r.first_request_ms == 0,
    {
        SaveDebouncer { pending: false, first_request_ms: 0 }
    }

    /// Asks for a snapshot write; repeated requests coalesce into the
    /// window opened by the first.
    pub fn request_save(&mut self, now_ms: u64)
        ensures
            final(self).pending,
            old(self).pending ==> final(self).first_request_ms == old(self).first_request_ms,
            !old(self).pending ==> final(self).first_request_ms == now_ms,
    {
        if !self.pending {
            self.first_request_ms = now_ms;
        }
        self.pending = true;
    }

    /// Whether the window has closed and the snapshot should be written
    /// now; writing clears the pending request.
    pub fn take_due(&mut self, now_ms: u64) -> (due: bool)
        ensures
            due == (old(self).pending && now_ms - old(self).first_request_ms
                >= SAVE_DEBOUNCE_MS),
            due ==> !final(self).pending,
            !due ==> *final(self) == *old(self),
    {
        if self.pending && now_ms.saturating_sub(self.first_request_ms) >= SAVE_DEBOUNCE_MS {
            self.pending = false;
            true
        } else {
            false
        }
    }
}

/// Everything one snapshot holds.
#[derive(Debug)]
pub struct PersistedState {
    pub version: u32,
    pub stats: MeritStats,
    pub settings: Settings,
    pub window_placements: PlacementMap,
}

impl PersistedState {
    /// A loadable snapshot: well-formed stats and placements.
    pub open spec fn wf(self) -> bool {
        &&& self.stats.wf()
        &&& self.window_placements.wf()
    }
}

} // verus!
