//! The last-activity clock behind auto-fade: when the user last produced
//! any input, and how long they have been idle.

use vstd::prelude::*;

verus! {

/// The last moment any input arrived; zero means none seen yet.
#[derive(Debug, Clone, Copy, PartialEq, Eq, Structural)]
pub struct ActivityTracker {
    pub last_activity_ms: u64,
}

impl ActivityTracker {
    /// Starts the clock at the given moment.
    pub fn init(now_ms: u64) -> (r: ActivityTracker)
        ensures
            r.last_activity_ms == now_ms,
    {
        ActivityTracker { last_activity_ms: now_ms }
    }

    /// Records input arriving now.
    pub fn touch(&mut self, now_ms: u64)
        ensures
            final(self).last_activity_ms == now_ms,
    {
        self.last_activity_ms = now_ms;
    }

    /// The last activity moment; before any input, now counts as active.
    pub fn last_activity_ms(&self, now_ms: u64) -> (r: u64)
        ensures
            r == if self.last_activity_ms == 0 {
                now_ms
            } else {
                self.last_activity_ms
            },
    {
        if self.last_activity_ms == 0 {
            now_ms
        } else {
            self.last_activity_ms
        }
    }

    /// How long the user has been idle: the time since the last activity,
    /// zero when the clock has not started or ran backwards.
    pub fn idle_for_ms(&self, now_ms: u64) -> (r: u64)
        ensures
            r == ({
                let last = if self.last_activity_ms == 0 {
                    now_ms
                } else {
                    self.last_activity_ms
                };
                if now_ms >= last {
                    (now_ms - last) as u64
                } else {
                    0u64
                }
            }),
    {
        now_ms.saturating_sub(self.last_activity_ms(now_ms))
    }
}

} // verus!
