//! The foreground-application cache: a periodically refreshed snapshot of
//! which application is in front, replaced wholesale on refresh.
//!
//! Querying the OS for the frontmost application happens outside the
//! library; the sampler loop hands each answer in and every counted trigger
//! reads the cached value.

use vstd::prelude::*;

use crate::counter_map::copy_str;
use crate::input::AppContext;

verus! {

/// The process-wide foreground-application cache.
#[derive(Debug)]
pub struct ActiveAppCache {
    pub current: AppContext,
}

impl ActiveAppCache {
    /// Starts with the unknown application.
    pub fn new() -> (r: ActiveAppCache)
        ensures
            r.current.id@ == "__unknown__"@,
            r.current.name is None,
    {
        ActiveAppCache { current: AppContext::unknown() }
    }

    /// Replaces the cached application wholesale.
    pub fn set_cached(&mut self, next: AppContext)
        ensures
            final(self).current == next,
    {
        self.current = next;
    }

    /// The cached foreground application; the placeholder when none was
    /// ever sampled.
    pub fn current_or_unknown(&self) -> (r: AppContext)
        ensures
            r.id@ == self.current.id@,
            r.name is Some <==> self.current.name is Some,
            r.name is Some ==> r.name->0@ == self.current.name->0@,
    {
        AppContext {
            id: copy_str(self.current.id.as_str()),
            name: match &self.current.name {
                Some(n) => Some(copy_str(n.as_str())),
                None => None,
            },
        }
    }
}

} // verus!
