//! A bounded string-interning cache for the hot counting path.
//!
//! Key codes and shortcut ids repeat constantly; the cache keeps one owned
//! copy per distinct string, bounded in size, evicting the oldest entries
//! first when full.

use vstd::prelude::*;

use crate::counter_map::copy_str;
use crate::strtools::str_eq;

verus! {

/// The default capacity of the interning cache.
pub const INTERN_DEFAULT_CAPACITY: usize = 4096;

/// A bounded first-in-first-out cache of interned strings.
#[derive(Debug)]
pub struct InternCache {
    pub cap: usize,
    pub entries: Vec<String>,
}

/// Whether some entry holds exactly this text.
pub open spec fn spec_cached(entries: Seq<String>, s: Seq<char>) -> bool {
    exists|j: int| 0 <= j < entries.len() && entries[j]@ == s
}

impl InternCache {
    /// A real capacity and no more entries than it allows.
    pub open spec fn wf(self) -> bool {
        &&& self.cap >= 64
        &&& self.entries@.len() <= self.cap
    }

    /// An empty cache; a capacity under 64 is raised to 64.
    pub fn new(cap: usize) -> (r: InternCache)
        ensures
            r.wf(),
            r.entries@.len() == 0,
            r.cap == if cap >= 64 {
                cap
            } else {
                64usize
            },
    {
        let cap = if cap >= 64 {
            cap
        } else {
            64
        };
        InternCache { cap, entries: Vec::new() }
    }

    /// Hands out an owned copy of `s` and remembers its text, evicting the
    /// oldest entries past the capacity.
    pub fn intern_str(&mut self, s: &str) -> (r: String)
        requires
            old(self).wf(),
        ensures
            final(self).wf(),
            r@ == s@,
            spec_cached(final(self).entries@, s@),
    {
        let n = self.entries.len();
        let mut i: usize = 0;
        while i < n
            invariant
                0 <= i <= n,
                n == self.entries@.len(),
                *self == *old(self),
                old(self).wf(),
            decreases n - i,
        {
            if str_eq(self.entries[i].as_str(), s) {
                proof {
                    assert(self.entries@[i as int]@ == s@);
                }
                return copy_str(self.entries[i].as_str());
            }
            i += 1;
        }
        let owned = copy_str(s);
        let out = copy_str(s);
        self.entries.push(owned);
        while self.entries.len() > self.cap
            invariant
                self.cap >= 64,
                self.entries@.len() >= 1,
                self.entries@.last()@ == s@,
            decreases self.entries@.len(),
        {
            let ghost pre = self.entries@;
            self.entries.remove(0);
            proof {
                assert(self.entries@ =~= pre.drop_first());
                assert(self.entries@.last() == pre.last());
            }
        }
        proof {
            assert(self.entries@[self.entries@.len() - 1]@ == s@);
        }
        out
    }
}

} // verus!
