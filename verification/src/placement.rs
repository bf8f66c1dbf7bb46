//! Remembered window placements, keyed by window label.

use vstd::prelude::*;

use crate::assoc::lemma_seq_get_absent;
use crate::assoc::lemma_seq_get_at;
use crate::assoc::lemma_seq_get_push;
use crate::assoc::lemma_seq_get_update;
use crate::assoc::seq_get;
use crate::assoc::seq_keys_distinct;
use crate::counter_map::copy_str;
use crate::strtools::str_eq;

verus! {

/// Where one window sat, absolutely and relative to its display.
#[derive(Debug)]
pub struct WindowPlacement {
    pub display_name: Option<String>,
    pub x: i32,
    pub y: i32,
    pub width: u32,
    pub height: u32,
    pub rel_x: i32,
    pub rel_y: i32,
}

/// Placements by window label.
#[derive(Debug)]
pub struct PlacementMap {
    pub entries: Vec<(String, WindowPlacement)>,
}

impl PlacementMap {
    /// Each label holds exactly one placement.
    pub open spec fn wf(self) -> bool {
        seq_keys_distinct(self.entries@)
    }

    /// The placement stored under a label, if any.
    pub open spec fn spec_get(self, k: Seq<char>) -> Option<WindowPlacement> {
        seq_get(self.entries@, k)
    }

    /// An empty table.
    pub fn new() -> (r: PlacementMap)
        ensures
            r.wf(),
            r.entries@.len() == 0,
            forall|k: Seq<char>| r.spec_get(k) is None,
    {
        PlacementMap { entries: Vec::new() }
    }

    /// Stores `placement` under `label`, replacing what was there.
    pub fn set(&mut self, label: &str, placement: WindowPlacement)
        requires
            old(self).wf(),
        ensures
            final(self).wf(),
            final(self).spec_get(label@) == Some(placement),
            forall|k2: Seq<char>| k2 != label@ ==> final(self).spec_get(k2) == old(self).spec_get(
                k2),
    {
        let n = self.entries.len();
        let mut i: usize = 0;
        while i < n
            invariant
                0 <= i <= n,
                n == self.entries@.len(),
                self.wf(),
                *self == *old(self),
                forall|j: int| 0 <= j < i ==> self.entries@[j].0@ != label@,
            decreases n - i,
        {
            if str_eq(self.entries[i].0.as_str(), label) {
                proof {
                    lemma_seq_get_at(self.entries@, i as int);
                }
                let ghost pre = self.entries@;
                let slot = &mut self.entries[i].1;
                *slot = placement;
                proof {
                    let v = *final(slot);
                    assert(self.entries@ =~= pre.update(i as int, (pre[i as int].0, v)));
                    assert forall|k2: Seq<char>| true implies seq_get(self.entries@, k2) == (
                        if pre[i as int].0@ == k2 {
                            Some(v)
                        } else {
                            seq_get(pre, k2)
                        }) by {
                        lemma_seq_get_update(pre, i as int, v, k2);
                    }
                }
                return;
            }
            i += 1;
        }
        proof {
            lemma_seq_get_absent(self.entries@, label@);
        }
        let ghost pre = self.entries@;
        let entry = (copy_str(label), placement);
        self.entries.push(entry);
        proof {
            assert forall|k2: Seq<char>| true implies seq_get(self.entries@, k2) == (
                if seq_get(pre, k2) is Some {
                    seq_get(pre, k2)
                } else if label@ == k2 {
                    Some(entry.1)
                } else {
                    None
                }) by {
                lemma_seq_get_push(pre, entry, k2);
            }
            assert(seq_keys_distinct(self.entries@)) by {
                assert(forall|j: int| 0 <= j < pre.len() ==> pre[j].0@ != label@);
                assert(forall|j: int| 0 <= j < pre.len() ==> self.entries@[j] == pre[j]);
                assert(self.entries@[pre.len() as int] == entry);
            }
        }
    }
}

} // verus!
