//! Calendar dates as plain values.
//!
//! Stats are bucketed by local calendar day. The clock and the time zone live
//! outside the library; callers pass the current day in as a `DateKey`.

use vstd::prelude::*;

verus! {

/// One local calendar day, year-month-day.
#[derive(Debug, Clone, Copy, PartialEq, Eq, Structural, Hash)]
pub struct DateKey {
    pub year: u32,
    pub month: u32,
    pub day: u32,
}

impl DateKey {
    /// A value that stands for a real calendar day as far as the library
    /// cares: four-digit year, month and day in their calendar ranges.
    pub open spec fn wf(self) -> bool {
        &&& 1970 <= self.year <= 9999
        &&& 1 <= self.month <= 12
        &&& 1 <= self.day <= 31
    }

    /// Total order on days: later days get larger numbers.
    pub open spec fn spec_ord(self) -> int {
        self.year * 10000 + self.month * 100 + self.day
    }

    /// Builds a date, rejecting fields outside the calendar ranges.
    pub fn new(year: u32, month: u32, day: u32) -> (r: Option<DateKey>)
        ensures
            r is Some <==> (DateKey { year, month, day }).wf(),
            r is Some ==> r->Some_0 == (DateKey { year, month, day }),
    {
        if 1970 <= year && year <= 9999 && 1 <= month && month <= 12 && 1 <= day && day <= 31 {
            Some(DateKey { year, month, day })
        } else {
            None
        }
    }

    /// The same order as `spec_ord`, computed on machine integers.
    pub fn ord(&self) -> (r: u32)
        requires
            self.wf(),
        ensures
            r == self.spec_ord(),
    {
        self.year * 10000 + self.month * 100 + self.day
    }

    /// Whether `self` falls strictly before `other`.
    pub fn is_before(&self, other: &DateKey) -> (r: bool)
        requires
            self.wf(),
            other.wf(),
        ensures
            r == (self.spec_ord() < other.spec_ord()),
    {
        self.ord() < other.ord()
    }
}

/// Two well-formed dates with equal order numbers are the same day.
pub proof fn lemma_ord_injective(a: DateKey, b: DateKey)
    requires
        a.wf(),
        b.wf(),
        a.spec_ord() == b.spec_ord(),
    ensures
        a == b,
{
}

} // verus!
