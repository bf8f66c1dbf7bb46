//! The main window's cached bounds, used to ignore global clicks that land
//! on the window itself: those arrive again as explicit in-app actions, and
//! counting both would double them.

use vstd::prelude::*;

use crate::monitors::CoordinateSpace;

verus! {

/// An axis-aligned rectangle in integer pixels, half-open on the right and
/// bottom edges.
#[derive(Debug, Clone, Copy, PartialEq, Eq, Structural)]
pub struct Rect {
    pub left: i64,
    pub top: i64,
    pub right: i64,
    pub bottom: i64,
}

impl Rect {
    /// Whether the point lies inside the rectangle.
    pub fn contains(&self, x: i64, y: i64) -> (r: bool)
        ensures
            r == (self.left <= x < self.right && self.top <= y < self.bottom),
    {
        x >= self.left && y >= self.top && x < self.right && y < self.bottom
    }
}

/// The cached bounds of the main window, in both coordinate spaces, plus
/// its visibility and when they were last refreshed.
#[derive(Debug, Clone, Copy, PartialEq, Eq, Structural)]
pub struct BoundsState {
    pub visible: bool,
    pub physical: Option<Rect>,
    pub logical: Option<Rect>,
    pub last_refresh_ms: u64,
}

impl BoundsState {
    /// No window seen yet: not visible, no rectangles.
    pub fn new() -> (r: BoundsState)
        ensures
            !r.visible,
            r.physical is None,
            r.logical is None,
            r.last_refresh_ms == 0,
    {
        BoundsState { visible: false, physical: None, logical: None, last_refresh_ms: 0 }
    }

    /// Whether a point of `space` lies on the visible main window. An
    /// invisible window or a missing rectangle swallows nothing, so
    /// counting errs toward counting.
    pub fn contains_point(&self, space: CoordinateSpace, x: i64, y: i64) -> (r: bool)
        ensures
            !self.visible ==> !r,
            self.visible ==> r == match space {
                CoordinateSpace::Physical => match self.physical {
                    Some(rect) => rect.left <= x < rect.right && rect.top <= y < rect.bottom,
                    None => false,
                },
                CoordinateSpace::Logical => match self.logical {
                    Some(rect) => rect.left <= x < rect.right && rect.top <= y < rect.bottom,
                    None => false,
                },
            },
    {
        if !self.visible {
            return false;
        }
        let rect = match space {
            CoordinateSpace::Physical => &self.physical,
            CoordinateSpace::Logical => &self.logical,
        };
        match rect {
            Some(rect) => rect.contains(x, y),
            None => false,
        }
    }

    /// Whether the cached bounds are stale and worth refreshing: the
    /// interval elapsed, or nothing usable is cached at all.
    pub fn is_stale(&self, now_ms: u64, min_interval_ms: u64) -> (r: bool)
        ensures
            r == ((if now_ms >= self.last_refresh_ms {
                (now_ms - self.last_refresh_ms) as u64
            } else {
                0u64
            }) >= min_interval_ms || (!self.visible && self.physical is None
                && self.logical is None)),
    {
        now_ms.saturating_sub(self.last_refresh_ms) >= min_interval_ms || (!self.visible
            && self.physical.is_none() && self.logical.is_none())
    }
}

} // verus!
