//! Monitor geometry: resolving a point to the display under it and
//! bucketing clicks into the base heatmap grid.
//!
//! Events arrive in either physical or logical (scale-adjusted) coordinates,
//! and some platforms misreport which; resolution tries the reported space
//! first, then the other. Scale factors are exact rationals, so every
//! conversion here is integer arithmetic with no rounding surprises.

use vstd::prelude::*;

use crate::heatmap::CLICK_HEATMAP_BASE_LEN;

verus! {

/// Which coordinate space a reported point claims to be in.
#[derive(Debug, Clone, Copy, PartialEq, Eq, Structural)]
pub enum CoordinateSpace {
    Physical,
    Logical,
}

/// The other space, tried when the reported one resolves nowhere.
pub fn opposite_space(space: CoordinateSpace) -> (r: CoordinateSpace)
    ensures
        space is Physical <==> r is Logical,
{
    match space {
        CoordinateSpace::Physical => CoordinateSpace::Logical,
        CoordinateSpace::Logical => CoordinateSpace::Physical,
    }
}

/// Bound on coordinate magnitudes the mapper accepts; far beyond any real
/// desktop, small enough that scaled products stay in `i64`.
pub const MAX_COORD: i64 = 1099511627776;

/// Bound on monitor origin magnitudes and sizes.
pub const MAX_MONITOR_EXTENT: i64 = 2147483648;

/// Bound on the numerator and denominator of a scale factor.
pub const MAX_SCALE_PART: u32 = 1000;

/// One display: physical origin and size, and the exact scale factor
/// relating logical to physical coordinates.
#[derive(Debug)]
pub struct MonitorSnapshot {
    pub id: String,
    pub pos_x: i64,
    pub pos_y: i64,
    pub width: u64,
    pub height: u64,
    pub scale_num: u32,
    pub scale_den: u32,
}

impl MonitorSnapshot {
    /// A usable display: positive size, a positive finite scale, and
    /// extents within the mapper's bounds.
    pub open spec fn wf(self) -> bool {
        &&& 0 < self.width <= MAX_MONITOR_EXTENT
        &&& 0 < self.height <= MAX_MONITOR_EXTENT
        &&& -MAX_MONITOR_EXTENT <= self.pos_x <= MAX_MONITOR_EXTENT
        &&& -MAX_MONITOR_EXTENT <= self.pos_y <= MAX_MONITOR_EXTENT
        &&& 0 < self.scale_num <= MAX_SCALE_PART
        &&& 0 < self.scale_den <= MAX_SCALE_PART
    }

    /// Whether the point `(x, y)` of `space` lies on this display. A
    /// logical point lies on it exactly when its scaled image lies within
    /// the physical bounds.
    pub open spec fn spec_contains(self, space: CoordinateSpace, x: int, y: int) -> bool {
        match space {
            CoordinateSpace::Physical => {
                &&& self.pos_x <= x < self.pos_x + self.width
                &&& self.pos_y <= y < self.pos_y + self.height
            },
            CoordinateSpace::Logical => {
                &&& self.pos_x * self.scale_den <= x * self.scale_num < (self.pos_x + self.width)
                    * self.scale_den
                &&& self.pos_y * self.scale_den <= y * self.scale_num < (self.pos_y + self.height)
                    * self.scale_den
            },
        }
    }

    /// Whether the point lies on this display.
    pub fn contains(&self, space: CoordinateSpace, x: i64, y: i64) -> (r: bool)
        requires
            self.wf(),
            -MAX_COORD <= x <= MAX_COORD,
            -MAX_COORD <= y <= MAX_COORD,
        ensures
            r == self.spec_contains(space, x as int, y as int),
    {
        match space {
            CoordinateSpace::Physical => {
                proof {
                    lemma_extent_products(*self);
                }
                self.pos_x <= x && x < self.pos_x + self.width as i64 && self.pos_y <= y && y
                    < self.pos_y + self.height as i64
            },
            CoordinateSpace::Logical => {
                proof {
                    lemma_scale_products(*self, x as int, y as int);
                }
                let num = self.scale_num as i64;
                let den = self.scale_den as i64;
                self.pos_x * den <= x * num && x * num < (self.pos_x + self.width as i64) * den
                    && self.pos_y * den <= y * num && y * num < (self.pos_y + self.height as i64)
                    * den
            },
        }
    }

    /// The physical offset of the point within this display: the logical
    /// position is scaled and floored, exactly as real-number scaling
    /// followed by truncation would place it.
    pub open spec fn spec_rel_physical(self, space: CoordinateSpace, x: int, y: int) -> (
        int,
        int,
    ) {
        match space {
            CoordinateSpace::Physical => (x - self.pos_x, y - self.pos_y),
            CoordinateSpace::Logical => (
                (x * self.scale_num - self.pos_x * self.scale_den) / (self.scale_den as int),
                (y * self.scale_num - self.pos_y * self.scale_den) / (self.scale_den as int),
            ),
        }
    }

    /// The physical offset of a contained point within this display.
    pub fn rel_physical_from_point(&self, space: CoordinateSpace, x: i64, y: i64) -> (r: (
        u64,
        u64,
    ))
        requires
            self.wf(),
            -MAX_COORD <= x <= MAX_COORD,
            -MAX_COORD <= y <= MAX_COORD,
            self.spec_contains(space, x as int, y as int),
        ensures
            r.0 == self.spec_rel_physical(space, x as int, y as int).0,
            r.1 == self.spec_rel_physical(space, x as int, y as int).1,
            r.0 < self.width,
            r.1 < self.height,
    {
        match space {
            CoordinateSpace::Physical => {
                proof {
                    lemma_extent_products(*self);
                }
                ((x - self.pos_x) as u64, (y - self.pos_y) as u64)
            },
            CoordinateSpace::Logical => {
                proof {
                    lemma_scale_products(*self, x as int, y as int);
                }
                let num = self.scale_num as i64;
                let den = self.scale_den as i64;
                let tx = x * num - self.pos_x * den;
                let ty = y * num - self.pos_y * den;
                let rx = (tx / den) as u64;
                let ry = (ty / den) as u64;
                proof {
                    lemma_scaled_rel_in_range(*self, x as int, y as int);
                }
                (rx, ry)
            },
        }
    }
}

/// Physical extent sums stay within `i64`.
proof fn lemma_extent_products(m: MonitorSnapshot)
    requires
        m.wf(),
    ensures
        -9223372036854775808 <= m.pos_x + m.width <= 9223372036854775807,
        -9223372036854775808 <= m.pos_y + m.height <= 9223372036854775807,
{
}

/// Scaled coordinate products stay within `i64`.
proof fn lemma_scale_products(m: MonitorSnapshot, x: int, y: int)
    requires
        m.wf(),
        -MAX_COORD <= x <= MAX_COORD,
        -MAX_COORD <= y <= MAX_COORD,
    ensures
        -(MAX_COORD as int) * MAX_SCALE_PART <= x * m.scale_num <= MAX_COORD * MAX_SCALE_PART,
        -(MAX_COORD as int) * MAX_SCALE_PART <= y * m.scale_num <= MAX_COORD * MAX_SCALE_PART,
        -(MAX_MONITOR_EXTENT as int) * MAX_SCALE_PART <= m.pos_x * m.scale_den
            <= MAX_MONITOR_EXTENT * MAX_SCALE_PART,
        -(MAX_MONITOR_EXTENT as int) * MAX_SCALE_PART <= m.pos_y * m.scale_den
            <= MAX_MONITOR_EXTENT * MAX_SCALE_PART,
        -(2 * MAX_MONITOR_EXTENT as int) * MAX_SCALE_PART <= (m.pos_x + m.width) * m.scale_den
            <= 2 * (MAX_MONITOR_EXTENT as int) * MAX_SCALE_PART,
        -(2 * MAX_MONITOR_EXTENT as int) * MAX_SCALE_PART <= (m.pos_y + m.height) * m.scale_den
            <= 2 * (MAX_MONITOR_EXTENT as int) * MAX_SCALE_PART,
{
    assert(x * m.scale_num <= MAX_COORD * MAX_SCALE_PART) by (nonlinear_arith)
        requires -MAX_COORD <= x <= MAX_COORD && 0 < m.scale_num <= MAX_SCALE_PART;
    assert(x * m.scale_num >= -MAX_COORD * MAX_SCALE_PART) by (nonlinear_arith)
        requires -MAX_COORD <= x <= MAX_COORD && 0 < m.scale_num <= MAX_SCALE_PART;
    assert(y * m.scale_num <= MAX_COORD * MAX_SCALE_PART) by (nonlinear_arith)
        requires -MAX_COORD <= y <= MAX_COORD && 0 < m.scale_num <= MAX_SCALE_PART;
    assert(y * m.scale_num >= -MAX_COORD * MAX_SCALE_PART) by (nonlinear_arith)
        requires -MAX_COORD <= y <= MAX_COORD && 0 < m.scale_num <= MAX_SCALE_PART;
    assert(-(MAX_MONITOR_EXTENT as int) * MAX_SCALE_PART <= m.pos_x * m.scale_den
        <= MAX_MONITOR_EXTENT * MAX_SCALE_PART) by (nonlinear_arith)
        requires -MAX_MONITOR_EXTENT <= m.pos_x <= MAX_MONITOR_EXTENT && 0 < m.scale_den
            <= MAX_SCALE_PART;
    assert(-(MAX_MONITOR_EXTENT as int) * MAX_SCALE_PART <= m.pos_y * m.scale_den
        <= MAX_MONITOR_EXTENT * MAX_SCALE_PART) by (nonlinear_arith)
        requires -MAX_MONITOR_EXTENT <= m.pos_y <= MAX_MONITOR_EXTENT && 0 < m.scale_den
            <= MAX_SCALE_PART;
    assert(-(2 * MAX_MONITOR_EXTENT as int) * MAX_SCALE_PART <= (m.pos_x + m.width) * m.scale_den
        <= 2 * (MAX_MONITOR_EXTENT as int) * MAX_SCALE_PART) by (nonlinear_arith)
        requires -MAX_MONITOR_EXTENT <= m.pos_x <= MAX_MONITOR_EXTENT && 0 < m.width
            <= MAX_MONITOR_EXTENT && 0 < m.scale_den <= MAX_SCALE_PART;
    assert(-(2 * MAX_MONITOR_EXTENT as int) * MAX_SCALE_PART <= (m.pos_y + m.height)
        * m.scale_den <= 2 * (MAX_MONITOR_EXTENT as int) * MAX_SCALE_PART) by (nonlinear_arith)
        requires -MAX_MONITOR_EXTENT <= m.pos_y <= MAX_MONITOR_EXTENT && 0 < m.height
            <= MAX_MONITOR_EXTENT && 0 < m.scale_den <= MAX_SCALE_PART;
}

/// The scaled, floored offset of a contained logical point lies inside the
/// display's physical size.
proof fn lemma_scaled_rel_in_range(m: MonitorSnapshot, x: int, y: int)
    requires
        m.wf(),
        m.spec_contains(CoordinateSpace::Logical, x, y),
    ensures
        0 <= (x * m.scale_num - m.pos_x * m.scale_den) / (m.scale_den as int) < m.width,
        0 <= (y * m.scale_num - m.pos_y * m.scale_den) / (m.scale_den as int) < m.height,
{
    let den = m.scale_den as int;
    let tx = x * m.scale_num - m.pos_x * m.scale_den;
    let ty = y * m.scale_num - m.pos_y * m.scale_den;
    assert(0 <= tx < m.width * den) by (nonlinear_arith)
        requires m.pos_x * m.scale_den <= x * m.scale_num < (m.pos_x + m.width) * m.scale_den
            && tx == x * m.scale_num - m.pos_x * m.scale_den && den == m.scale_den && den > 0;
    assert(0 <= ty < m.height * den) by (nonlinear_arith)
        requires m.pos_y * m.scale_den <= y * m.scale_num < (m.pos_y + m.height) * m.scale_den
            && ty == y * m.scale_num - m.pos_y * m.scale_den && den == m.scale_den && den > 0;
    assert(0 <= tx / den < m.width) by (nonlinear_arith)
        requires 0 <= tx < m.width * den && den > 0;
    assert(0 <= ty / den < m.height) by (nonlinear_arith)
        requires 0 <= ty < m.height * den && den > 0;
}

/// The index of the first monitor containing the point in `space`, if any.
pub open spec fn spec_monitor_at(
    monitors: Seq<MonitorSnapshot>,
    space: CoordinateSpace,
    x: int,
    y: int,
) -> Option<int>
    decreases monitors.len(),
{
    if monitors.len() == 0 {
        None
    } else if monitors[0].spec_contains(space, x, y) {
        Some(0)
    } else {
        match spec_monitor_at(monitors.drop_first(), space, x, y) {
            Some(i) => Some(i + 1),
            None => None,
        }
    }
}

/// Finds the first monitor containing the point in `space`.
pub fn monitor_containing_point(
    monitors: &Vec<MonitorSnapshot>,
    space: CoordinateSpace,
    x: i64,
    y: i64,
) -> (r: Option<usize>)
    requires
        forall|i: int| 0 <= i < monitors@.len() ==> (#[trigger] monitors@[i]).wf(),
        -MAX_COORD <= x <= MAX_COORD,
        -MAX_COORD <= y <= MAX_COORD,
    ensures
        match r {
            Some(i) => i < monitors@.len() && monitors@[i as int].spec_contains(space, x as int,
                y as int) && Some(i as int) == spec_monitor_at(monitors@, space, x as int,
                y as int),
            None => spec_monitor_at(monitors@, space, x as int, y as int) is None,
        },
{
    let n = monitors.len();
    let mut i: usize = 0;
    while i < n
        invariant
            0 <= i <= n,
            n == monitors@.len(),
            forall|j: int| 0 <= j < monitors@.len() ==> (#[trigger] monitors@[j]).wf(),
            -MAX_COORD <= x <= MAX_COORD,
            -MAX_COORD <= y <= MAX_COORD,
            forall|j: int| 0 <= j < i ==> !(#[trigger] monitors@[j]).spec_contains(space,
                x as int, y as int),
        decreases n - i,
    {
        if monitors[i].contains(space, x, y) {
            proof {
                lemma_monitor_at_found(monitors@, space, x as int, y as int, i as int);
            }
            return Some(i);
        }
        i += 1;
    }
    proof {
        lemma_monitor_at_missing(monitors@, space, x as int, y as int);
    }
    None
}

/// When the first `i` monitors miss and monitor `i` contains the point, the
/// scan finds exactly `i`.
proof fn lemma_monitor_at_found(
    monitors: Seq<MonitorSnapshot>,
    space: CoordinateSpace,
    x: int,
    y: int,
    i: int,
)
    requires
        0 <= i < monitors.len(),
        forall|j: int| 0 <= j < i ==> !(#[trigger] monitors[j]).spec_contains(space, x, y),
        monitors[i].spec_contains(space, x, y),
    ensures
        spec_monitor_at(monitors, space, x, y) == Some(i),
    decreases monitors.len(),
{
    if i > 0 {
        assert forall|j: int| 0 <= j < i - 1
            implies !(#[trigger] monitors.drop_first()[j]).spec_contains(space, x, y) by {
            assert(monitors.drop_first()[j] == monitors[j + 1]);
        }
        assert(monitors.drop_first()[i - 1] == monitors[i]);
        lemma_monitor_at_found(monitors.drop_first(), space, x, y, i - 1);
    }
}

/// When every monitor misses, the scan finds nothing.
proof fn lemma_monitor_at_missing(
    monitors: Seq<MonitorSnapshot>,
    space: CoordinateSpace,
    x: int,
    y: int,
)
    requires
        forall|j: int| 0 <= j < monitors.len() ==> !(#[trigger] monitors[j]).spec_contains(space,
            x, y),
    ensures
        spec_monitor_at(monitors, space, x, y) is None,
    decreases monitors.len(),
{
    if monitors.len() > 0 {
        assert forall|j: int| 0 <= j < monitors.drop_first().len()
            implies !(#[trigger] monitors.drop_first()[j]).spec_contains(space, x, y) by {
            assert(monitors.drop_first()[j] == monitors[j + 1]);
        }
        lemma_monitor_at_missing(monitors.drop_first(), space, x, y);
    }
}

/// The single-entry cache of the last matched monitor, per worker, versioned
/// against the monitor list.
#[derive(Debug)]
pub struct MapperCache {
    pub version: u64,
    pub index: Option<usize>,
}

impl MapperCache {
    /// An empty cache that matches no monitor list yet.
    pub fn new() -> (r: MapperCache)
        ensures
            r.version == 0,
            r.index is None,
    {
        MapperCache { version: 0, index: None }
    }
}

/// Resolves the point to a monitor, trying the reported space first and the
/// other one second, consulting the one-entry cache before a full scan.
/// Returns the monitor's index and the space that matched.
pub fn resolve_monitor(
    monitors: &Vec<MonitorSnapshot>,
    cache: &mut MapperCache,
    monitors_version: u64,
    preferred_space: CoordinateSpace,
    x: i64,
    y: i64,
) -> (r: Option<(usize, CoordinateSpace)>)
    requires
        forall|i: int| 0 <= i < monitors@.len() ==> (#[trigger] monitors@[i]).wf(),
        -MAX_COORD <= x <= MAX_COORD,
        -MAX_COORD <= y <= MAX_COORD,
    ensures
        final(cache).version == monitors_version,
        // The reported space is tried first: while any monitor contains the
        // point in it, the answer is in that space.
        spec_monitor_at(monitors@, preferred_space, x as int, y as int) is Some ==> r is Some
            && (r->0).1 == preferred_space,
        match r {
            Some((i, space)) => i < monitors@.len() && monitors@[i as int].spec_contains(space,
                x as int, y as int),
            None => spec_monitor_at(monitors@, preferred_space, x as int, y as int) is None
                && spec_monitor_at(monitors@, crate::monitors::spec_opposite(preferred_space),
                x as int, y as int) is None,
        },
{
    if cache.version == monitors_version {
        if let Some(idx) = cache.index {
            if idx < monitors.len() {
                if monitors[idx].contains(preferred_space, x, y) {
                    return Some((idx, preferred_space));
                }
            }
        }
    } else {
        cache.version = monitors_version;
        cache.index = None;
    }
    cache.version = monitors_version;
    if let Some(idx) = monitor_containing_point(monitors, preferred_space, x, y) {
        cache.index = Some(idx);
        return Some((idx, preferred_space));
    }
    let other = opposite_space(preferred_space);
    if let Some(idx) = monitor_containing_point(monitors, other, x, y) {
        cache.index = Some(idx);
        return Some((idx, other));
    }
    proof {
        assert(spec_opposite(preferred_space) == other);
    }
    None
}

/// The other coordinate space.
pub open spec fn spec_opposite(space: CoordinateSpace) -> CoordinateSpace {
    match space {
        CoordinateSpace::Physical => CoordinateSpace::Logical,
        CoordinateSpace::Logical => CoordinateSpace::Physical,
    }
}

/// The base-grid cell of a physical offset within a display of the given
/// size: the offset scaled into 256 buckets per axis.
pub open spec fn spec_cell_index(rel_x: int, rel_y: int, width: int, height: int) -> int {
    let cx = rel_x * 256 / width;
    let cy = rel_y * 256 / height;
    cy * 256 + cx
}

/// Buckets a physical offset within a display into a base-grid cell index.
pub fn cell_index_for_point(rel_x: u64, rel_y: u64, width: u64, height: u64) -> (idx: usize)
    requires
        0 < width <= MAX_MONITOR_EXTENT,
        0 < height <= MAX_MONITOR_EXTENT,
        rel_x < width,
        rel_y < height,
    ensures
        idx == spec_cell_index(rel_x as int, rel_y as int, width as int, height as int),
        idx < CLICK_HEATMAP_BASE_LEN,
{
    proof {
        let rx = rel_x as int;
        let ry = rel_y as int;
        let w = width as int;
        let h = height as int;
        assert(0 <= rx * 256 / w < 256) by (nonlinear_arith)
            requires 0 <= rx < w;
        assert(0 <= ry * 256 / h < 256) by (nonlinear_arith)
            requires 0 <= ry < h;
    }
    let cx = (rel_x * 256 / width) as usize;
    let cy = (rel_y * 256 / height) as usize;
    cy * 256 + cx
}

} // verus!
