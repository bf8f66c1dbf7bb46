//! Resampling the 256-by-256 base grid into an arbitrary output resolution
//! for rendering.
//!
//! Every base cell pours its whole count into exactly one output cell, so the
//! total count is preserved exactly; only the shape changes.

use vstd::prelude::*;

use crate::heatmap::sum_grid;
use crate::heatmap::CLICK_HEATMAP_BASE_COLS;
use crate::heatmap::CLICK_HEATMAP_BASE_LEN;
use crate::heatmap::CLICK_HEATMAP_BASE_ROWS;

verus! {

/// A resampled heatmap handed to the UI.
#[derive(Debug)]
pub struct ClickHeatmapGrid {
    pub monitor_id: String,
    pub cols: u32,
    pub rows: u32,
    pub counts: Vec<u64>,
    pub max: u64,
    pub total_clicks: u64,
}

/// Clamps a requested grid dimension into `[min, max]`, falling back on zero.
pub fn clamp_grid_dim(v: u32, min: u32, max: u32, fallback: u32) -> (r: u32)
    requires
        min <= max,
    ensures
        v == 0 ==> r == fallback,
        v != 0 ==> r == if v < min {
            min
        } else if v > max {
            max
        } else {
            v
        },
{
    if v == 0 {
        return fallback;
    }
    if v < min {
        min
    } else if v > max {
        max
    } else {
        v
    }
}

/// The output cell that base cell `i` pours into, for an output of
/// `cols` columns and `rows` rows.
pub open spec fn spec_dest(i: int, cols: int, rows: int) -> int {
    let x = i % 256;
    let y = i / 256;
    (y * rows / 256) * cols + x * cols / 256
}

/// The count an output cell `d` collects from the first `n` base cells.
pub open spec fn spec_collected(grid: Seq<u32>, cols: int, rows: int, n: int, d: int) -> int
    decreases n,
{
    if n <= 0 {
        0
    } else {
        spec_collected(grid, cols, rows, n - 1, d) + if spec_dest(n - 1, cols, rows) == d {
            grid[n - 1] as int
        } else {
            0
        }
    }
}

/// The sum of an output grid, as an unbounded integer.
pub open spec fn sum_out(s: Seq<u64>) -> int
    decreases s.len(),
{
    if s.len() == 0 {
        0
    } else {
        sum_out(s.drop_last()) + s.last()
    }
}

/// Rewriting one output cell moves the sum by exactly the difference.
proof fn lemma_sum_out_update(s: Seq<u64>, i: int, v: u64)
    requires
        0 <= i < s.len(),
    ensures
        sum_out(s.update(i, v)) == sum_out(s) - s[i] + v,
    decreases s.len(),
{
    let t = s.update(i, v);
    if i == s.len() - 1 {
        assert(t.drop_last() =~= s.drop_last());
    } else {
        assert(t.drop_last() =~= s.drop_last().update(i, v));
        lemma_sum_out_update(s.drop_last(), i, v);
        assert(s.drop_last()[i] == s[i]);
    }
}

/// Every element of a sequence is at most its sum.
proof fn lemma_element_le_sum(s: Seq<u64>, i: int)
    requires
        0 <= i < s.len(),
    ensures
        s[i] <= sum_out(s),
        0 <= sum_out(s),
    decreases s.len(),
{
    if s.len() == 1 {
    } else if i == s.len() - 1 {
        lemma_element_le_sum(s.drop_last(), 0);
    } else {
        lemma_element_le_sum(s.drop_last(), i);
        assert(s.drop_last()[i] == s[i]);
    }
}

/// Law: each base cell maps to exactly one output cell — `spec_dest` is a
/// total function — and that cell lies inside the output grid.
pub proof fn lemma_dest_in_range(i: int, cols: int, rows: int)
    requires
        0 <= i < CLICK_HEATMAP_BASE_LEN,
        1 <= cols <= 240,
        1 <= rows <= 180,
    ensures
        0 <= spec_dest(i, cols, rows) < cols * rows,
{
    let x = i % 256;
    let y = i / 256;
    assert(0 <= x < 256);
    assert(0 <= y < 256) by (nonlinear_arith)
        requires 0 <= i < 65536 && y == i / 256;
    let tx = x * cols / 256;
    let ty = y * rows / 256;
    assert(0 <= tx < cols) by (nonlinear_arith)
        requires 0 <= x < 256 && 1 <= cols && tx == x * cols / 256;
    assert(0 <= ty < rows) by (nonlinear_arith)
        requires 0 <= y < 256 && 1 <= rows && ty == y * rows / 256;
    assert(ty * cols + tx < cols * rows) by (nonlinear_arith)
        requires 0 <= tx < cols && 0 <= ty < rows;
}

/// Resamples a base grid to `cols` by `rows` output cells. The output holds
/// exactly the base counts, redistributed: its sum equals the base sum, and
/// each output cell collects precisely the base cells that map onto it.
pub fn resample_base_grid(grid: &Vec<u32>, cols: usize, rows: usize) -> (r: Vec<u64>)
    requires
        grid@.len() == CLICK_HEATMAP_BASE_LEN,
        1 <= cols <= 240,
        1 <= rows <= 180,
    ensures
        r@.len() == cols * rows,
        sum_out(r@) == sum_grid(grid@),
        forall|d: int| 0 <= d < cols * rows ==> r@[d] == spec_collected(grid@, cols as int,
            rows as int, CLICK_HEATMAP_BASE_LEN as int, d),
{
    proof {
        assert(cols * rows <= 43200) by (nonlinear_arith)
            requires 1 <= cols <= 240 && 1 <= rows <= 180;
    }
    let out_len = cols * rows;
    let mut out: Vec<u64> = Vec::new();
    let mut z: usize = 0;
    while z < out_len
        invariant
            0 <= z <= out_len,
            out@.len() == z,
            forall|d: int| 0 <= d < z ==> out@[d] == 0u64,
            sum_out(out@) == 0,
        decreases out_len - z,
    {
        proof {
            assert(out@.push(0u64).drop_last() =~= out@);
        }
        out.push(0);
        z += 1;
    }
    let mut i: usize = 0;
    while i < CLICK_HEATMAP_BASE_LEN
        invariant
            0 <= i <= CLICK_HEATMAP_BASE_LEN,
            out@.len() == out_len,
            out_len == cols * rows,
            grid@.len() == CLICK_HEATMAP_BASE_LEN,
            1 <= cols <= 240,
            1 <= rows <= 180,
            sum_out(out@) == sum_grid(grid@.take(i as int)),
            forall|d: int| 0 <= d < out_len ==> out@[d] == spec_collected(grid@, cols as int,
                rows as int, i as int, d),
        decreases CLICK_HEATMAP_BASE_LEN - i,
    {
        let count = grid[i];
        let x = i % CLICK_HEATMAP_BASE_COLS;
        let y = i / CLICK_HEATMAP_BASE_COLS;
        proof {
            assert(x < 256);
            assert(y < 256) by (nonlinear_arith)
                requires 0 <= i < 65536 && y == i as int / 256;
            assert(x * cols <= 255 * 240) by (nonlinear_arith)
                requires x < 256 && cols <= 240;
            assert(y * rows <= 255 * 180) by (nonlinear_arith)
                requires y < 256 && rows <= 180;
        }
        let tx = (x * cols) / CLICK_HEATMAP_BASE_COLS;
        let ty = (y * rows) / CLICK_HEATMAP_BASE_ROWS;
        proof {
            lemma_dest_in_range(i as int, cols as int, rows as int);
            assert(ty * cols + tx == spec_dest(i as int, cols as int, rows as int));
        }
        let t_idx = ty * cols + tx;
        let ghost pre = out@;
        proof {
            lemma_element_le_sum(pre, t_idx as int);
            crate::heatmap::lemma_sum_grid_bounds(grid@.take(i as int));
            assert(grid@.take(i + 1).drop_last() =~= grid@.take(i as int));
            assert(grid@.take(i + 1).last() == grid@[i as int]);
            assert(sum_grid(grid@.take(i as int)) <= 65536 * (u32::MAX as int)) by {
                assert(grid@.take(i as int).len() <= 65536);
                assert(grid@.take(i as int).len() * (u32::MAX as int) <= 65536 * (
                u32::MAX as int)) by (nonlinear_arith)
                    requires grid@.take(i as int).len() <= 65536;
            }
        }
        let cur = out[t_idx];
        let slot = &mut out[t_idx];
        *slot = cur + count as u64;
        proof {
            assert(out@ =~= pre.update(t_idx as int, (cur + count as u64) as u64));
            lemma_sum_out_update(pre, t_idx as int, (cur + count as u64) as u64);
            assert forall|d: int| 0 <= d < out_len implies out@[d] == spec_collected(grid@,
                cols as int, rows as int, i + 1, d) by {
                if d != t_idx {
                    assert(out@[d] == pre[d]);
                }
            }
        }
        i += 1;
    }
    proof {
        assert(grid@.take(CLICK_HEATMAP_BASE_LEN as int) =~= grid@);
    }
    out
}

/// Answers a heatmap grid query: the display's base grid — all-time, or of
/// one day — resampled to the requested shape (clamped into its legal
/// range), with its peak cell and the display's total clicks. An untracked
/// display or day yields an all-zero grid.
#[verifier::rlimit(60)]
#[verifier::spinoff_prover]
pub fn get_click_heatmap_grid(
    state: &crate::heatmap_state::ClickHeatmapState,
    monitor_id: &str,
    cols: u32,
    rows: u32,
    date_key: Option<crate::datekey::DateKey>,
) -> (r: ClickHeatmapGrid)
    requires
        state.wf(),
    ensures
        r.monitor_id@ == monitor_id@,
        8 <= r.cols <= 240,
        6 <= r.rows <= 180,
        r.counts@.len() == r.cols * r.rows,
        // The peak is attained: no cell exceeds it, and unless the grid is
        // all zero some cell reaches it.
        forall|d: int| 0 <= d < r.counts@.len() ==> r.counts@[d] <= r.max,
        r.max == 0 || exists|d: int| 0 <= d < r.counts@.len() && r.counts@[d] == r.max,
        ({
            let display = match date_key {
                Some(day) => match state.daily.spec_get(day) {
                    Some(table) => table.displays.spec_get(monitor_id@),
                    None => None,
                },
                None => state.displays.spec_get(monitor_id@),
            };
            match display {
                Some(h) => sum_out(r.counts@) == sum_grid(h.grid@) && r.total_clicks
                    == h.total_clicks
                    // Each output cell collects exactly the base cells that
                    // map onto it.
                    && (forall|d: int| 0 <= d < r.counts@.len() ==> r.counts@[d]
                    == spec_collected(h.grid@, r.cols as int, r.rows as int,
                    crate::heatmap::CLICK_HEATMAP_BASE_LEN as int, d)),
                None => sum_out(r.counts@) == 0 && r.total_clicks == 0 && (forall|d: int|
                    0 <= d < r.counts@.len() ==> r.counts@[d] == 0),
            }
        }),
{
    let cols = clamp_grid_dim(cols, 8, 240, 64) as usize;
    let rows = clamp_grid_dim(rows, 6, 180, 36) as usize;

    let display = match date_key {
        Some(day) => match state.daily.get_day(day) {
            Some(table) => table.displays.get(monitor_id),
            None => None,
        },
        None => state.displays.get(monitor_id),
    };

    let (counts, total_clicks) = match display {
        Some(h) => (resample_base_grid(&h.grid, cols, rows), h.total_clicks),
        None => {
            proof {
                assert(cols * rows <= 43200) by (nonlinear_arith)
                    requires 1 <= cols <= 240 && 1 <= rows <= 180;
            }
            let out_len = cols * rows;
            let mut zeros: Vec<u64> = Vec::new();
            let mut z: usize = 0;
            while z < out_len
                invariant
                    0 <= z <= out_len,
                    zeros@.len() == z,
                    sum_out(zeros@) == 0,
                    forall|d: int| 0 <= d < z ==> zeros@[d] == 0u64,
                decreases out_len - z,
            {
                proof {
                    assert(zeros@.push(0u64).drop_last() =~= zeros@);
                }
                zeros.push(0);
                z += 1;
            }
            (zeros, 0)
        },
    };
    let max = grid_max(&counts);
    ClickHeatmapGrid {
        monitor_id: crate::counter_map::copy_str(monitor_id),
        cols: cols as u32,
        rows: rows as u32,
        counts,
        max,
        total_clicks,
    }
}

/// The largest cell of a resampled grid; zero for an empty grid.
pub fn grid_max(counts: &Vec<u64>) -> (r: u64)
    ensures
        forall|d: int| 0 <= d < counts@.len() ==> counts@[d] <= r,
        r == 0 || exists|d: int| 0 <= d < counts@.len() && counts@[d] == r,
{
    let n = counts.len();
    let mut best: u64 = 0;
    let mut i: usize = 0;
    while i < n
        invariant
            0 <= i <= n,
            n == counts@.len(),
            forall|d: int| 0 <= d < i ==> counts@[d] <= best,
            best == 0 || exists|d: int| 0 <= d < i && counts@[d] == best,
        decreases n - i,
    {
        if counts[i] > best {
            best = counts[i];
        }
        i += 1;
    }
    best
}

} // verus!
