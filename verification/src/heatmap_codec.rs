//! The persisted form of a heatmap grid: a sparse list of `(index, count)`
//! cells. Encoding keeps only non-zero cells; decoding rejects any cell whose
//! index falls off the base grid instead of truncating it silently.

use vstd::prelude::*;

use crate::heatmap::CLICK_HEATMAP_BASE_LEN;

verus! {

/// What decoding assigns to cell `i`: the last sparse cell carrying that
/// index, or zero when none does.
pub open spec fn spec_decoded(cells: Seq<(u32, u32)>, i: int) -> u32
    decreases cells.len(),
{
    if cells.len() == 0 {
        0u32
    } else if cells.last().0 == i {
        cells.last().1
    } else {
        spec_decoded(cells.drop_last(), i)
    }
}

/// `cells` is the sparse encoding of `grid`: every cell points into the grid
/// at a non-zero count with its exact value, indices strictly increase, and
/// every non-zero grid cell is represented.
pub open spec fn is_sparse_encoding(grid: Seq<u32>, cells: Seq<(u32, u32)>) -> bool {
    &&& forall|j: int| 0 <= j < cells.len() ==> (#[trigger] cells[j]).0 < CLICK_HEATMAP_BASE_LEN
        && cells[j].1 == grid[cells[j].0 as int] && cells[j].1 > 0
    &&& forall|a: int, b: int| 0 <= a < b < cells.len() ==> cells[a].0 < cells[b].0
    &&& forall|i: int| 0 <= i < grid.len() && grid[i] != 0 ==> exists|j: int|
        0 <= j < cells.len() && (#[trigger] cells[j]).0 == i
}

/// Encodes a base grid into its sparse form.
pub fn to_sparse(grid: &Vec<u32>) -> (r: Vec<(u32, u32)>)
    requires
        grid@.len() == CLICK_HEATMAP_BASE_LEN,
    ensures
        is_sparse_encoding(grid@, r@),
{
    let n = grid.len();
    let mut out: Vec<(u32, u32)> = Vec::new();
    let mut i: usize = 0;
    while i < n
        invariant
            0 <= i <= n,
            n == grid@.len(),
            n == CLICK_HEATMAP_BASE_LEN,
            forall|j: int| 0 <= j < out@.len() ==> (#[trigger] out@[j]).0 < i && out@[j].1
                == grid@[out@[j].0 as int] && out@[j].1 > 0,
            forall|a: int, b: int| 0 <= a < b < out@.len() ==> out@[a].0 < out@[b].0,
            forall|q: int| 0 <= q < i && grid@[q] != 0 ==> exists|j: int|
                0 <= j < out@.len() && (#[trigger] out@[j]).0 == q,
        decreases n - i,
    {
        let count = grid[i];
        if count != 0 {
            let ghost pre = out@;
            out.push((i as u32, count));
            proof {
                assert(out@[pre.len() as int].0 == i as u32);
                assert forall|q: int| 0 <= q < i + 1 && grid@[q] != 0 implies exists|j: int|
                    0 <= j < out@.len() && (#[trigger] out@[j]).0 == q by {
                    if q < i {
                        let w = choose|j: int| 0 <= j < pre.len() && pre[j].0 == q;
                        assert(out@[w].0 == q);
                    } else {
                        assert(out@[pre.len() as int].0 == q);
                    }
                }
            }
        }
        i += 1;
    }
    out
}

/// Decodes a sparse cell list back into a full base grid; `None` when any
/// index falls off the grid.
pub fn from_sparse(cells: &Vec<(u32, u32)>) -> (r: Option<Vec<u32>>)
    ensures
        r is Some <==> (forall|j: int| 0 <= j < cells@.len() ==> (#[trigger] cells@[j]).0
            < CLICK_HEATMAP_BASE_LEN),
        r is Some ==> r->Some_0@.len() == CLICK_HEATMAP_BASE_LEN,
        r is Some ==> forall|i: int| 0 <= i < CLICK_HEATMAP_BASE_LEN ==> r->Some_0@[i]
            == spec_decoded(cells@, i),
{
    let mut grid: Vec<u32> = Vec::new();
    let mut z: usize = 0;
    while z < CLICK_HEATMAP_BASE_LEN
        invariant
            0 <= z <= CLICK_HEATMAP_BASE_LEN,
            grid@.len() == z,
            forall|i: int| 0 <= i < z ==> grid@[i] == 0u32,
        decreases CLICK_HEATMAP_BASE_LEN - z,
    {
        grid.push(0);
        z += 1;
    }
    proof {
        assert forall|i: int| 0 <= i < CLICK_HEATMAP_BASE_LEN implies grid@[i] == spec_decoded(
            cells@.take(0), i) by {
            assert(cells@.take(0).len() == 0);
        }
    }
    let n = cells.len();
    let mut j: usize = 0;
    while j < n
        invariant
            0 <= j <= n,
            n == cells@.len(),
            grid@.len() == CLICK_HEATMAP_BASE_LEN,
            forall|q: int| 0 <= q < j ==> (#[trigger] cells@[q]).0 < CLICK_HEATMAP_BASE_LEN,
            forall|i: int| 0 <= i < CLICK_HEATMAP_BASE_LEN ==> grid@[i] == spec_decoded(
                cells@.take(j as int), i),
        decreases n - j,
    {
        let (idx, count) = cells[j];
        let idx = idx as usize;
        if idx >= CLICK_HEATMAP_BASE_LEN {
            return None;
        }
        let ghost pre = grid@;
        let slot = &mut grid[idx];
        *slot = count;
        proof {
            assert(grid@ =~= pre.update(idx as int, count));
            assert(cells@.take(j + 1).drop_last() =~= cells@.take(j as int));
            assert(cells@.take(j + 1).last() == cells@[j as int]);
            assert forall|i: int| 0 <= i < CLICK_HEATMAP_BASE_LEN implies grid@[i]
                == spec_decoded(cells@.take(j + 1), i) by {
                if i == idx {
                } else {
                    assert(grid@[i] == pre[i]);
                }
            }
        }
        j += 1;
    }
    proof {
        assert(cells@.take(n as int) =~= cells@);
    }
    Some(grid)
}

/// Decoding never sees the key when no cell carries it.
proof fn lemma_decoded_absent(cells: Seq<(u32, u32)>, i: int)
    requires
        forall|j: int| 0 <= j < cells.len() ==> (#[trigger] cells[j]).0 != i,
    ensures
        spec_decoded(cells, i) == 0u32,
    decreases cells.len(),
{
    if cells.len() > 0 {
        assert forall|j: int| 0 <= j < cells.drop_last().len()
            implies (#[trigger] cells.drop_last()[j]).0 != i by {
            assert(cells.drop_last()[j] == cells[j]);
        }
        lemma_decoded_absent(cells.drop_last(), i);
    }
}

/// When exactly one cell carries index `i`, decoding yields its count.
proof fn lemma_decoded_unique(cells: Seq<(u32, u32)>, i: int, w: int)
    requires
        0 <= w < cells.len(),
        cells[w].0 == i,
        forall|a: int, b: int| 0 <= a < b < cells.len() ==> cells[a].0 < cells[b].0,
    ensures
        spec_decoded(cells, i) == cells[w].1,
    decreases cells.len(),
{
    if w == cells.len() - 1 {
        assert(cells.last() == cells[w]);
    } else {
        assert(cells[w].0 < cells[cells.len() - 1].0);
        assert(cells.last().0 != i);
        assert forall|a: int, b: int| 0 <= a < b < cells.drop_last().len()
            implies cells.drop_last()[a].0 < cells.drop_last()[b].0 by {
            assert(cells.drop_last()[a] == cells[a]);
            assert(cells.drop_last()[b] == cells[b]);
        }
        assert(cells.drop_last()[w] == cells[w]);
        lemma_decoded_unique(cells.drop_last(), i, w);
    }
}

/// Round trip: decoding a sparse encoding restores every cell of the grid.
pub proof fn lemma_sparse_round_trip(grid: Seq<u32>, cells: Seq<(u32, u32)>)
    requires
        grid.len() == CLICK_HEATMAP_BASE_LEN,
        is_sparse_encoding(grid, cells),
    ensures
        forall|i: int| 0 <= i < grid.len() ==> spec_decoded(cells, i) == grid[i],
{
    assert forall|i: int| 0 <= i < grid.len() implies spec_decoded(cells, i) == grid[i] by {
        if grid[i] == 0 {
            assert forall|j: int| 0 <= j < cells.len() implies (#[trigger] cells[j]).0 != i by {
                if cells[j].0 == i {
                    assert(cells[j].1 == grid[i]);
                }
            }
            lemma_decoded_absent(cells, i);
        } else {
            let w = choose|j: int| 0 <= j < cells.len() && (#[trigger] cells[j]).0 == i;
            lemma_decoded_unique(cells, i, w);
            assert(cells[w].1 == grid[i]);
        }
    }
}

} // verus!
