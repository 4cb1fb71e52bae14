//! The reference semantics of the engine's iterative compute kernel: a
//! Game-of-Life step over a toroidal grid of 32-bit texels.
//!
//! The device kernel evolves the grid on the GPU; this module states what
//! one step computes, cell by cell, and proves the host implementation
//! against it. A texel is live when it is nonzero; the successor of a cell
//! is live exactly when it has three live neighbors, or is itself live
//! with two.

use vstd::prelude::*;

verus! {

/// The previous coordinate on a ring of length `n`.
pub open spec fn spec_wrap_dec(i: int, n: int) -> int {
    if i == 0 {
        n - 1
    } else {
        i - 1
    }
}

/// The next coordinate on a ring of length `n`.
pub open spec fn spec_wrap_inc(i: int, n: int) -> int {
    if i == n - 1 {
        0
    } else {
        i + 1
    }
}

/// Whether the cell at column `x`, row `y` is live.
pub open spec fn spec_live(cells: Seq<u32>, w: int, x: int, y: int) -> bool {
    cells[y * w + x] > 0
}

/// One when the cell at column `x`, row `y` is live, zero otherwise.
pub open spec fn spec_live_count(cells: Seq<u32>, w: int, x: int, y: int) -> int {
    if spec_live(cells, w, x, y) {
        1
    } else {
        0
    }
}

/// The number of live cells among the eight toroidal neighbors of the
/// cell at column `x`, row `y`.
pub open spec fn spec_neighbors(cells: Seq<u32>, w: int, h: int, x: int, y: int) -> int {
    let xm = spec_wrap_dec(x, w);
    let xp = spec_wrap_inc(x, w);
    let ym = spec_wrap_dec(y, h);
    let yp = spec_wrap_inc(y, h);
    spec_live_count(cells, w, xm, ym) + spec_live_count(cells, w, x, ym) + spec_live_count(
        cells,
        w,
        xp,
        ym,
    ) + spec_live_count(cells, w, xm, y) + spec_live_count(cells, w, xp, y) + spec_live_count(
        cells,
        w,
        xm,
        yp,
    ) + spec_live_count(cells, w, x, yp) + spec_live_count(cells, w, xp, yp)
}

/// The successor of a cell: live with three live neighbors, or live with
/// two when it is already live.
pub open spec fn spec_next_cell(live: bool, n: int) -> u32 {
    if n == 3 || (live && n == 2) {
        1
    } else {
        0
    }
}

/// The successor of the cell at linear index `j` of a `w` by `h` grid.
pub open spec fn spec_step_at(cells: Seq<u32>, w: int, h: int, j: int) -> u32 {
    let x = j % w;
    let y = j / w;
    spec_next_cell(spec_live(cells, w, x, y), spec_neighbors(cells, w, h, x, y))
}

/// Any cell of a grid lies within the grid's linear extent.
proof fn lemma_cell_index_in_grid(w: int, h: int, x: int, y: int)
    requires
        0 <= x < w,
        0 <= y < h,
    ensures
        0 <= y * w + x < w * h,
{
    assert(0 <= y * w + x < w * h) by (nonlinear_arith)
        requires
            0 <= x < w,
            0 <= y < h,
    ;
}

/// Reads the cell at column `x`, row `y`.
fn cell_at(cells: &Vec<u32>, w: usize, h: usize, x: usize, y: usize) -> (r: u32)
    requires
        cells@.len() == w * h,
        x < w,
        y < h,
    ensures
        r == cells@[(y as int) * w + x],
{
    let n = cells.len();
    proof {
        lemma_cell_index_in_grid(w as int, h as int, x as int, y as int);
        assert((y as int) * w + x < n);
    }
    cells[y * w + x]
}

/// One when the cell at column `x`, row `y` is live, zero otherwise.
fn live_count(cells: &Vec<u32>, w: usize, h: usize, x: usize, y: usize) -> (r: u8)
    requires
        cells@.len() == w * h,
        x < w,
        y < h,
    ensures
        r == spec_live_count(cells@, w as int, x as int, y as int),
        r <= 1,
{
    if cell_at(cells, w, h, x, y) > 0 {
        1
    } else {
        0
    }
}

/// The previous coordinate on a ring of length `n`.
fn wrap_dec(i: usize, n: usize) -> (r: usize)
    requires
        i < n,
    ensures
        r == spec_wrap_dec(i as int, n as int),
        r < n,
{
    if i == 0 {
        n - 1
    } else {
        i - 1
    }
}

/// The next coordinate on a ring of length `n`.
fn wrap_inc(i: usize, n: usize) -> (r: usize)
    requires
        i < n,
    ensures
        r == spec_wrap_inc(i as int, n as int),
        r < n,
{
    if i == n - 1 {
        0
    } else {
        i + 1
    }
}

/// Counts the live cells among the eight toroidal neighbors of the cell
/// at column `x`, row `y`.
fn neighbors(cells: &Vec<u32>, w: usize, h: usize, x: usize, y: usize) -> (r: u8)
    requires
        cells@.len() == w * h,
        x < w,
        y < h,
    ensures
        r == spec_neighbors(cells@, w as int, h as int, x as int, y as int),
        r <= 8,
{
    let xm = wrap_dec(x, w);
    let xp = wrap_inc(x, w);
    let ym = wrap_dec(y, h);
    let yp = wrap_inc(y, h);
    let n: u8 = live_count(cells, w, h, xm, ym) + live_count(cells, w, h, x, ym) + live_count(
        cells,
        w,
        h,
        xp,
        ym,
    ) + live_count(cells, w, h, xm, y) + live_count(cells, w, h, xp, y) + live_count(
        cells,
        w,
        h,
        xm,
        yp,
    ) + live_count(cells, w, h, x, yp) + live_count(cells, w, h, xp, yp);
    n
}

/// Evolves the whole grid by one step of the kernel's rule.
pub fn step_grid(cells: &Vec<u32>, w: usize, h: usize) -> (r: Vec<u32>)
    requires
        cells@.len() == w * h,
        0 < w,
        0 < h,
    ensures
        r@.len() == cells@.len(),
        forall|j: int|
            0 <= j < r@.len() ==> r@[j] == spec_step_at(cells@, w as int, h as int, j),
{
    let mut out: Vec<u32> = Vec::new();
    let mut y: usize = 0;
    while y < h
        invariant
            0 <= y <= h,
            0 < w,
            0 < h,
            cells@.len() == w * h,
            out@.len() == y * w,
            forall|j: int|
                0 <= j < out@.len() ==> out@[j] == spec_step_at(cells@, w as int, h as int, j),
        decreases h - y,
    {
        proof {
            assert(y * w + w <= h * w && h * w == w * h) by (nonlinear_arith)
                requires
                    y < h,
                    0 < w,
            ;
        }
        let mut x: usize = 0;
        while x < w
            invariant
                0 <= x <= w,
                y < h,
                0 < w,
                0 < h,
                cells@.len() == w * h,
                y * w + w <= w * h,
                out@.len() == y * w + x,
                forall|j: int|
                    0 <= j < out@.len() ==> out@[j] == spec_step_at(cells@, w as int, h as int, j),
            decreases w - x,
        {
            let live = cell_at(cells, w, h, x, y) > 0;
            let n = neighbors(cells, w, h, x, y);
            let next: u32 = if n == 3 || (live && n == 2) {
                1
            } else {
                0
            };
            let ghost prev = out@;
            out.push(next);
            proof {
                let j = (y as int) * w + x;
                assert(j % (w as int) == x && j / (w as int) == y) by (nonlinear_arith)
                    requires
                        j == (y as int) * w + x,
                        0 <= x < w,
                        0 < w,
                ;
                assert(out@[j] == next);
                assert(next == spec_step_at(cells@, w as int, h as int, j));
                assert forall|k: int|
                    0 <= k < out@.len() implies out@[k] == spec_step_at(
                    cells@,
                    w as int,
                    h as int,
                    k,
                ) by {
                    if k < j {
                        assert(out@[k] == prev[k]);
                    }
                }
            }
            x = x + 1;
        }
        proof {
            assert((y + 1) * w == y * w + w) by (nonlinear_arith);
        }
        y = y + 1;
    }
    proof {
        assert((h as int) * w == (w as int) * h) by (nonlinear_arith);
    }
    out
}

/// The fixed-point law of the empty grid: one step of the kernel's rule
/// on an all-dead grid leaves every cell dead.
pub proof fn lemma_all_dead_is_fixed(cells: Seq<u32>, w: int, h: int)
    requires
        cells.len() == w * h,
        0 < w,
        0 < h,
        forall|i: int| 0 <= i < cells.len() ==> cells[i] == 0,
    ensures
        forall|j: int| 0 <= j < cells.len() ==> spec_step_at(cells, w, h, j) == 0,
{
    assert forall|j: int| 0 <= j < cells.len() implies spec_step_at(cells, w, h, j) == 0 by {
        let x = j % w;
        let y = j / w;
        assert(0 <= x < w && 0 <= y < h) by (nonlinear_arith)
            requires
                0 <= j < w * h,
                x == j % w,
                y == j / w,
                0 < w,
                0 < h,
        ;
        let xm = spec_wrap_dec(x, w);
        let xp = spec_wrap_inc(x, w);
        let ym = spec_wrap_dec(y, h);
        let yp = spec_wrap_inc(y, h);
        lemma_cell_index_in_grid(w, h, xm, ym);
        lemma_cell_index_in_grid(w, h, x, ym);
        lemma_cell_index_in_grid(w, h, xp, ym);
        lemma_cell_index_in_grid(w, h, xm, y);
        lemma_cell_index_in_grid(w, h, xp, y);
        lemma_cell_index_in_grid(w, h, xm, yp);
        lemma_cell_index_in_grid(w, h, x, yp);
        lemma_cell_index_in_grid(w, h, xp, yp);
        lemma_cell_index_in_grid(w, h, x, y);
        assert(spec_neighbors(cells, w, h, x, y) == 0);
        assert(!spec_live(cells, w, x, y));
    }
}

} // verus!
