//! Row-major addressing of a rectangular grid: the cell at column `x` and
//! row `y` of a grid `w` wide lies at `y * w + x`.

use vstd::prelude::*;

verus! {

/// The place of a cell in the array of its grid.
pub open spec fn cell_index(w: int, x: int, y: int) -> int {
    y * w + x
}

/// A cell of a `w` by `h` grid lies inside an array of `w * h` places.
pub proof fn lemma_cell_in_bounds(w: int, h: int, x: int, y: int)
    requires
        0 <= x < w,
        0 <= y < h,
    ensures
        0 <= y * w,
        y * w <= cell_index(w, x, y) < w * h,
{
    assert(y * w >= 0) by (nonlinear_arith)
        requires
            y >= 0,
            w >= 0,
    ;
    assert((y + 1) * w <= h * w) by (nonlinear_arith)
        requires
            y + 1 <= h,
            w >= 0,
    ;
    assert((y + 1) * w == y * w + w) by (nonlinear_arith);
    assert(h * w == w * h) by (nonlinear_arith);
}

/// Two cells of a grid `w` wide that share a place are the same cell.
pub proof fn lemma_cell_distinct(w: int, x1: int, y1: int, x2: int, y2: int)
    requires
        0 <= x1 < w,
        0 <= x2 < w,
        0 <= y1,
        0 <= y2,
        cell_index(w, x1, y1) == cell_index(w, x2, y2),
    ensures
        x1 == x2,
        y1 == y2,
{
    if y1 < y2 {
        assert((y1 + 1) * w <= y2 * w) by (nonlinear_arith)
            requires
                y1 + 1 <= y2,
                w >= 0,
        ;
        assert((y1 + 1) * w == y1 * w + w) by (nonlinear_arith);
    } else if y2 < y1 {
        assert((y2 + 1) * w <= y1 * w) by (nonlinear_arith)
            requires
                y2 + 1 <= y1,
                w >= 0,
        ;
        assert((y2 + 1) * w == y2 * w + w) by (nonlinear_arith);
    }
}

} // verus!
