//! The arithmetic of a rectangular grid stored row by row: flat indices,
//! coordinates, and the eight neighbours of a cell.

use vstd::prelude::*;

verus! {

/// Whether `(x, y)` names a cell of a grid `w` wide and `h` high.
pub open spec fn in_grid(w: int, h: int, x: int, y: int) -> bool {
    0 <= x < w && 0 <= y < h
}

/// The place of cell `(x, y)` in a grid stored row by row.
pub open spec fn cell_index(w: int, x: int, y: int) -> int {
    y * w + x
}

/// The `k`-th of the eight cells around `(x, y)`, counted row by row from the
/// upper left and skipping `(x, y)` itself. It may lie outside the grid.
pub open spec fn neighbor(x: int, y: int, k: int) -> (int, int) {
    let slot = if k < 4 { k } else { k + 1 };
    (x + slot % 3 - 1, y + slot / 3 - 1)
}

/// Whether two cells touch, by a side or by a corner.
pub open spec fn touching(x1: int, y1: int, x2: int, y2: int) -> bool {
    &&& (x1 != x2 || y1 != y2)
    &&& -1 <= x2 - x1 <= 1
    &&& -1 <= y2 - y1 <= 1
}

/// A cell of the grid has its flat index inside the grid's storage.
pub proof fn lemma_cell_index_bounds(w: int, h: int, x: int, y: int)
    requires
        in_grid(w, h, x, y),
    ensures
        0 <= cell_index(w, x, y) < w * h,
{
    assert(0 <= y * w && y * w + w <= h * w) by (nonlinear_arith)
        requires
            0 <= y < h,
            0 < w,
    ;
    assert(h * w == w * h) by (nonlinear_arith);
}

/// Two cells of one grid with the same flat index are the same cell.
pub proof fn lemma_cell_index_unique(w: int, x1: int, y1: int, x2: int, y2: int)
    requires
        0 <= x1 < w,
        0 <= x2 < w,
        cell_index(w, x1, y1) == cell_index(w, x2, y2),
    ensures
        x1 == x2,
        y1 == y2,
{
    assert(y1 == y2) by (nonlinear_arith)
        requires
            0 <= x1 < w,
            0 <= x2 < w,
            y1 * w + x1 == y2 * w + x2,
    ;
}

/// Every flat index of the grid is the index of the cell in column `i % w` of
/// row `i / w`.
pub proof fn lemma_index_to_cell(w: int, h: int, i: int)
    requires
        0 <= i < w * h,
        0 < w,
    ensures
        in_grid(w, h, i % w, i / w),
        cell_index(w, i % w, i / w) == i,
{
    vstd::arithmetic::div_mod::lemma_fundamental_div_mod(i, w);
    vstd::arithmetic::div_mod::lemma_mod_bound(i, w);
    assert(w * (i / w) == (i / w) * w) by (nonlinear_arith);
    assert(0 <= i / w < h) by (nonlinear_arith)
        requires
            0 <= i < w * h,
            0 < w,
            i == (i / w) * w + i % w,
            0 <= i % w < w,
    ;
}

/// The column and the row of a cell are the remainder and the quotient of its
/// flat index by the grid's width.
pub proof fn lemma_cell_to_index(w: int, h: int, x: int, y: int)
    requires
        in_grid(w, h, x, y),
    ensures
        cell_index(w, x, y) % w == x,
        cell_index(w, x, y) / w == y,
{
    lemma_cell_index_bounds(w, h, x, y);
    let i = cell_index(w, x, y);
    lemma_index_to_cell(w, h, i);
    lemma_cell_index_unique(w, x, y, i % w, i / w);
}

/// The eight neighbours are exactly the cells that touch.
pub proof fn lemma_neighbor_touches(x: int, y: int, k: int)
    requires
        0 <= k < 8,
    ensures
        touching(x, y, neighbor(x, y, k).0, neighbor(x, y, k).1),
{
}

/// A cell that touches `(x, y)` is one of its eight neighbours.
pub proof fn lemma_touching_is_neighbor(x1: int, y1: int, x2: int, y2: int) -> (k: int)
    requires
        touching(x1, y1, x2, y2),
    ensures
        0 <= k < 8,
        neighbor(x1, y1, k) == (x2, y2),
{
    let slot = (y2 - y1 + 1) * 3 + (x2 - x1 + 1);
    let k = if slot < 4 { slot } else { slot - 1 };
    k
}

/// Whether `(x, y)` is a cell of the grid at which `s`, stored row by row, is `true`.
pub open spec fn set_at(s: Seq<bool>, w: int, h: int, x: int, y: int) -> bool {
    in_grid(w, h, x, y) && s[cell_index(w, x, y)]
}

/// At how many of the first `k` neighbours of `(x, y)` the grid `s` is `true`.
pub open spec fn count_around(s: Seq<bool>, w: int, h: int, x: int, y: int, k: int) -> nat
    decreases k,
{
    if k <= 0 {
        0
    } else {
        let n = neighbor(x, y, k - 1);
        count_around(s, w, h, x, y, k - 1) + if set_at(s, w, h, n.0, n.1) { 1nat } else { 0nat }
    }
}

/// No more than `k` of the first `k` neighbours are counted.
pub proof fn lemma_count_around_bound(s: Seq<bool>, w: int, h: int, x: int, y: int, k: int)
    requires
        0 <= k,
    ensures
        count_around(s, w, h, x, y, k) <= k,
    decreases k,
{
    if k > 0 {
        lemma_count_around_bound(s, w, h, x, y, k - 1);
    }
}

/// A count of zero around a cell means that the grid is `false` at each of the
/// neighbours counted.
pub proof fn lemma_count_around_zero(s: Seq<bool>, w: int, h: int, x: int, y: int, k: int, j: int)
    requires
        0 <= j < k,
        count_around(s, w, h, x, y, k) == 0,
    ensures
        !set_at(s, w, h, neighbor(x, y, j).0, neighbor(x, y, j).1),
    decreases k,
{
    if j < k - 1 {
        lemma_count_around_zero(s, w, h, x, y, k - 1, j);
    }
}

/// How many entries of `s` are `true`.
pub open spec fn count_true(s: Seq<bool>) -> nat
    decreases s.len(),
{
    if s.len() == 0 {
        0
    } else {
        count_true(s.drop_last()) + if s.last() { 1nat } else { 0nat }
    }
}

/// No more entries are `true` than there are entries.
pub proof fn lemma_count_true_bound(s: Seq<bool>)
    ensures
        count_true(s) <= s.len(),
    decreases s.len(),
{
    if s.len() > 0 {
        lemma_count_true_bound(s.drop_last());
    }
}

/// A sequence without a `true` entry counts zero, and the other way round.
pub proof fn lemma_count_true_zero(s: Seq<bool>)
    ensures
        count_true(s) == 0 <==> (forall|i: int| 0 <= i < s.len() ==> !s[i]),
    decreases s.len(),
{
    if s.len() > 0 {
        lemma_count_true_zero(s.drop_last());
        if count_true(s) == 0 {
            assert forall|i: int| 0 <= i < s.len() implies !s[i] by {
                if i < s.len() - 1 {
                    assert(s.drop_last()[i] == s[i]);
                }
            }
        } else if forall|i: int| 0 <= i < s.len() ==> !s[i] {
            assert forall|i: int| 0 <= i < s.drop_last().len() implies !s.drop_last()[i] by {
                assert(s.drop_last()[i] == s[i]);
            }
        }
    }
}

/// Changing one entry changes the count by that entry alone.
pub proof fn lemma_count_true_update(s: Seq<bool>, i: int, v: bool)
    requires
        0 <= i < s.len(),
    ensures
        count_true(s.update(i, v)) == count_true(s) - (if s[i] { 1int } else { 0 }) + (if v { 1int } else { 0 }),
    decreases s.len(),
{
    let t = s.update(i, v);
    if i == s.len() - 1 {
        assert(t.drop_last() =~= s.drop_last());
    } else {
        assert(t.drop_last() =~= s.drop_last().update(i, v));
        lemma_count_true_update(s.drop_last(), i, v);
    }
}

} // verus!
