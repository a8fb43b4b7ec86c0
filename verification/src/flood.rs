//! The flood: opening a safe cell together with all that it leads to, with an
//! explicit work list in place of recursion.

use vstd::prelude::*;
use crate::board::{Board, Mark};
use crate::game::{flat, neighbor_cell, Cell};
use crate::grid::{
    count_around, count_true, lemma_cell_index_bounds, lemma_cell_index_unique,
    lemma_cell_to_index, lemma_count_around_zero, lemma_count_true_bound,
    lemma_count_true_update, lemma_index_to_cell, lemma_neighbor_touches,
    lemma_touching_is_neighbor, neighbor, touching,
};

verus! {

/// The `j`-th neighbour of `(cx, cy)` is revealed in `r` if the flood may open it.
spec fn neighbor_done(b: Board, r: Seq<bool>, cx: int, cy: int, j: int) -> bool {
    let n = neighbor(cx, cy, j);
    b.floodable(n.0, n.1) ==> r[b.at(n.0, n.1)]
}

/// The first `k` neighbours of `(cx, cy)` are done.
spec fn done_around(b: Board, r: Seq<bool>, cx: int, cy: int, k: int) -> bool {
    forall|j: int| 0 <= j < k ==> #[trigger] neighbor_done(b, r, cx, cy, j)
}

/// `(cx, cy)` waits on the work list.
spec fn waiting(work: Seq<(usize, usize)>, cx: int, cy: int) -> bool {
    exists|j: int| 0 <= j < work.len() && (#[trigger] work[j]).0 == cx && work[j].1 == cy
}

/// `(cx, cy)` was opened by this flood and the flood goes on from it.
spec fn spreading(b: Board, r: Seq<bool>, cx: int, cy: int) -> bool {
    &&& b.has(cx, cy)
    &&& r[b.at(cx, cy)]
    &&& !b.revealed[b.at(cx, cy)]
    &&& b.spreads(cx, cy)
}

/// A cell from which the flood goes on either waits on the work list or has
/// all its neighbours done.
spec fn settled(b: Board, r: Seq<bool>, work: Seq<(usize, usize)>, cx: int, cy: int) -> bool {
    spreading(b, r, cx, cy) ==> waiting(work, cx, cy) || done_around(b, r, cx, cy, 8)
}

/// Every cell that `r` reveals beyond the board's own is one that the flood from
/// `from` reaches.
spec fn sound(b: Board, r: Seq<bool>, from: (int, int)) -> bool {
    forall|i: int|
        0 <= i < r.len() && #[trigger] r[i] && !b.revealed[i] ==> b.flood_reaches(
            from,
            (i % b.w, i / b.w),
        )
}

/// The cells still covered in `r`.
spec fn covered(r: Seq<bool>) -> int {
    r.len() - count_true(r)
}

/// The sizes that the flood relies on.
pub(crate) open spec fn sized(b: Board) -> bool {
    &&& 0 <= b.w
    &&& 0 <= b.h
    &&& b.mines.len() == b.cells()
    &&& b.revealed.len() == b.cells()
    &&& b.marks.len() == b.cells()
}

/// What is done around a cell stays done when more is revealed.
proof fn lemma_done_stays(b: Board, r1: Seq<bool>, r2: Seq<bool>, cx: int, cy: int, j: int)
    requires
        sized(b),
        r1.len() == b.cells(),
        r2.len() == b.cells(),
        forall|i: int| 0 <= i < r1.len() && r1[i] ==> r2[i],
        neighbor_done(b, r1, cx, cy, j),
    ensures
        neighbor_done(b, r2, cx, cy, j),
{
    let n = neighbor(cx, cy, j);
    if b.floodable(n.0, n.1) {
        lemma_cell_index_bounds(b.w, b.h, n.0, n.1);
    }
}

/// A neighbour is done once it is revealed, or was not floodable to begin with.
proof fn lemma_neighbor_done_here(b: Board, r1: Seq<bool>, r2: Seq<bool>, cx: int, cy: int, j: int)
    requires
        sized(b),
        r1.len() == b.cells(),
        r2.len() == b.cells(),
        forall|i: int| 0 <= i < r1.len() && b.revealed[i] ==> r1[i],
        forall|i: int| 0 <= i < r1.len() && r1[i] ==> r2[i],
        ({
            let n = neighbor(cx, cy, j);
            b.has(n.0, n.1) ==> b.marks[b.at(n.0, n.1)] == Mark::Flag || r2[b.at(n.0, n.1)]
        }),
    ensures
        neighbor_done(b, r2, cx, cy, j),
{
}

/// A cell from which the flood goes on stays one when more is revealed.
proof fn lemma_spreading_stays(b: Board, r1: Seq<bool>, r2: Seq<bool>, cx: int, cy: int)
    requires
        sized(b),
        r1.len() == b.cells(),
        r2.len() == b.cells(),
        forall|i: int| 0 <= i < r1.len() && r1[i] ==> r2[i],
        spreading(b, r1, cx, cy),
    ensures
        spreading(b, r2, cx, cy),
{
    lemma_cell_index_bounds(b.w, b.h, cx, cy);
}

/// A flood path that ends at a cell from which the flood goes on extends to any
/// floodable cell that touches it.
proof fn lemma_flood_extends(
    b: Board,
    path: Seq<(int, int)>,
    from: (int, int),
    mid: (int, int),
    to: (int, int),
)
    requires
        b.flood_path(path, from, mid),
        b.spreads(mid.0, mid.1),
        touching(mid.0, mid.1, to.0, to.1),
        b.floodable(to.0, to.1),
    ensures
        b.flood_path(path.push(to), from, to),
{
    let longer = path.push(to);
    assert forall|i: int| 0 <= i < longer.len() implies b.floodable((#[trigger] longer[i]).0, longer[i].1) by {
        if i < path.len() {
            assert(longer[i] == path[i]);
        }
    }
    assert forall|i: int| 0 <= i < longer.len() - 1 implies #[trigger] b.flood_step(longer, i) by {
        if i < path.len() - 1 {
            assert(b.flood_step(path, i));
            assert(longer[i] == path[i] && longer[i + 1] == path[i + 1]);
        } else {
            assert(longer[i] == mid && longer[i + 1] == to);
        }
    }
}

/// Once no cell waits, every cell on a flood path from a revealed start is revealed.
proof fn lemma_flood_complete(
    b: Board,
    r: Seq<bool>,
    path: Seq<(int, int)>,
    from: (int, int),
    to: (int, int),
    j: int,
)
    requires
        b.flood_path(path, from, to),
        r[b.at(from.0, from.1)],
        forall|cx: int, cy: int| #[trigger] settled(b, r, Seq::<(usize, usize)>::empty(), cx, cy),
        0 <= j < path.len(),
    ensures
        r[b.at(path[j].0, path[j].1)],
    decreases j,
{
    if j > 0 {
        lemma_flood_complete(b, r, path, from, to, j - 1);
        let c = path[j - 1];
        let d = path[j];
        assert(b.floodable(c.0, c.1));
        assert(b.floodable(d.0, d.1));
        assert(b.flood_step(path, j - 1));
        assert(settled(b, r, Seq::<(usize, usize)>::empty(), c.0, c.1));
        assert(spreading(b, r, c.0, c.1));
        assert(!waiting(Seq::<(usize, usize)>::empty(), c.0, c.1));
        let k = lemma_touching_is_neighbor(c.0, c.1, d.0, d.1);
        assert(neighbor_done(b, r, c.0, c.1, k));
    }
}

/// Opens the safe cell `(x, y)` and all that the flood from it reaches.
pub(crate) fn flood(
    cells: &Vec<Cell>,
    marks: &Vec<Mark>,
    revealed: &mut Vec<bool>,
    w: usize,
    h: usize,
    x: usize,
    y: usize,
    Ghost(b): Ghost<Board>,
)
    requires
        sized(b),
        b.w == w,
        b.h == h,
        w * h <= usize::MAX,
        cells.len() == w * h,
        b.marks == marks@,
        b.revealed == old(revealed)@,
        forall|i: int|
            0 <= i < cells.len() ==> (#[trigger] cells[i]).mine == b.mines[i] && cells[i].adj
                == count_around(b.mines, b.w, b.h, i % b.w, i / b.w, 8),
        b.floodable(x as int, y as int),
        !b.mine_at(x as int, y as int),
    ensures
        final(revealed)@ == b.flooded(x as int, y as int).revealed,
{
    let ghost from = (x as int, y as int);
    let start = flat(w, h, x, y);
    proof {
        lemma_count_true_update(revealed@, start as int, true);
        lemma_count_true_bound(revealed@);
        lemma_cell_to_index(w as int, h as int, x as int, y as int);
        let single = seq![from];
        assert(b.flood_path(single, from, from));
    }
    revealed.set(start, true);
    let mut work: Vec<(usize, usize)> = Vec::new();
    if cells[start].adj == 0 {
        work.push((x, y));
        assert(work@[0] == (x, y));
    }
    proof {
        assert forall|cx: int, cy: int| #[trigger] settled(b, revealed@, work@, cx, cy) by {
            if spreading(b, revealed@, cx, cy) {
                lemma_cell_index_bounds(w as int, h as int, cx, cy);
                assert(b.at(cx, cy) == start);
                lemma_cell_index_unique(w as int, cx, cy, x as int, y as int);
                lemma_cell_to_index(w as int, h as int, cx, cy);
                assert(work@[0].0 == cx && work@[0].1 == cy);
            }
        }
        assert(sound(b, revealed@, from)) by {
            assert forall|i: int|
                0 <= i < revealed@.len() && #[trigger] revealed@[i] && !b.revealed[i] implies b.flood_reaches(
                from,
                (i % b.w, i / b.w),
            ) by {
                assert(i == start);
            }
        }
    }
    while work.len() > 0
        invariant
            sized(b),
            b.w == w,
            b.h == h,
            w * h <= usize::MAX,
            x < w,
            y < h,
            from == (x as int, y as int),
            cells.len() == w * h,
            b.marks == marks@,
            forall|i: int|
                0 <= i < cells.len() ==> (#[trigger] cells[i]).mine == b.mines[i] && cells[i].adj
                    == count_around(b.mines, b.w, b.h, i % b.w, i / b.w, 8),
            revealed@.len() == w * h,
            revealed@[b.at(from.0, from.1)],
            forall|i: int| 0 <= i < revealed@.len() && b.revealed[i] ==> #[trigger] revealed@[i],
            sound(b, revealed@, from),
            forall|j: int|
                0 <= j < work.len() ==> spreading(
                    b,
                    revealed@,
                    (#[trigger] work[j]).0 as int,
                    work[j].1 as int,
                ),
            forall|cx: int, cy: int| #[trigger] settled(b, revealed@, work@, cx, cy),
        decreases 2 * covered(revealed@) + work.len(),
    {
        let ghost measure = 2 * covered(revealed@) + work.len();
        let ghost work_before = work@;
        let (cx, cy) = work.pop().unwrap();
        let mut k: usize = 0;
        proof {
            lemma_count_true_bound(revealed@);
            assert(work_before[work_before.len() - 1] == (cx, cy));
            assert(spreading(b, revealed@, cx as int, cy as int));
            assert forall|ox: int, oy: int| (ox != cx || oy != cy) implies #[trigger] settled(
                b,
                revealed@,
                work@,
                ox,
                oy,
            ) by {
                assert(settled(b, revealed@, work_before, ox, oy));
                if waiting(work_before, ox, oy) {
                    let j = choose|j: int|
                        0 <= j < work_before.len() && (#[trigger] work_before[j]).0 == ox
                            && work_before[j].1 == oy;
                    assert(work@[j] == work_before[j]);
                }
            }
        }
        while k < 8
            invariant
                k <= 8,
                sized(b),
                b.w == w,
                b.h == h,
                w * h <= usize::MAX,
                x < w,
                y < h,
                cx < w,
                cy < h,
                from == (x as int, y as int),
                cells.len() == w * h,
                b.marks == marks@,
                forall|i: int|
                    0 <= i < cells.len() ==> (#[trigger] cells[i]).mine == b.mines[i] && cells[i].adj
                        == count_around(b.mines, b.w, b.h, i % b.w, i / b.w, 8),
                revealed@.len() == w * h,
                revealed@[b.at(from.0, from.1)],
                forall|i: int| 0 <= i < revealed@.len() && b.revealed[i] ==> #[trigger] revealed@[i],
                sound(b, revealed@, from),
                spreading(b, revealed@, cx as int, cy as int),
                forall|j: int|
                    0 <= j < work.len() ==> spreading(
                        b,
                        revealed@,
                        (#[trigger] work[j]).0 as int,
                        work[j].1 as int,
                    ),
                forall|ox: int, oy: int|
                    (ox != cx || oy != cy) ==> #[trigger] settled(b, revealed@, work@, ox, oy),
                done_around(b, revealed@, cx as int, cy as int, k as int),
                2 * covered(revealed@) + work.len() <= measure - 1,
                0 <= covered(revealed@),
            decreases 8 - k,
        {
            let ghost r_before = revealed@;
            let ghost w_before = work@;
            let ghost mut opened: Option<(int, int)> = None;
            match neighbor_cell(w, h, cx, cy, k) {
                Some((nx, ny)) => {
                    let ni = flat(w, h, nx, ny);
                    if !revealed[ni] && !is_flag(marks[ni]) {
                        proof {
                            opened = Some((nx as int, ny as int));
                            lemma_count_true_update(revealed@, ni as int, true);
                            // The cell is reached: through the cell that is being expanded.
                            let ci = b.at(cx as int, cy as int);
                            lemma_cell_index_bounds(w as int, h as int, cx as int, cy as int);
                            lemma_cell_to_index(w as int, h as int, cx as int, cy as int);
                            lemma_cell_to_index(w as int, h as int, nx as int, ny as int);
                            assert(revealed@[ci] && !b.revealed[ci]);
                            assert(b.flood_reaches(from, (cx as int, cy as int)));
                            let path = choose|path: Seq<(int, int)>| #[trigger]
                                b.flood_path(path, from, (cx as int, cy as int));
                            lemma_neighbor_touches(cx as int, cy as int, k as int);
                            lemma_flood_extends(
                                b,
                                path,
                                from,
                                (cx as int, cy as int),
                                (nx as int, ny as int),
                            );
                            assert(b.flood_reaches(from, (nx as int, ny as int)));
                            // It holds no mine: it lies beside a cell with no mine around it.
                            lemma_count_around_zero(b.mines, b.w, b.h, cx as int, cy as int, 8, k as int);
                        }
                        revealed.set(ni, true);
                        if cells[ni].adj == 0 {
                            work.push((nx, ny));
                            assert(spreading(b, revealed@, nx as int, ny as int));
                            assert(work@[work@.len() - 1] == (nx, ny));
                        }
                    }
                },
                None => {},
            }
            proof {
                lemma_count_true_bound(revealed@);
                lemma_cell_index_bounds(w as int, h as int, x as int, y as int);
                // What was revealed stays revealed.
                assert forall|i: int| 0 <= i < r_before.len() && r_before[i] implies revealed@[i] by {}
                assert(sound(b, revealed@, from)) by {
                    assert forall|i: int|
                        0 <= i < revealed@.len() && #[trigger] revealed@[i] && !b.revealed[i] implies b.flood_reaches(
                        from,
                        (i % b.w, i / b.w),
                    ) by {
                        if !r_before[i] {
                            assert(opened == Some((i % b.w, i / b.w)));
                        }
                    }
                }
                assert forall|j: int| 0 <= j < work.len() implies spreading(
                    b,
                    revealed@,
                    (#[trigger] work[j]).0 as int,
                    work[j].1 as int,
                ) by {
                    if j < w_before.len() {
                        assert(work[j] == w_before[j]);
                        lemma_spreading_stays(
                            b,
                            r_before,
                            revealed@,
                            w_before[j].0 as int,
                            w_before[j].1 as int,
                        );
                    }
                }
                assert(done_around(b, revealed@, cx as int, cy as int, k + 1)) by {
                    assert forall|j: int| 0 <= j < k + 1 implies #[trigger] neighbor_done(
                        b,
                        revealed@,
                        cx as int,
                        cy as int,
                        j,
                    ) by {
                        if j < k {
                            lemma_done_stays(b, r_before, revealed@, cx as int, cy as int, j);
                        } else {
                            lemma_neighbor_done_here(b, r_before, revealed@, cx as int, cy as int, j);
                        }
                    }
                }
                assert forall|ox: int, oy: int| (ox != cx || oy != cy) implies #[trigger] settled(
                    b,
                    revealed@,
                    work@,
                    ox,
                    oy,
                ) by {
                    assert(settled(b, r_before, w_before, ox, oy));
                    if spreading(b, revealed@, ox, oy) {
                        if spreading(b, r_before, ox, oy) {
                            if waiting(w_before, ox, oy) {
                                let j = choose|j: int|
                                    0 <= j < w_before.len() && (#[trigger] w_before[j]).0 == ox
                                        && w_before[j].1 == oy;
                                assert(work@[j] == w_before[j]);
                            } else {
                                assert(done_around(b, r_before, ox, oy, 8));
                                assert forall|j: int| 0 <= j < 8 implies #[trigger] neighbor_done(
                                    b,
                                    revealed@,
                                    ox,
                                    oy,
                                    j,
                                ) by {
                                    lemma_done_stays(b, r_before, revealed@, ox, oy, j);
                                }
                            }
                        } else {
                            // Newly opened, and the flood goes on from it: it was put on the list.
                            lemma_cell_index_bounds(w as int, h as int, ox, oy);
                            lemma_cell_to_index(w as int, h as int, ox, oy);
                            assert(opened == Some((ox, oy)));
                            assert(work@[work@.len() - 1].0 == ox && work@[work@.len() - 1].1 == oy);
                        }
                    }
                }
            }
            k = k + 1;
        }
        proof {
            assert forall|ox: int, oy: int| #[trigger] settled(b, revealed@, work@, ox, oy) by {
                if ox == cx && oy == cy {
                    assert(done_around(b, revealed@, cx as int, cy as int, 8));
                }
            }
        }
    }
    proof {
        let r = revealed@;
        let target = b.flooded(x as int, y as int).revealed;
        assert(work@ =~= Seq::<(usize, usize)>::empty());
        assert forall|i: int| 0 <= i < r.len() implies r[i] == target[i] by {
            let to = (i % b.w, i / b.w);
            lemma_index_to_cell(b.w, b.h, i);
            if b.flood_reaches(from, to) {
                let path = choose|path: Seq<(int, int)>| #[trigger] b.flood_path(path, from, to);
                lemma_flood_complete(b, r, path, from, to, path.len() - 1);
            }
        }
        assert(r =~= target);
    }
}

/// Whether a mark is a flag.
pub(crate) fn is_flag(m: Mark) -> (flag: bool)
    ensures
        flag == (m == Mark::Flag),
{
    match m {
        Mark::Flag => true,
        _ => false,
    }
}

} // verus!
