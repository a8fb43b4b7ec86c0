//! What holds of every board: the moves keep a board valid, and the laws of play.

use vstd::prelude::*;
use crate::board::{count_flags, next_mark, Board, ChordResult, Mark, Outcome};
use crate::grid::{
    count_around, count_true, lemma_cell_index_bounds, lemma_cell_to_index, lemma_index_to_cell,
    neighbor, touching,
};

verus! {

/// Laying the mines on a fresh board gives a valid board.
pub proof fn lemma_start_keeps_wf(b: Board, layout: Seq<bool>)
    requires
        b.wf(),
        b.fresh(),
        layout.len() == b.cells(),
        b.start(layout).full(),
    ensures
        b.start(layout).wf(),
{
    let s = b.start(layout);
    assert forall|i: int|
        0 <= i < s.cells() && #[trigger] s.revealed[i] && s.marks[i] == Mark::Flag implies s.mines[i] by {
        assert(!b.revealed[i]);
    }
}

/// A cell that a flood reaches was covered and carried no flag.
pub proof fn lemma_flood_reaches_floodable(b: Board, from: (int, int), to: (int, int))
    requires
        b.flood_reaches(from, to),
    ensures
        b.floodable(to.0, to.1),
        b.floodable(from.0, from.1),
{
    let path = choose|path: Seq<(int, int)>| #[trigger] b.flood_path(path, from, to);
    assert(b.floodable(path[path.len() - 1].0, path[path.len() - 1].1));
    assert(b.floodable(path[0].0, path[0].1));
}

/// A reveal on a board whose mines are laid gives a valid board.
pub proof fn lemma_reveal_keeps_wf(b: Board, x: int, y: int)
    requires
        b.wf(),
        b.has(x, y),
        !b.fresh(),
    ensures
        b.reveal_cell(x, y).wf(),
        !b.reveal_cell(x, y).fresh(),
{
    lemma_cell_index_bounds(b.w, b.h, x, y);
    if !b.blocked(x, y) {
        if b.mines[b.at(x, y)] {
        } else {
            let opened = b.flooded(x, y);
            assert forall|i: int|
                0 <= i < opened.cells() && #[trigger] opened.revealed[i] && opened.marks[i]
                    == Mark::Flag implies opened.mines[i] by {
                if !b.revealed[i] {
                    lemma_index_to_cell(b.w, b.h, i);
                    lemma_flood_reaches_floodable(b, (x, y), (i % b.w, i / b.w));
                }
            }
            assert(opened.wf());
            if opened.cleared() {
                let won = opened.win();
                assert forall|i: int| 0 <= i < won.cells() implies if #[trigger] won.mines[i] {
                    won.marks[i] == Mark::Flag
                } else {
                    won.revealed[i]
                } by {
                    assert(opened.mines[i] || opened.revealed[i]);
                }
            }
        }
    }
}

/// Cycling a mark gives a valid board.
pub proof fn lemma_toggle_keeps_wf(b: Board, x: int, y: int, use_question_marks: bool)
    requires
        b.wf(),
        b.has(x, y),
    ensures
        b.toggle_flag(x, y, use_question_marks).wf(),
{
    lemma_cell_index_bounds(b.w, b.h, x, y);
}

/// Revealing every mine gives a valid board.
pub proof fn lemma_reveal_all_keeps_wf(b: Board)
    requires
        b.wf(),
    ensures
        b.reveal_all_mines().wf(),
        !b.fresh() ==> b.reveal_all_mines().lose().wf(),
{
    let r = b.reveal_all_mines();
    if b.fresh() {
        assert forall|i: int| 0 <= i < r.cells() implies !#[trigger] r.revealed[i] by {
            assert(!b.mines[i] && !b.revealed[i]);
        }
    }
    assert forall|i: int|
        0 <= i < r.cells() && #[trigger] r.revealed[i] && r.marks[i] == Mark::Flag implies r.mines[i] by {
        if b.revealed[i] {
        }
    }
    if b.outcome == Outcome::Won {
        assert forall|i: int| 0 <= i < r.cells() implies if #[trigger] r.mines[i] {
            r.marks[i] == Mark::Flag
        } else {
            r.revealed[i]
        } by {
            if b.mines[i] {
            } else {
                assert(b.revealed[i]);
            }
        }
    }
}

/// Moving the cursor gives a valid board.
pub proof fn lemma_step_cursor_keeps_wf(b: Board, dx: int, dy: int)
    requires
        b.wf(),
        b.w > 0,
        b.h > 0,
    ensures
        b.step_cursor(dx, dy).wf(),
{
}

/// Changing one mark changes the count of flags by that mark alone.
pub proof fn lemma_count_flags_update(marks: Seq<Mark>, i: int, m: Mark)
    requires
        0 <= i < marks.len(),
    ensures
        count_flags(marks.update(i, m)) == count_flags(marks) - (if marks[i] == Mark::Flag {
            1int
        } else {
            0
        }) + (if m == Mark::Flag {
            1int
        } else {
            0
        }),
    decreases marks.len(),
{
    let t = marks.update(i, m);
    if i == marks.len() - 1 {
        assert(t.drop_last() =~= marks.drop_last());
    } else {
        assert(t.drop_last() =~= marks.drop_last().update(i, m));
        lemma_count_flags_update(marks.drop_last(), i, m);
    }
}

/// Setting a flag lowers the number shown to the player by one.
pub proof fn lemma_flag_lowers_counter(b: Board, x: int, y: int, use_question_marks: bool)
    requires
        b.wf(),
        b.has(x, y),
        !b.revealed[b.at(x, y)],
        b.outcome != Outcome::Won,
        next_mark(b.marks[b.at(x, y)], use_question_marks) == Mark::Flag,
    ensures
        b.toggle_flag(x, y, use_question_marks).remaining_mines() == b.remaining_mines() - 1,
{
    lemma_cell_index_bounds(b.w, b.h, x, y);
    lemma_count_flags_update(b.marks, b.at(x, y), Mark::Flag);
}

/// Setting a flag and taking it off again brings the number shown to the player
/// back to what it was.
pub proof fn lemma_flag_round_trip(b: Board, x: int, y: int, use_question_marks: bool)
    requires
        b.wf(),
        b.has(x, y),
        !b.revealed[b.at(x, y)],
        b.outcome != Outcome::Won,
        next_mark(b.marks[b.at(x, y)], use_question_marks) == Mark::Flag,
    ensures
        b.toggle_flag(x, y, use_question_marks).toggle_flag(
            x,
            y,
            use_question_marks,
        ).remaining_mines() == b.remaining_mines(),
{
    lemma_cell_index_bounds(b.w, b.h, x, y);
    let once = b.toggle_flag(x, y, use_question_marks);
    lemma_count_flags_update(b.marks, b.at(x, y), Mark::Flag);
    lemma_count_flags_update(once.marks, b.at(x, y), next_mark(Mark::Flag, use_question_marks));
}

/// Once the mines are laid they are as many as were asked for, or as many as the
/// board takes: on a board with room for them, exactly as many as were asked for.
pub proof fn lemma_mines_are_counted(b: Board)
    requires
        b.wf(),
        !b.fresh(),
    ensures
        b.full(),
        b.mine_target <= b.cells() - 1 ==> count_true(b.mines) == b.mine_target,
        count_true(b.mines) <= b.mine_target,
{
}

/// A floodable cell is reached by the flood that starts at it.
pub proof fn lemma_flood_reaches_start(b: Board, x: int, y: int)
    requires
        b.floodable(x, y),
    ensures
        b.flood_reaches((x, y), (x, y)),
{
    let single = seq![(x, y)];
    assert(b.flood_path(single, (x, y), (x, y)));
}

/// What one reveal does and leaves alone, on a board whose mines are laid: the size,
/// the mines and the cursor stay, nothing revealed gets covered, no flag goes, and
/// the marks change only when the game is won. A blocked reveal changes nothing; a
/// mine loses the game; a safe cell is revealed and never loses it.
pub proof fn lemma_reveal_step(b: Board, x: int, y: int)
    requires
        b.wf(),
        b.has(x, y),
        !b.fresh(),
    ensures
        ({
            let a = b.reveal_cell(x, y);
            &&& a.w == b.w && a.h == b.h && a.mine_target == b.mine_target
            &&& a.mines == b.mines
            &&& a.cursor == b.cursor
            &&& a.revealed.len() == b.revealed.len()
            &&& a.marks.len() == b.marks.len()
            &&& forall|i: int| 0 <= i < b.cells() && b.revealed[i] ==> #[trigger] a.revealed[i]
            &&& forall|i: int|
                0 <= i < b.cells() && b.marks[i] == Mark::Flag ==> #[trigger] a.marks[i] == Mark::Flag
            &&& (a.outcome == Outcome::Ongoing ==> a.marks == b.marks && b.outcome
                == Outcome::Ongoing)
            &&& (b.blocked(x, y) ==> a == b)
            &&& (!b.blocked(x, y) ==> a.revealed[b.at(x, y)])
            &&& (!b.blocked(x, y) && b.mines[b.at(x, y)] ==> a.outcome == Outcome::Lost)
            &&& (!b.blocked(x, y) && !b.mines[b.at(x, y)] ==> a.outcome != Outcome::Lost)
        }),
{
    lemma_cell_index_bounds(b.w, b.h, x, y);
    lemma_cell_to_index(b.w, b.h, x, y);
    if !b.blocked(x, y) && !b.mines[b.at(x, y)] {
        lemma_flood_reaches_start(b, x, y);
    }
}

/// The first reveal on a board: the mines are those that were laid, as many as were
/// asked for or as fit beside the revealed cell, none of them on it, and the game
/// is not lost by it.
pub proof fn lemma_first_reveal_is_safe(b: Board, layout: Seq<bool>, x: int, y: int)
    requires
        b.wf(),
        b.fresh(),
        b.has(x, y),
        b.marks[b.at(x, y)] != Mark::Flag,
        b.lays(layout, Some((x, y))),
    ensures
        ({
            let a = b.start(layout).reveal_cell(x, y);
            &&& a.wf()
            &&& a.mines == layout
            &&& count_true(a.mines) == if b.mine_target <= b.cells() - 1 {
                b.mine_target
            } else {
                b.cells() - 1
            }
            &&& !a.mines[a.at(x, y)]
            &&& a.revealed[a.at(x, y)]
            &&& a.outcome != Outcome::Lost
        }),
{
    lemma_cell_index_bounds(b.w, b.h, x, y);
    lemma_start_keeps_wf(b, layout);
    let s = b.start(layout);
    assert(!s.revealed[s.at(x, y)]);
    lemma_reveal_keeps_wf(s, x, y);
    lemma_reveal_step(s, x, y);
}

/// A reveal opens exactly what was open before and what the flood from the cell
/// reaches, where the cell is safe and the reveal is not blocked.
pub proof fn lemma_reveal_opens_the_flood(b: Board, x: int, y: int, i: int)
    requires
        b.wf(),
        b.has(x, y),
        !b.fresh(),
        !b.blocked(x, y),
        !b.mines[b.at(x, y)],
        0 <= i < b.cells(),
    ensures
        b.reveal_cell(x, y).revealed[i] == (b.revealed[i] || b.flood_reaches(
            (x, y),
            (i % b.w, i / b.w),
        )),
{
}

/// The flood is closed: around an opened cell with no mine beside it, every covered
/// cell without a flag is opened too.
pub proof fn lemma_flood_is_closed(b: Board, x: int, y: int, cx: int, cy: int, k: int)
    requires
        b.wf(),
        b.has(x, y),
        !b.fresh(),
        !b.blocked(x, y),
        !b.mines[b.at(x, y)],
        b.flood_reaches((x, y), (cx, cy)),
        b.spreads(cx, cy),
        0 <= k < 8,
        b.floodable(neighbor(cx, cy, k).0, neighbor(cx, cy, k).1),
    ensures
        b.reveal_cell(x, y).revealed[b.at(neighbor(cx, cy, k).0, neighbor(cx, cy, k).1)],
{
    let n = neighbor(cx, cy, k);
    let path = choose|path: Seq<(int, int)>| #[trigger] b.flood_path(path, (x, y), (cx, cy));
    let longer = path.push(n);
    assert forall|i: int| 0 <= i < longer.len() implies b.floodable((#[trigger] longer[i]).0, longer[i].1) by {
        if i < path.len() {
            assert(longer[i] == path[i]);
        }
    }
    assert forall|i: int| 0 <= i < longer.len() - 1 implies #[trigger] b.flood_step(longer, i) by {
        if i < path.len() - 1 {
            assert(b.flood_step(path, i));
            assert(longer[i] == path[i] && longer[i + 1] == path[i + 1]);
        } else {
            assert(longer[i] == (cx, cy) && longer[i + 1] == n);
        }
    }
    assert(b.flood_path(longer, (x, y), n));
    lemma_cell_index_bounds(b.w, b.h, n.0, n.1);
    lemma_cell_to_index(b.w, b.h, n.0, n.1);
}

/// The flood stops at its border: every cell it opens, but the one it starts from,
/// touches an opened cell with no mine beside it.
pub proof fn lemma_flood_border(b: Board, x: int, y: int, tx: int, ty: int) -> (c: (int, int))
    requires
        b.flood_reaches((x, y), (tx, ty)),
        tx != x || ty != y,
    ensures
        b.flood_reaches((x, y), c),
        b.spreads(c.0, c.1),
        touching(c.0, c.1, tx, ty),
{
    let path = choose|path: Seq<(int, int)>| #[trigger] b.flood_path(path, (x, y), (tx, ty));
    let last = path.len() - 1;
    assert(path.len() >= 2);
    let c = path[last - 1];
    let shorter = path.take(last);
    assert(b.flood_step(path, last - 1));
    assert forall|i: int| 0 <= i < shorter.len() implies b.floodable((#[trigger] shorter[i]).0, shorter[i].1) by {
        assert(shorter[i] == path[i]);
    }
    assert forall|i: int| 0 <= i < shorter.len() - 1 implies #[trigger] b.flood_step(shorter, i) by {
        assert(b.flood_step(path, i));
        assert(shorter[i] == path[i] && shorter[i + 1] == path[i + 1]);
    }
    assert(b.flood_path(shorter, (x, y), c));
    c
}

/// A reveal made twice is a reveal made once.
pub proof fn lemma_reveal_idempotent(b: Board, x: int, y: int)
    requires
        b.wf(),
        b.has(x, y),
        !b.fresh(),
    ensures
        b.reveal_cell(x, y).reveal_cell(x, y) == b.reveal_cell(x, y),
{
    lemma_reveal_step(b, x, y);
}

/// Once the game is over, a reveal changes nothing, whatever the cell.
pub proof fn lemma_reveal_after_the_end(b: Board, x: int, y: int)
    requires
        b.outcome != Outcome::Ongoing,
    ensures
        b.reveal_cell(x, y) == b,
{
}

/// A reveal that wins the game leaves a flag on every mine and no safe cell covered.
pub proof fn lemma_win_flags_every_mine(b: Board, x: int, y: int, i: int)
    requires
        b.wf(),
        b.has(x, y),
        !b.fresh(),
        b.reveal_cell(x, y).outcome == Outcome::Won,
        0 <= i < b.cells(),
    ensures
        b.reveal_cell(x, y).mines[i] ==> b.reveal_cell(x, y).marks[i] == Mark::Flag,
        !b.reveal_cell(x, y).mines[i] ==> b.reveal_cell(x, y).revealed[i],
{
    lemma_reveal_keeps_wf(b, x, y);
    lemma_reveal_step(b, x, y);
    let a = b.reveal_cell(x, y);
    assert(a.mines[i] || !a.mines[i]);
}

/// On a board that is won the flags lie exactly on the mines.
proof fn lemma_won_flags_match(b: Board, x: int, y: int, k: int)
    requires
        b.wf(),
        b.outcome == Outcome::Won,
        0 <= k,
    ensures
        b.flags_around(x, y, k) == count_around(b.mines, b.w, b.h, x, y, k),
        !b.misflag_around(x, y, k),
    decreases k,
{
    if k > 0 {
        lemma_won_flags_match(b, x, y, k - 1);
        let n = neighbor(x, y, k - 1);
        if b.has(n.0, n.1) {
            lemma_cell_index_bounds(b.w, b.h, n.0, n.1);
            let i = b.at(n.0, n.1);
            assert(b.mines[i] || !b.mines[i]);
            assert(b.revealed[i] || !b.revealed[i]);
        }
    }
}

/// Once the game is over, the reveals of a chord change nothing.
proof fn lemma_open_around_after_the_end(b: Board, x: int, y: int, k: int)
    requires
        b.outcome != Outcome::Ongoing,
        0 <= k,
    ensures
        b.open_around(x, y, k) == b,
    decreases k,
{
    if k > 0 {
        lemma_open_around_after_the_end(b, x, y, k - 1);
    }
}

/// A won game is over for good: no reveal, no mark and no chord changes the board.
pub proof fn lemma_won_is_terminal(b: Board, x: int, y: int, use_question_marks: bool)
    requires
        b.wf(),
        b.outcome == Outcome::Won,
    ensures
        b.reveal_cell(x, y) == b,
        b.toggle_flag(x, y, use_question_marks) == b,
        b.chord(x, y) == b,
{
    lemma_won_flags_match(b, x, y, 8);
    lemma_open_around_after_the_end(b, x, y, 8);
}

/// Where no flag around a cell is wrong, there are no more flags than mines around it.
proof fn lemma_flags_within_mines(b: Board, x: int, y: int, k: int)
    requires
        0 <= k,
        !b.misflag_around(x, y, k),
    ensures
        b.flags_around(x, y, k) <= count_around(b.mines, b.w, b.h, x, y, k),
    decreases k,
{
    if k > 0 {
        lemma_flags_within_mines(b, x, y, k - 1);
    }
}

/// The `j`-th neighbour of `(x, y)` carries a flag if it holds a mine.
pub open spec fn mine_is_flagged(b: Board, x: int, y: int, j: int) -> bool {
    let n = neighbor(x, y, j);
    b.mine_at(n.0, n.1) ==> b.flag_at(n.0, n.1)
}

/// Where no flag around a cell is wrong and the flags are as many as the mines,
/// every mine around it carries a flag.
proof fn lemma_flags_cover_mines(b: Board, x: int, y: int, k: int, j: int)
    requires
        0 <= j < k,
        !b.misflag_around(x, y, k),
        b.flags_around(x, y, k) == count_around(b.mines, b.w, b.h, x, y, k),
    ensures
        mine_is_flagged(b, x, y, j),
    decreases k,
{
    lemma_flags_within_mines(b, x, y, k - 1);
    if j < k - 1 {
        lemma_flags_cover_mines(b, x, y, k - 1, j);
    }
}

/// The `j`-th neighbour of `(x, y)` is revealed on `a` if it is a cell that
/// carried no flag on `b`.
pub open spec fn neighbor_opened(b: Board, a: Board, x: int, y: int, j: int) -> bool {
    let n = neighbor(x, y, j);
    b.has(n.0, n.1) && b.marks[b.at(n.0, n.1)] != Mark::Flag ==> a.revealed[b.at(n.0, n.1)]
}

/// What the reveals of a chord come to, where every mine around the cell carries a
/// flag: the game is not lost, and each neighbour without a flag ends up revealed.
proof fn lemma_open_around_opens(b: Board, x: int, y: int, k: int)
    requires
        b.wf(),
        !b.fresh(),
        b.outcome == Outcome::Ongoing,
        0 <= k <= 8,
        forall|j: int| 0 <= j < 8 ==> #[trigger] mine_is_flagged(b, x, y, j),
    ensures
        ({
            let a = b.open_around(x, y, k);
            &&& a.wf()
            &&& !a.fresh()
            &&& a.w == b.w && a.h == b.h && a.mines == b.mines
            &&& a.outcome != Outcome::Lost
            &&& (a.outcome == Outcome::Ongoing ==> a.marks == b.marks)
            &&& forall|i: int| 0 <= i < b.cells() && b.revealed[i] ==> #[trigger] a.revealed[i]
            &&& forall|j: int| 0 <= j < k ==> #[trigger] neighbor_opened(b, a, x, y, j)
        }),
    decreases k,
{
    if k > 0 {
        lemma_open_around_opens(b, x, y, k - 1);
        let p = b.open_around(x, y, k - 1);
        let a = b.open_around(x, y, k);
        let n = neighbor(x, y, k - 1);
        if b.has(n.0, n.1) {
            lemma_cell_index_bounds(b.w, b.h, n.0, n.1);
            lemma_reveal_keeps_wf(p, n.0, n.1);
            lemma_reveal_step(p, n.0, n.1);
            let i = b.at(n.0, n.1);
            assert(mine_is_flagged(b, x, y, k - 1));
            if b.marks[i] != Mark::Flag {
                assert(!b.mines[i]);
                if p.outcome == Outcome::Won {
                    assert(p.mines[i] || !p.mines[i]);
                    assert(p.revealed[i]);
                }
                assert(a.revealed[i]);
            }
        }
        assert forall|j: int| 0 <= j < k implies #[trigger] neighbor_opened(b, a, x, y, j) by {
            if j < k - 1 {
                assert(neighbor_opened(b, p, x, y, j));
                let m = neighbor(x, y, j);
                if b.has(m.0, m.1) {
                    lemma_cell_index_bounds(b.w, b.h, m.0, m.1);
                }
            }
        }
    }
}

/// The chord opens the cells around a revealed number exactly where the flags
/// around it are as many as the number and none of them is wrong. Any other count
/// of flags makes the cell flash and leaves the board as it is; a wrong flag among
/// the right count loses the game.
pub proof fn lemma_chord_cases(b: Board, x: int, y: int)
    requires
        b.wf(),
        b.has(x, y),
        b.revealed[b.at(x, y)],
    ensures
        b.chord_result(x, y) == ChordResult::Opened <==> b.flags_around(x, y, 8) == b.adjacency(
            x,
            y,
        ) && !b.misflag_around(x, y, 8),
        b.flags_around(x, y, 8) != b.adjacency(x, y) ==> b.chord_result(x, y) == ChordResult::Flash
            && b.chord(x, y) == b,
        b.flags_around(x, y, 8) == b.adjacency(x, y) && b.misflag_around(x, y, 8) ==> b.chord_result(
            x,
            y,
        ) == ChordResult::Misflag && b.chord(x, y).outcome == Outcome::Lost,
{
}

/// A chord that opens, on a game that goes on, leaves every neighbour of the cell
/// revealed that carried no flag, and does not lose the game.
pub proof fn lemma_chord_opens_neighbors(b: Board, x: int, y: int, j: int)
    requires
        b.wf(),
        b.has(x, y),
        b.outcome == Outcome::Ongoing,
        b.chord_result(x, y) == ChordResult::Opened,
        0 <= j < 8,
    ensures
        b.chord(x, y).wf(),
        b.chord(x, y).outcome != Outcome::Lost,
        neighbor_opened(b, b.chord(x, y), x, y, j),
{
    lemma_cell_index_bounds(b.w, b.h, x, y);
    assert(!b.fresh()) by {
        if b.fresh() {
            assert(!b.revealed[b.at(x, y)]);
        }
    }
    assert forall|i: int| 0 <= i < 8 implies #[trigger] mine_is_flagged(b, x, y, i) by {
        lemma_flags_cover_mines(b, x, y, 8, i);
    }
    lemma_open_around_opens(b, x, y, 8);
    assert(neighbor_opened(b, b.open_around(x, y, 8), x, y, j));
}

/// A chord gives a valid board.
pub proof fn lemma_chord_keeps_wf(b: Board, x: int, y: int)
    requires
        b.wf(),
        b.has(x, y),
    ensures
        b.chord(x, y).wf(),
{
    lemma_cell_index_bounds(b.w, b.h, x, y);
    lemma_reveal_all_keeps_wf(b);
    if b.chord_result(x, y) == ChordResult::Opened {
        assert(!b.fresh()) by {
            if b.fresh() {
                assert(!b.revealed[b.at(x, y)]);
            }
        }
        lemma_open_around_keeps_wf(b, x, y, 8);
    }
}

/// The reveals of a chord leave the size of the board as it is.
pub proof fn lemma_open_around_dims(b: Board, x: int, y: int, k: int)
    requires
        b.wf(),
        !b.fresh(),
        0 <= k,
    ensures
        b.open_around(x, y, k).w == b.w,
        b.open_around(x, y, k).h == b.h,
{
    lemma_open_around_keeps_wf(b, x, y, k);
}

/// The reveals of a chord give a valid board with the same mines.
proof fn lemma_open_around_keeps_wf(b: Board, x: int, y: int, k: int)
    requires
        b.wf(),
        !b.fresh(),
        0 <= k,
    ensures
        b.open_around(x, y, k).wf(),
        !b.open_around(x, y, k).fresh(),
        b.open_around(x, y, k).mines == b.mines,
        b.open_around(x, y, k).w == b.w,
        b.open_around(x, y, k).h == b.h,
        b.outcome != Outcome::Ongoing ==> b.open_around(x, y, k).outcome == b.outcome,
    decreases k,
{
    if k > 0 {
        lemma_open_around_keeps_wf(b, x, y, k - 1);
        let p = b.open_around(x, y, k - 1);
        let n = neighbor(x, y, k - 1);
        if p.has(n.0, n.1) {
            lemma_reveal_keeps_wf(p, n.0, n.1);
            lemma_reveal_step(p, n.0, n.1);
        }
    }
}

/// The outcome of a game changes once at most: a game that is won or lost stays
/// so, whatever move is made on its board.
pub proof fn lemma_outcome_is_final(
    b: Board,
    x: int,
    y: int,
    use_question_marks: bool,
    dx: int,
    dy: int,
)
    requires
        b.wf(),
        b.has(x, y),
        b.outcome != Outcome::Ongoing,
    ensures
        b.reveal_cell(x, y).outcome == b.outcome,
        b.toggle_flag(x, y, use_question_marks).outcome == b.outcome,
        b.chord(x, y).outcome == b.outcome,
        b.reveal_all_mines().outcome == b.outcome,
        b.step_cursor(dx, dy).outcome == b.outcome,
{
    lemma_open_around_after_the_end(b, x, y, 8);
    if b.outcome == Outcome::Won {
        lemma_won_is_terminal(b, x, y, use_question_marks);
    }
}

/// The mines stay where they were laid: no move on a board whose mines are laid
/// changes them.
pub proof fn lemma_mines_stay(b: Board, x: int, y: int, use_question_marks: bool, dx: int, dy: int)
    requires
        b.wf(),
        b.has(x, y),
        !b.fresh(),
    ensures
        b.reveal_cell(x, y).mines == b.mines,
        b.toggle_flag(x, y, use_question_marks).mines == b.mines,
        b.chord(x, y).mines == b.mines,
        b.reveal_all_mines().mines == b.mines,
        b.step_cursor(dx, dy).mines == b.mines,
{
    lemma_reveal_step(b, x, y);
    lemma_open_around_keeps_wf(b, x, y, 8);
}

} // verus!
