//! The board as a mathematical value, and what each move makes of it.
//!
//! The executable [`crate::game::Game`] is specified against this model: its view
//! is a [`Board`], and each of its methods is one of the functions below.

use vstd::prelude::*;
use crate::grid::{cell_index, count_around, count_true, in_grid, neighbor, set_at, touching};

verus! {

/// What the player has put on a covered cell.
#[derive(Clone, Copy, Debug, PartialEq, Eq, Structural)]
pub enum Mark {
    Clear,
    Flag,
    Question,
}

/// How the game on a board stands.
#[derive(Clone, Copy, Debug, PartialEq, Eq, Structural)]
pub enum Outcome {
    Ongoing,
    Won,
    Lost,
}

/// What a chord at a cell came to.
#[derive(Clone, Copy, Debug, PartialEq, Eq, Structural)]
pub enum ChordResult {
    /// The cell is not revealed: nothing happens.
    Ignored,
    /// The flags around the cell do not match its number: the board is unchanged
    /// and the cell is to flash.
    Flash,
    /// The flags match in number but one of them marks a safe cell: the game is lost.
    Misflag,
    /// The flags are right: every other covered neighbour was opened.
    Opened,
}

/// The mark that follows `m` when the player cycles it.
pub open spec fn next_mark(m: Mark, use_question_marks: bool) -> Mark {
    if use_question_marks {
        match m {
            Mark::Clear => Mark::Flag,
            Mark::Flag => Mark::Question,
            Mark::Question => Mark::Clear,
        }
    } else if m == Mark::Flag {
        Mark::Clear
    } else {
        Mark::Flag
    }
}

/// How many entries of `marks` are flags.
pub open spec fn count_flags(marks: Seq<Mark>) -> nat
    decreases marks.len(),
{
    if marks.len() == 0 {
        0
    } else {
        count_flags(marks.drop_last()) + if marks.last() == Mark::Flag { 1nat } else { 0nat }
    }
}

/// `lo` where `v` is below it, `hi` where `v` is above it, else `v`.
pub open spec fn clamp(v: int, lo: int, hi: int) -> int {
    if v < lo {
        lo
    } else if v > hi {
        hi
    } else {
        v
    }
}

/// A board: its size, where the mines lie, what is revealed and marked, the
/// cursor, and how the game stands. The three sequences are stored row by row.
pub struct Board {
    pub w: int,
    pub h: int,
    /// The number of mines asked for; fewer are laid where the board is too small.
    pub mine_target: int,
    pub mines: Seq<bool>,
    pub revealed: Seq<bool>,
    pub marks: Seq<Mark>,
    pub cursor: (int, int),
    /// Whether the clock is running: from the first reveal until the game ends.
    pub started: bool,
    pub outcome: Outcome,
}

impl Board {
    /// A board of `w` by `h` covered cells with no mark and no mine, on which `mines`
    /// mines are to be laid, with the cursor in the upper left corner.
    pub open spec fn blank(w: int, h: int, mines: int) -> Board {
        Board {
            w,
            h,
            mine_target: mines,
            mines: Seq::new((w * h) as nat, |i: int| false),
            revealed: Seq::new((w * h) as nat, |i: int| false),
            marks: Seq::new((w * h) as nat, |i: int| Mark::Clear),
            cursor: (0, 0),
            started: false,
            outcome: Outcome::Ongoing,
        }
    }

    /// The number of cells.
    pub open spec fn cells(self) -> int {
        self.w * self.h
    }

    /// Whether `(x, y)` is a cell of this board.
    pub open spec fn has(self, x: int, y: int) -> bool {
        in_grid(self.w, self.h, x, y)
    }

    /// The place of cell `(x, y)` in the three sequences.
    pub open spec fn at(self, x: int, y: int) -> int {
        cell_index(self.w, x, y)
    }

    /// No reveal has happened yet: no mine is laid and the clock has not run.
    pub open spec fn fresh(self) -> bool {
        !self.started && self.outcome == Outcome::Ongoing
    }

    /// The mines are as many as were asked for, or as many as the board takes: all
    /// its cells, or all but the one that the first reveal spared.
    pub open spec fn full(self) -> bool {
        let laid = count_true(self.mines);
        ||| laid == self.mine_target && self.mine_target <= self.cells()
        ||| laid == self.cells() && self.mine_target >= self.cells()
        ||| laid == self.cells() - 1 && self.mine_target >= self.cells() - 1 && self.cells() >= 1
    }

    /// The invariant of a board.
    pub open spec fn wf(self) -> bool {
        &&& 0 <= self.w && 0 <= self.h && 0 <= self.mine_target
        &&& self.mines.len() == self.cells()
        &&& self.revealed.len() == self.cells()
        &&& self.marks.len() == self.cells()
        &&& (self.w > 0 && self.h > 0 ==> self.has(self.cursor.0, self.cursor.1))
        &&& (self.started ==> self.outcome == Outcome::Ongoing)
        &&& (self.fresh() || self.full())
        &&& (self.fresh() ==> forall|i: int| 0 <= i < self.cells() ==> !#[trigger] self.mines[i])
        &&& (self.fresh() ==> forall|i: int| 0 <= i < self.cells() ==> !#[trigger] self.revealed[i])
        &&& (forall|i: int|
            0 <= i < self.cells() && #[trigger] self.revealed[i] && self.marks[i] == Mark::Flag
                ==> self.mines[i])
        &&& (self.outcome == Outcome::Won ==> forall|i: int|
            0 <= i < self.cells() ==> if #[trigger] self.mines[i] {
                self.marks[i] == Mark::Flag
            } else {
                self.revealed[i]
            })
    }

    /// Whether `(x, y)` is a cell with a mine.
    pub open spec fn mine_at(self, x: int, y: int) -> bool {
        set_at(self.mines, self.w, self.h, x, y)
    }

    /// Whether `(x, y)` is a cell that carries a flag.
    pub open spec fn flag_at(self, x: int, y: int) -> bool {
        self.has(x, y) && self.marks[self.at(x, y)] == Mark::Flag
    }

    /// The number of a cell: how many of its eight neighbours hold a mine.
    pub open spec fn adjacency(self, x: int, y: int) -> nat {
        count_around(self.mines, self.w, self.h, x, y, 8)
    }

    /// How many of the first `k` neighbours of `(x, y)` carry a flag.
    pub open spec fn flags_around(self, x: int, y: int, k: int) -> nat
        decreases k,
    {
        if k <= 0 {
            0
        } else {
            let n = neighbor(x, y, k - 1);
            self.flags_around(x, y, k - 1) + if self.flag_at(n.0, n.1) { 1nat } else { 0nat }
        }
    }

    /// Whether one of the first `k` neighbours of `(x, y)` carries a flag without
    /// holding a mine.
    pub open spec fn misflag_around(self, x: int, y: int, k: int) -> bool
        decreases k,
    {
        if k <= 0 {
            false
        } else {
            let n = neighbor(x, y, k - 1);
            self.misflag_around(x, y, k - 1) || (self.flag_at(n.0, n.1) && !self.mine_at(n.0, n.1))
        }
    }

    /// A reveal of `(x, y)` does nothing: the cell is revealed already or carries a
    /// flag, or the game is over.
    pub open spec fn blocked(self, x: int, y: int) -> bool {
        ||| self.revealed[self.at(x, y)]
        ||| self.marks[self.at(x, y)] == Mark::Flag
        ||| self.outcome != Outcome::Ongoing
    }

    /// A flood may open `(x, y)`: a covered cell without a flag.
    pub open spec fn floodable(self, x: int, y: int) -> bool {
        &&& self.has(x, y)
        &&& !self.revealed[self.at(x, y)]
        &&& self.marks[self.at(x, y)] != Mark::Flag
    }

    /// A flood goes on from `(x, y)`: a safe cell with no mine around it.
    pub open spec fn spreads(self, x: int, y: int) -> bool {
        &&& self.has(x, y)
        &&& !self.mines[self.at(x, y)]
        &&& self.adjacency(x, y) == 0
    }

    /// The `i`-th step of `path` leaves a cell from which a flood goes on, for a
    /// cell that touches it.
    pub open spec fn flood_step(self, path: Seq<(int, int)>, i: int) -> bool {
        &&& self.spreads(path[i].0, path[i].1)
        &&& touching(path[i].0, path[i].1, path[i + 1].0, path[i + 1].1)
    }

    /// `path` is a way a flood can take from `from` to `to`: through floodable cells
    /// only, each step leaving a cell with no mine around it.
    pub open spec fn flood_path(
        self,
        path: Seq<(int, int)>,
        from: (int, int),
        to: (int, int),
    ) -> bool {
        &&& path.len() > 0
        &&& path[0] == from
        &&& path[path.len() - 1] == to
        &&& forall|i: int| 0 <= i < path.len() ==> self.floodable((#[trigger] path[i]).0, path[i].1)
        &&& forall|i: int| 0 <= i < path.len() - 1 ==> #[trigger] self.flood_step(path, i)
    }

    /// A reveal of `from` opens `to` as well: the flood that starts at `from`
    /// gets there.
    pub open spec fn flood_reaches(self, from: (int, int), to: (int, int)) -> bool {
        exists|path: Seq<(int, int)>| #[trigger] self.flood_path(path, from, to)
    }

    /// Every safe cell is revealed.
    pub open spec fn cleared(self) -> bool {
        forall|i: int| 0 <= i < self.cells() ==> #[trigger] self.mines[i] || self.revealed[i]
    }

    /// The board with the mines laid as `layout` says and the clock started.
    pub open spec fn start(self, layout: Seq<bool>) -> Board {
        Board { mines: layout, started: true, ..self }
    }

    /// The board with the game lost and the clock stopped.
    pub open spec fn lose(self) -> Board {
        Board { started: false, outcome: Outcome::Lost, ..self }
    }

    /// The board with a flag on every mine, the game won and the clock stopped.
    pub open spec fn win(self) -> Board {
        Board {
            marks: Seq::new(
                self.marks.len(),
                |i: int| if self.mines[i] { Mark::Flag } else { self.marks[i] },
            ),
            started: false,
            outcome: Outcome::Won,
            ..self
        }
    }

    /// The board with every cell revealed that the flood from `(x, y)` reaches.
    pub open spec fn flooded(self, x: int, y: int) -> Board {
        Board {
            revealed: Seq::new(
                self.revealed.len(),
                |i: int|
                    self.revealed[i] || self.flood_reaches(
                        (x, y),
                        (i % self.w, i / self.w),
                    ),
            ),
            ..self
        }
    }

    /// A reveal of `(x, y)` on a board whose mines are laid.
    ///
    /// Nothing happens where the reveal is blocked. A mine ends the game as lost with
    /// that one cell revealed. A safe cell is opened together with all that the flood
    /// from it reaches; if that leaves no safe cell covered, the game is won.
    pub open spec fn reveal_cell(self, x: int, y: int) -> Board {
        if self.blocked(x, y) {
            self
        } else if self.mines[self.at(x, y)] {
            Board { revealed: self.revealed.update(self.at(x, y), true), ..self }.lose()
        } else {
            let opened = self.flooded(x, y);
            if opened.cleared() {
                opened.win()
            } else {
                opened
            }
        }
    }

    /// Whether `after` is a board that a reveal of `(x, y)` can give. On a board
    /// whose mines are laid there is one such board. On a fresh board the reveal first
    /// lays the mines, in any way that spares the cell, and then goes on as on any
    /// other board; a blocked reveal lays none.
    pub open spec fn reveal_gives(self, after: Board, x: int, y: int) -> bool {
        if !self.fresh() {
            after == self.reveal_cell(x, y)
        } else if self.blocked(x, y) {
            after == self
        } else {
            &&& self.lays(after.mines, Some((x, y)))
            &&& after == self.start(after.mines).reveal_cell(x, y)
        }
    }

    /// Cycling the mark of `(x, y)`: nothing on a revealed cell or a won board.
    pub open spec fn toggle_flag(self, x: int, y: int, use_question_marks: bool) -> Board {
        if self.revealed[self.at(x, y)] || self.outcome == Outcome::Won {
            self
        } else {
            Board {
                marks: self.marks.update(
                    self.at(x, y),
                    next_mark(self.marks[self.at(x, y)], use_question_marks),
                ),
                ..self
            }
        }
    }

    /// The number shown to the player: the mines asked for less the flags set. It is
    /// negative where more flags are set than mines were asked for.
    pub open spec fn remaining_mines(self) -> int {
        self.mine_target - count_flags(self.marks)
    }

    /// The board with every mine revealed, and nothing else changed.
    pub open spec fn reveal_all_mines(self) -> Board {
        Board {
            revealed: Seq::new(self.revealed.len(), |i: int| self.revealed[i] || self.mines[i]),
            ..self
        }
    }

    /// The board with the cursor moved by `(dx, dy)` and held on the board.
    pub open spec fn step_cursor(self, dx: int, dy: int) -> Board {
        Board {
            cursor: (
                clamp(self.cursor.0 + dx, 0, self.w - 1),
                clamp(self.cursor.1 + dy, 0, self.h - 1),
            ),
            ..self
        }
    }

    /// The board after a reveal of each of the first `k` neighbours of `(x, y)`, in
    /// their order.
    pub open spec fn open_around(self, x: int, y: int, k: int) -> Board
        decreases k,
    {
        if k <= 0 {
            self
        } else {
            let b = self.open_around(x, y, k - 1);
            let n = neighbor(x, y, k - 1);
            if b.has(n.0, n.1) {
                b.reveal_cell(n.0, n.1)
            } else {
                b
            }
        }
    }

    /// What a chord at `(x, y)` comes to.
    pub open spec fn chord_result(self, x: int, y: int) -> ChordResult {
        if !self.revealed[self.at(x, y)] {
            ChordResult::Ignored
        } else if self.flags_around(x, y, 8) != self.adjacency(x, y) {
            ChordResult::Flash
        } else if self.misflag_around(x, y, 8) {
            ChordResult::Misflag
        } else {
            ChordResult::Opened
        }
    }

    /// The board after a chord at `(x, y)`.
    pub open spec fn chord(self, x: int, y: int) -> Board {
        match self.chord_result(x, y) {
            ChordResult::Ignored => self,
            ChordResult::Flash => self,
            ChordResult::Misflag => self.reveal_all_mines().lose(),
            ChordResult::Opened => self.open_around(x, y, 8),
        }
    }

    /// `layout` is a way to lay the mines of this board: as many as were asked for, or
    /// as many as fit, and none on the cell to avoid.
    pub open spec fn lays(self, layout: Seq<bool>, avoid: Option<(int, int)>) -> bool {
        &&& layout.len() == self.cells()
        &&& match avoid {
            Some(cell) => {
                &&& !layout[self.at(cell.0, cell.1)]
                &&& count_true(layout) == if self.mine_target <= self.cells() - 1 {
                    self.mine_target
                } else {
                    self.cells() - 1
                }
            },
            None => count_true(layout) == if self.mine_target <= self.cells() {
                self.mine_target
            } else {
                self.cells()
            },
        }
    }
}

} // verus!
