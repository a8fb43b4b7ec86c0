//! The board engine: the executable board, specified against [`Board`].

use vstd::prelude::*;
use std::time::Instant;
use crate::board::{clamp, count_flags, Board, Mark, Outcome};
use crate::flood::{flood, is_flag};
use crate::laws::{
    lemma_reveal_all_keeps_wf, lemma_reveal_keeps_wf, lemma_start_keeps_wf,
    lemma_step_cursor_keeps_wf, lemma_toggle_keeps_wf,
};
use crate::grid::{
    cell_index, count_around, count_true, in_grid, lemma_cell_index_bounds, lemma_cell_to_index,
    lemma_count_around_bound, lemma_count_true_update, lemma_count_true_zero, neighbor,
};
use crate::random::random_below;

verus! {

/// One cell of the board: whether it holds a mine, and its number.
#[derive(Clone, Copy, Debug, PartialEq, Eq, Structural)]
pub struct Cell {
    /// Whether the cell holds a mine.
    pub mine: bool,
    /// How many of the eight cells around it hold a mine.
    pub adj: u8,
}

/// A board in play.
pub struct Game {
    w: usize,
    h: usize,
    mines: usize,
    board: Vec<Cell>,
    revealed: Vec<bool>,
    flagged: Vec<Mark>,
    cursor: (usize, usize),
    started: bool,
    start_time: Option<Instant>,
    elapsed_secs: u64,
    timed: bool,
    outcome: Outcome,
}

impl View for Game {
    type V = Board;

    closed spec fn view(&self) -> Board {
        Board {
            w: self.w as int,
            h: self.h as int,
            mine_target: self.mines as int,
            mines: Seq::new(self.board@.len(), |i: int| self.board@[i].mine),
            revealed: self.revealed@,
            marks: self.flagged@,
            cursor: (self.cursor.0 as int, self.cursor.1 as int),
            started: self.started,
            outcome: self.outcome,
        }
    }
}

/// The flat index of a cell of the grid.
pub(crate) fn flat(w: usize, h: usize, x: usize, y: usize) -> (i: usize)
    requires
        x < w,
        y < h,
        w * h <= usize::MAX,
    ensures
        i == cell_index(w as int, x as int, y as int),
        i < w * h,
{
    proof {
        lemma_cell_index_bounds(w as int, h as int, x as int, y as int);
        assert(0 <= y * w <= y * w + x) by (nonlinear_arith)
            requires
                0 <= y,
                0 <= w,
                0 <= x,
        ;
    }
    y * w + x
}

/// The `k`-th neighbour of a cell, where it lies on the grid.
pub(crate) fn neighbor_cell(
    w: usize,
    h: usize,
    x: usize,
    y: usize,
    k: usize,
) -> (n: Option<(usize, usize)>)
    requires
        x < w,
        y < h,
        k < 8,
    ensures
        match n {
            Some(c) => (c.0 as int, c.1 as int) == neighbor(x as int, y as int, k as int) && in_grid(
                w as int,
                h as int,
                c.0 as int,
                c.1 as int,
            ),
            None => !in_grid(
                w as int,
                h as int,
                neighbor(x as int, y as int, k as int).0,
                neighbor(x as int, y as int, k as int).1,
            ),
        },
{
    let slot: usize = if k < 4 { k } else { k + 1 };
    let col: usize = slot % 3;
    let row: usize = slot / 3;
    if (col == 0 && x == 0) || (row == 0 && y == 0) {
        return None;
    }
    let nx: usize = if col == 0 { x - 1 } else { x + (col - 1) };
    let ny: usize = if row == 0 { y - 1 } else { y + (row - 1) };
    if nx >= w || ny >= h {
        None
    } else {
        Some((nx, ny))
    }
}

/// How many of the eight cells around `(x, y)` are `true` in `layout`.
fn count_mines_around(layout: &Vec<bool>, w: usize, h: usize, x: usize, y: usize) -> (count: u8)
    requires
        x < w,
        y < h,
        layout.len() == w * h,
    ensures
        count == count_around(layout@, w as int, h as int, x as int, y as int, 8),
{
    let mut count: u8 = 0;
    let mut k: usize = 0;
    while k < 8
        invariant
            k <= 8,
            x < w,
            y < h,
            layout.len() == w * h,
            count == count_around(layout@, w as int, h as int, x as int, y as int, k as int),
            count <= k,
        decreases 8 - k,
    {
        match neighbor_cell(w, h, x, y, k) {
            Some((nx, ny)) => {
                let i = flat(w, h, nx, ny);
                if layout[i] {
                    count = count + 1;
                }
            },
            None => {},
        }
        k = k + 1;
    }
    count
}

/// A vector of `n` copies of `value`.
fn filled<T: Copy>(value: T, n: usize) -> (v: Vec<T>)
    ensures
        v@ == Seq::new(n as nat, |i: int| value),
{
    let mut v: Vec<T> = Vec::new();
    let mut i: usize = 0;
    while i < n
        invariant
            i <= n,
            v@ == Seq::new(i as nat, |j: int| value),
        decreases n - i,
    {
        v.push(value);
        i = i + 1;
        assert(v@ =~= Seq::new(i as nat, |j: int| value));
    }
    v
}

/// A vector with the entries of `v`.
fn copy_of<T: Copy>(v: &Vec<T>) -> (copy: Vec<T>)
    ensures
        copy@ == v@,
{
    let mut copy: Vec<T> = Vec::new();
    let mut i: usize = 0;
    while i < v.len()
        invariant
            i <= v.len(),
            copy@ == v@.take(i as int),
        decreases v.len() - i,
    {
        copy.push(v[i]);
        i = i + 1;
        assert(copy@ =~= v@.take(i as int));
    }
    assert(v@.take(v.len() as int) =~= v@);
    copy
}

/// The cells of a board whose mines lie as `layout` says, each with its number.
fn build_cells(layout: &Vec<bool>, w: usize, h: usize) -> (cells: Vec<Cell>)
    requires
        layout.len() == w * h,
    ensures
        cells.len() == w * h,
        forall|i: int|
            0 <= i < cells.len() ==> (#[trigger] cells[i]).mine == layout[i] && cells[i].adj
                == count_around(layout@, w as int, h as int, i % (w as int), i / (w as int), 8),
{
    let mut cells: Vec<Cell> = Vec::new();
    let mut y: usize = 0;
    while y < h
        invariant
            y <= h,
            layout.len() == w * h,
            cells.len() == y * w,
            forall|i: int|
                0 <= i < cells.len() ==> (#[trigger] cells[i]).mine == layout[i] && cells[i].adj
                    == count_around(layout@, w as int, h as int, i % (w as int), i / (w as int), 8),
        decreases h - y,
    {
        let mut x: usize = 0;
        while x < w
            invariant
                x <= w,
                y < h,
                layout.len() == w * h,
                cells.len() == y * w + x,
                forall|i: int|
                    0 <= i < cells.len() ==> (#[trigger] cells[i]).mine == layout[i]
                        && cells[i].adj == count_around(
                        layout@,
                        w as int,
                        h as int,
                        i % (w as int),
                        i / (w as int),
                        8,
                    ),
            decreases w - x,
        {
            let i = flat(w, h, x, y);
            let adj = count_mines_around(layout, w, h, x, y);
            proof {
                lemma_cell_to_index(w as int, h as int, x as int, y as int);
            }
            cells.push(Cell { mine: layout[i], adj });
            x = x + 1;
        }
        y = y + 1;
        assert(cells.len() == y * w) by (nonlinear_arith)
            requires
                cells.len() == (y - 1) * w + w,
        ;
    }
    assert(cells.len() == w * h) by (nonlinear_arith)
        requires
            cells.len() == h * w,
    ;
    cells
}

/// Draws where the mines go: `wanted` of them among `cells` cells, or as many as
/// fit, each cell as likely as any other, and none at `avoid`.
fn draw_layout(cells: usize, wanted: usize, avoid: Option<usize>) -> (layout: Vec<bool>)
    requires
        match avoid {
            Some(a) => a < cells,
            None => true,
        },
    ensures
        layout.len() == cells,
        match avoid {
            Some(a) => !layout[a as int] && count_true(layout@) == if wanted <= cells - 1 {
                wanted as int
            } else {
                cells - 1
            },
            None => count_true(layout@) == if wanted <= cells {
                wanted
            } else {
                cells
            },
        },
{
    let mut layout: Vec<bool> = filled(false, cells);
    proof {
        lemma_count_true_zero(layout@);
    }
    // The cells that can still take a mine.
    let mut pool: Vec<usize> = Vec::new();
    let mut i: usize = 0;
    while i < cells
        invariant
            i <= cells,
            match avoid {
                Some(a) => a < cells && pool.len() == if i <= a { i as int } else { i - 1 },
                None => pool.len() == i,
            },
            forall|j: int| 0 <= j < pool.len() ==> (#[trigger] pool[j]) < i && Some(pool[j]) != avoid,
            forall|j: int, k: int| 0 <= j < k < pool.len() ==> pool[j] != pool[k],
        decreases cells - i,
    {
        if Some(i) != avoid {
            pool.push(i);
        }
        i = i + 1;
    }
    let target: usize = if wanted <= pool.len() { wanted } else { pool.len() };
    let ghost room = pool.len();
    let mut placed: usize = 0;
    while placed < target
        invariant
            placed <= target <= room,
            layout.len() == cells,
            pool.len() == room - placed,
            count_true(layout@) == placed,
            forall|j: int|
                0 <= j < pool.len() ==> (#[trigger] pool[j]) < cells && Some(pool[j]) != avoid
                    && !layout[pool[j] as int],
            forall|j: int, k: int| 0 <= j < k < pool.len() ==> pool[j] != pool[k],
            match avoid {
                Some(a) => a < cells && !layout[a as int],
                None => true,
            },
        decreases target - placed,
    {
        let draw = random_below(pool.len());
        let ghost before = pool@;
        let cell = pool.swap_remove(draw);
        assert forall|j: int| 0 <= j < pool.len() implies (#[trigger] pool[j]) < cells && Some(
            pool[j],
        ) != avoid && !layout[pool[j] as int] && pool[j] != cell by {
            if j == draw {
                assert(pool[j] == before[before.len() - 1]);
            } else {
                assert(pool[j] == before[j]);
            }
        }
        assert forall|j: int, k: int| 0 <= j < k < pool.len() implies pool[j] != pool[k] by {
            let jj = if j == draw { before.len() - 1 } else { j };
            let kk = if k == draw { before.len() - 1 } else { k };
            assert(pool[j] == before[jj] && pool[k] == before[kk]);
        }
        proof {
            lemma_count_true_update(layout@, cell as int, true);
        }
        layout.set(cell, true);
        placed = placed + 1;
    }
    layout
}

impl Clone for Game {
    /// A board that is the same in every cell, with the same clock.
    fn clone(&self) -> (copy: Game)
        ensures
            copy@ == self@,
            copy.clock() == self.clock(),
            self.wf() ==> copy.wf(),
    {
        let copy = Game {
            w: self.w,
            h: self.h,
            mines: self.mines,
            board: copy_of(&self.board),
            revealed: copy_of(&self.revealed),
            flagged: copy_of(&self.flagged),
            cursor: self.cursor,
            started: self.started,
            start_time: self.start_time,
            elapsed_secs: self.elapsed_secs,
            timed: self.timed,
            outcome: self.outcome,
        };
        assert(copy@.mines =~= self@.mines);
        copy
    }
}

impl Game {
    /// The invariant of the engine: the three grids have the board's size, every
    /// cell's number is the count of the mines around it, and the board is a valid
    /// one.
    pub closed spec fn wf(&self) -> bool {
        &&& self.w * self.h <= isize::MAX
        &&& self.mines <= isize::MAX
        &&& self.board@.len() == self.w * self.h
        &&& self.revealed@.len() == self.w * self.h
        &&& self.flagged@.len() == self.w * self.h
        &&& forall|i: int|
            0 <= i < self.board@.len() ==> (#[trigger] self.board@[i]).adj == count_around(
                self@.mines,
                self.w as int,
                self.h as int,
                i % (self.w as int),
                i / (self.w as int),
                8,
            )
        &&& self@.wf()
        &&& (self.started ==> self.start_time.is_some())
    }

    /// The time that the game took, as the clock had it when the game ended: the
    /// whole seconds, and whether any time had passed at all. Before a game has
    /// ended it is no time.
    pub closed spec fn clock(&self) -> (u64, bool) {
        (self.elapsed_secs, self.timed)
    }

    /// A well-formed engine shows a well-formed board, small enough for its counters.
    pub proof fn lemma_view_wf(&self)
        requires
            self.wf(),
        ensures
            self@.wf(),
            self@.cells() <= isize::MAX,
            self@.mine_target <= isize::MAX,
    {
    }

    /// A board of `w` by `h` covered cells on which `mines` mines are to be laid.
    /// No mine is laid yet: that waits for the first reveal.
    pub fn new(w: usize, h: usize, mines: usize) -> (game: Game)
        requires
            w * h <= isize::MAX,
            mines <= isize::MAX,
        ensures
            game.wf(),
            game@ == Board::blank(w as int, h as int, mines as int),
            game.clock() == (0u64, false),
    {
        let n = w * h;
        let layout = filled(false, n);
        let game = Game {
            w,
            h,
            mines,
            board: filled(Cell { mine: false, adj: 0 }, n),
            revealed: filled(false, n),
            flagged: filled(Mark::Clear, n),
            cursor: (0, 0),
            started: false,
            start_time: None,
            elapsed_secs: 0,
            timed: false,
            outcome: Outcome::Ongoing,
        };
        proof {
            assert(game@.mines =~= Seq::new((w * h) as nat, |i: int| false));
            assert forall|i: int| 0 <= i < game.board@.len() implies (#[trigger] game.board@[i]).adj
                == count_around(game@.mines, w as int, h as int, i % (w as int), i / (w as int), 8) by {
                lemma_no_mines_around(game@.mines, w as int, h as int, i % (w as int), i / (w as int), 8);
            }
        }
        game
    }

    /// The place of cell `(x, y)` in a grid stored row by row.
    pub fn index(&self, x: usize, y: usize) -> (i: usize)
        requires
            self.wf(),
            x < self@.w,
            y < self@.h,
        ensures
            i == self@.at(x as int, y as int),
            i < self@.cells(),
    {
        flat(self.w, self.h, x, y)
    }
}

/// Around a cell of a grid without a `true` entry nothing is counted.
proof fn lemma_no_mines_around(s: Seq<bool>, w: int, h: int, x: int, y: int, k: int)
    requires
        forall|i: int| 0 <= i < s.len() ==> !s[i],
        s.len() == w * h,
    ensures
        count_around(s, w, h, x, y, k) == 0,
    decreases k,
{
    if k > 0 {
        lemma_no_mines_around(s, w, h, x, y, k - 1);
        let n = neighbor(x, y, k - 1);
        if in_grid(w, h, n.0, n.1) {
            lemma_cell_index_bounds(w, h, n.0, n.1);
        }
    }
}

/// The time since the clock was started, in whole seconds, and whether any time
/// has passed at all; nothing where the clock never ran.
fn read_clock(start: &Option<Instant>) -> (reading: Option<(u64, bool)>)
    ensures
        reading.is_some() == start.is_some(),
{
    match start {
        Some(since) => {
            let span = since.elapsed();
            Some((span.as_secs(), !span.is_zero()))
        },
        None => None,
    }
}

/// Where a cursor at `pos` stands after a move by `delta`, held within `0..size`.
fn shifted(pos: usize, delta: isize, size: usize) -> (to: usize)
    requires
        pos < size,
    ensures
        to == clamp(pos + delta, 0, size - 1),
{
    if delta >= 0 {
        let step = delta as usize;
        if step >= size - 1 - pos {
            size - 1
        } else {
            pos + step
        }
    } else {
        let back: usize = (-(delta + 1)) as usize;
        if back >= pos {
            0
        } else {
            pos - back - 1
        }
    }
}

impl Game {
    /// The board's width.
    pub fn width(&self) -> (w: usize)
        ensures
            w == self@.w,
    {
        self.w
    }

    /// The board's height.
    pub fn height(&self) -> (h: usize)
        ensures
            h == self@.h,
    {
        self.h
    }

    /// The number of mines asked for.
    pub fn mine_target(&self) -> (mines: usize)
        ensures
            mines == self@.mine_target,
    {
        self.mines
    }

    /// The cursor's cell.
    pub fn cursor(&self) -> (at: (usize, usize))
        ensures
            at.0 == self@.cursor.0,
            at.1 == self@.cursor.1,
    {
        self.cursor
    }

    /// Whether the clock is running.
    pub fn is_started(&self) -> (started: bool)
        ensures
            started == self@.started,
    {
        self.started
    }

    /// How the game stands.
    pub fn outcome(&self) -> (outcome: Outcome)
        ensures
            outcome == self@.outcome,
    {
        self.outcome
    }

    /// The cell at `(x, y)`: whether it holds a mine, and its number, which is the
    /// count of the mines around it.
    pub fn cell(&self, x: usize, y: usize) -> (cell: Cell)
        requires
            self.wf(),
            x < self@.w,
            y < self@.h,
        ensures
            cell.mine == self@.mines[self@.at(x as int, y as int)],
            cell.adj == self@.adjacency(x as int, y as int),
            cell.adj <= 8,
    {
        let i = flat(self.w, self.h, x, y);
        proof {
            lemma_cell_to_index(self.w as int, self.h as int, x as int, y as int);
            lemma_count_around_bound(self@.mines, self.w as int, self.h as int, x as int, y as int, 8);
        }
        self.board[i]
    }

    /// Whether the cell at `(x, y)` is revealed.
    pub fn is_revealed(&self, x: usize, y: usize) -> (revealed: bool)
        requires
            self.wf(),
            x < self@.w,
            y < self@.h,
        ensures
            revealed == self@.revealed[self@.at(x as int, y as int)],
    {
        let i = flat(self.w, self.h, x, y);
        self.revealed[i]
    }

    /// The mark on the cell at `(x, y)`.
    pub fn mark(&self, x: usize, y: usize) -> (mark: Mark)
        requires
            self.wf(),
            x < self@.w,
            y < self@.h,
        ensures
            mark == self@.marks[self@.at(x as int, y as int)],
    {
        let i = flat(self.w, self.h, x, y);
        self.flagged[i]
    }

    /// The seconds on the clock: those of the game that has ended, or those that
    /// have passed so far while it runs. The value is the clock's, so nothing is
    /// promised of it.
    pub fn elapsed_secs(&self) -> (secs: u64)
        requires
            self.wf(),
        ensures
            !self@.started ==> secs == self.clock().0,
    {
        if self.started {
            match read_clock(&self.start_time) {
                Some((secs, _)) => secs,
                None => self.elapsed_secs,
            }
        } else {
            self.elapsed_secs
        }
    }

    /// Whether the game that has ended took any time at all.
    pub fn has_elapsed(&self) -> (timed: bool)
        ensures
            timed == self.clock().1,
    {
        self.timed
    }

    /// Whether `layout` lays the mines of this board: one entry to a cell, row by
    /// row, and as many mines as were asked for, or as many as the board takes.
    pub fn takes(&self, layout: &Vec<bool>) -> (fits: bool)
        requires
            self.wf(),
        ensures
            fits == (layout.len() == self@.cells() && self@.start(layout@).full()),
    {
        let n = self.w * self.h;
        if layout.len() != n {
            return false;
        }
        let mut laid: usize = 0;
        let mut i: usize = 0;
        while i < n
            invariant
                i <= n,
                n == layout.len(),
                laid == count_true(layout@.take(i as int)),
                laid <= i,
            decreases n - i,
        {
            proof {
                assert(layout@.take(i + 1).drop_last() =~= layout@.take(i as int));
            }
            if layout[i] {
                laid = laid + 1;
            }
            i = i + 1;
        }
        proof {
            assert(layout@.take(n as int) =~= layout@);
        }
        (laid == self.mines && self.mines <= n) || (laid == n && self.mines >= n) || (n >= 1 && laid
            == n - 1 && self.mines >= n - 1)
    }

    /// Lays the mines as `layout` says, row by row, gives every cell its number and
    /// starts the clock.
    pub fn start_with(&mut self, layout: &Vec<bool>)
        requires
            old(self).wf(),
            old(self)@.fresh(),
            layout.len() == old(self)@.cells(),
            old(self)@.start(layout@).full(),
        ensures
            final(self).wf(),
            final(self)@ == old(self)@.start(layout@),
            final(self).clock() == old(self).clock(),
    {
        proof {
            lemma_start_keeps_wf(self@, layout@);
        }
        self.board = build_cells(layout, self.w, self.h);
        self.started = true;
        self.start_time = Some(Instant::now());
        proof {
            assert(self@.mines =~= layout@);
            assert(self@ == old(self)@.start(layout@));
        }
    }

    /// Lays the mines at random and starts the clock: as many mines as were asked
    /// for, or as many as fit, each free cell as likely as any other, and none on
    /// the cell to avoid.
    pub fn place_mines(&mut self, avoid: Option<(usize, usize)>)
        requires
            old(self).wf(),
            old(self)@.fresh(),
            match avoid {
                Some(cell) => cell.0 < old(self)@.w && cell.1 < old(self)@.h,
                None => true,
            },
        ensures
            final(self).wf(),
            final(self)@ == old(self)@.start(final(self)@.mines),
            old(self)@.lays(
                final(self)@.mines,
                match avoid {
                    Some(cell) => Some((cell.0 as int, cell.1 as int)),
                    None => None,
                },
            ),
            final(self).clock() == old(self).clock(),
    {
        let spare: Option<usize> = match avoid {
            Some(cell) => Some(flat(self.w, self.h, cell.0, cell.1)),
            None => None,
        };
        let layout = draw_layout(self.w * self.h, self.mines, spare);
        self.start_with(&layout);
    }

    /// Reveals the cell at `(x, y)`.
    ///
    /// Nothing happens where the cell is revealed already or carries a flag, or the
    /// game is over. The first reveal on a board lays the mines, none of them on this
    /// cell, and starts the clock. A mine ends the game as lost. A safe cell is
    /// opened with all that the flood from it reaches, and the game is won once no
    /// safe cell is left covered: every mine then gets a flag.
    pub fn reveal_cell(&mut self, x: usize, y: usize)
        requires
            old(self).wf(),
            x < old(self)@.w,
            y < old(self)@.h,
        ensures
            final(self).wf(),
            old(self)@.reveal_gives(final(self)@, x as int, y as int),
            final(self)@.outcome == old(self)@.outcome ==> final(self).clock() == old(self).clock(),
    {
        let i = flat(self.w, self.h, x, y);
        if self.revealed[i] || is_flag(self.flagged[i]) || !is_ongoing(self.outcome) {
            return ;
        }
        if !self.started {
            self.place_mines(Some((x, y)));
        }
        self.open_cell(x, y);
    }

    /// The reveal itself, on a board whose mines are laid.
    fn open_cell(&mut self, x: usize, y: usize)
        requires
            old(self).wf(),
            x < old(self)@.w,
            y < old(self)@.h,
            old(self)@.started,
            !old(self)@.blocked(x as int, y as int),
        ensures
            final(self).wf(),
            final(self)@ == old(self)@.reveal_cell(x as int, y as int),
            final(self)@.outcome == old(self)@.outcome ==> final(self).clock() == old(self).clock(),
    {
        let ghost before = self@;
        proof {
            lemma_reveal_keeps_wf(before, x as int, y as int);
        }
        let i = flat(self.w, self.h, x, y);
        if self.board[i].mine {
            self.revealed.set(i, true);
            match read_clock(&self.start_time) {
                Some((secs, timed)) => {
                    self.elapsed_secs = secs;
                    self.timed = timed;
                },
                None => {},
            }
            self.started = false;
            self.outcome = Outcome::Lost;
            proof {
                assert(self@.mines =~= before.mines);
                assert(self@ == before.reveal_cell(x as int, y as int));
            }
            return ;
        }
        flood(&self.board, &self.flagged, &mut self.revealed, self.w, self.h, x, y, Ghost(before));
        proof {
            assert(self@.mines =~= before.mines);
            assert(self@ == before.flooded(x as int, y as int));
        }
        if self.check_cleared() {
            let n = self.w * self.h;
            let ghost marks = self.flagged@;
            let mut j: usize = 0;
            while j < n
                invariant
                    j <= n,
                    n == self.board.len(),
                    n == self.flagged.len(),
                    marks.len() == n,
                    self.board == old(self).board,
                    self.w == old(self).w,
                    self.h == old(self).h,
                    self.mines == old(self).mines,
                    self.cursor == old(self).cursor,
                    self.started == old(self).started,
                    self.start_time == old(self).start_time,
                    self.outcome == old(self).outcome,
                    self.elapsed_secs == old(self).elapsed_secs,
                    self.timed == old(self).timed,
                    self.revealed@ == before.flooded(x as int, y as int).revealed,
                    forall|k: int|
                        0 <= k < n ==> #[trigger] self.flagged@[k] == if k < j && self.board@[k].mine {
                            Mark::Flag
                        } else {
                            marks[k]
                        },
                decreases n - j,
            {
                if self.board[j].mine {
                    self.flagged.set(j, Mark::Flag);
                }
                j = j + 1;
            }
            match read_clock(&self.start_time) {
                Some((secs, timed)) => {
                    self.elapsed_secs = secs;
                    self.timed = timed;
                },
                None => {},
            }
            self.started = false;
            self.outcome = Outcome::Won;
            proof {
                assert(self@.mines =~= before.mines);
                assert(self@.marks =~= before.flooded(x as int, y as int).win().marks);
                assert(self@ == before.flooded(x as int, y as int).win());
            }
        }
    }

    /// Whether every safe cell is revealed, on a board of the engine's size.
    fn check_cleared(&self) -> (cleared: bool)
        requires
            self.board.len() == self.w * self.h,
            self.revealed.len() == self.w * self.h,
            self.w * self.h <= usize::MAX,
        ensures
            cleared == self@.cleared(),
    {
        let n = self.w * self.h;
        let mut i: usize = 0;
        while i < n
            invariant
                i <= n,
                n == self.w * self.h,
                self.board.len() == n,
                self.revealed.len() == n,
                forall|k: int| 0 <= k < i ==> #[trigger] self@.mines[k] || self@.revealed[k],
            decreases n - i,
        {
            if !self.board[i].mine && !self.revealed[i] {
                assert(!(self@.mines[i as int] || self@.revealed[i as int]));
                return false;
            }
            i = i + 1;
        }
        true
    }

    /// Whether the game is won as far as the cells go: every safe cell is revealed.
    pub fn check_win(&self) -> (won: bool)
        requires
            self.wf(),
        ensures
            won == self@.cleared(),
    {
        self.check_cleared()
    }

    /// Cycles the mark on the cell at `(x, y)`: between none and a flag, or through
    /// none, flag and question mark. Nothing happens on a revealed cell, nor on a
    /// board that is won.
    pub fn toggle_flag(&mut self, x: usize, y: usize, use_question_marks: bool)
        requires
            old(self).wf(),
            x < old(self)@.w,
            y < old(self)@.h,
        ensures
            final(self).wf(),
            final(self)@ == old(self)@.toggle_flag(x as int, y as int, use_question_marks),
            final(self).clock() == old(self).clock(),
    {
        proof {
            lemma_toggle_keeps_wf(self@, x as int, y as int, use_question_marks);
        }
        let i = flat(self.w, self.h, x, y);
        if self.revealed[i] || is_won(self.outcome) {
            return ;
        }
        let next = if use_question_marks {
            match self.flagged[i] {
                Mark::Clear => Mark::Flag,
                Mark::Flag => Mark::Question,
                Mark::Question => Mark::Clear,
            }
        } else if is_flag(self.flagged[i]) {
            Mark::Clear
        } else {
            Mark::Flag
        };
        self.flagged.set(i, next);
        proof {
            assert(self@.mines =~= old(self)@.mines);
            assert(self@ == old(self)@.toggle_flag(x as int, y as int, use_question_marks));
        }
    }

    /// The number shown to the player: the mines asked for less the flags set. It is
    /// negative where there are more flags than mines.
    pub fn remaining_mines(&self) -> (left: isize)
        requires
            self.wf(),
        ensures
            left == self@.remaining_mines(),
    {
        let n = self.flagged.len();
        let mut flags: usize = 0;
        let mut i: usize = 0;
        while i < n
            invariant
                i <= n,
                n == self.flagged.len(),
                flags == count_flags(self.flagged@.take(i as int)),
                flags <= i,
            decreases n - i,
        {
            proof {
                assert(self.flagged@.take(i + 1).drop_last() =~= self.flagged@.take(i as int));
            }
            if is_flag(self.flagged[i]) {
                flags = flags + 1;
            }
            i = i + 1;
        }
        proof {
            assert(self.flagged@.take(n as int) =~= self.flagged@);
        }
        self.mines as isize - flags as isize
    }

    /// Moves the cursor by `(dx, dy)` and holds it on the board.
    pub fn step_cursor(&mut self, dx: isize, dy: isize)
        requires
            old(self).wf(),
            old(self)@.w > 0,
            old(self)@.h > 0,
        ensures
            final(self).wf(),
            final(self)@ == old(self)@.step_cursor(dx as int, dy as int),
            final(self).clock() == old(self).clock(),
    {
        proof {
            lemma_step_cursor_keeps_wf(self@, dx as int, dy as int);
        }
        let nx = shifted(self.cursor.0, dx, self.w);
        let ny = shifted(self.cursor.1, dy, self.h);
        self.cursor = (nx, ny);
        proof {
            assert(self@.mines =~= old(self)@.mines);
        }
    }

    /// Puts the cursor on the cell at `(x, y)`.
    pub fn set_cursor(&mut self, x: usize, y: usize)
        requires
            old(self).wf(),
            x < old(self)@.w,
            y < old(self)@.h,
        ensures
            final(self).wf(),
            final(self)@ == (Board { cursor: (x as int, y as int), ..old(self)@ }),
            final(self).clock() == old(self).clock(),
    {
        self.cursor = (x, y);
        proof {
            assert(self@.mines =~= old(self)@.mines);
        }
    }

    /// Reveals every mine and changes nothing else: what the player is shown when
    /// the game is lost.
    pub fn reveal_all_mines(&mut self)
        requires
            old(self).wf(),
        ensures
            final(self).wf(),
            final(self)@ == old(self)@.reveal_all_mines(),
            final(self).clock() == old(self).clock(),
    {
        proof {
            lemma_reveal_all_keeps_wf(self@);
        }
        let n = self.w * self.h;
        let ghost shown = self.revealed@;
        let mut i: usize = 0;
        while i < n
            invariant
                i <= n,
                n == self.board.len(),
                n == self.revealed.len(),
                shown.len() == n,
                self.board == old(self).board,
                self.flagged == old(self).flagged,
                self.w == old(self).w,
                self.h == old(self).h,
                self.mines == old(self).mines,
                self.cursor == old(self).cursor,
                self.started == old(self).started,
                self.start_time == old(self).start_time,
                self.outcome == old(self).outcome,
                self.elapsed_secs == old(self).elapsed_secs,
                self.timed == old(self).timed,
                forall|k: int|
                    0 <= k < n ==> #[trigger] self.revealed@[k] == (shown[k] || (k < i
                        && self.board@[k].mine)),
            decreases n - i,
        {
            if self.board[i].mine {
                self.revealed.set(i, true);
            }
            i = i + 1;
        }
        proof {
            assert(self@.mines =~= old(self)@.mines);
            assert(self@.revealed =~= old(self)@.reveal_all_mines().revealed);
            assert(self@ == old(self)@.reveal_all_mines());
        }
    }

    /// Ends the game as lost: every mine is revealed, and the clock stops if it runs.
    pub(crate) fn lose_with_mines_shown(&mut self)
        requires
            old(self).wf(),
            !old(self)@.fresh(),
        ensures
            final(self).wf(),
            final(self)@ == old(self)@.reveal_all_mines().lose(),
            final(self)@.outcome == old(self)@.outcome ==> final(self).clock() == old(self).clock(),
    {
        proof {
            lemma_reveal_all_keeps_wf(self@);
        }
        self.reveal_all_mines();
        if self.started {
            match read_clock(&self.start_time) {
                Some((secs, timed)) => {
                    self.elapsed_secs = secs;
                    self.timed = timed;
                },
                None => {},
            }
        }
        self.started = false;
        self.outcome = Outcome::Lost;
        proof {
            assert(self@.mines =~= old(self)@.mines);
            assert(self@ == old(self)@.reveal_all_mines().lose());
        }
    }
}

/// Whether the game still goes on.
fn is_ongoing(o: Outcome) -> (ongoing: bool)
    ensures
        ongoing == (o == Outcome::Ongoing),
{
    match o {
        Outcome::Ongoing => true,
        _ => false,
    }
}

/// Whether the game is won.
fn is_won(o: Outcome) -> (won: bool)
    ensures
        won == (o == Outcome::Won),
{
    match o {
        Outcome::Won => true,
        _ => false,
    }
}

} // verus!
