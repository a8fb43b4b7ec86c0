//! The chord: opening at once all that lies around a revealed number whose mines
//! are flagged.

use vstd::prelude::*;
use crate::board::{ChordResult, Outcome};
use crate::flood::is_flag;
use crate::game::{neighbor_cell, Game};
use crate::laws::{lemma_reveal_keeps_wf, lemma_reveal_step};

verus! {

impl Game {
    /// A chord at the cell `(x, y)`.
    ///
    /// On a covered cell nothing happens. Where the flags around the cell are not as
    /// many as its number, the board stays as it is and the cell is to flash. Where
    /// they are as many but one of them sits on a safe cell, the game is lost: every
    /// mine is revealed and the clock stops. Otherwise each neighbour is revealed in
    /// turn, as by a reveal of its own.
    pub fn chord(&mut self, x: usize, y: usize) -> (result: ChordResult)
        requires
            old(self).wf(),
            x < old(self)@.w,
            y < old(self)@.h,
        ensures
            final(self).wf(),
            result == old(self)@.chord_result(x as int, y as int),
            final(self)@ == old(self)@.chord(x as int, y as int),
            final(self)@.outcome == old(self)@.outcome ==> final(self).clock() == old(self).clock(),
    {
        let ghost before = self@;
        if !self.is_revealed(x, y) {
            return ChordResult::Ignored;
        }
        proof {
            self.lemma_view_wf();
            crate::grid::lemma_cell_index_bounds(before.w, before.h, x as int, y as int);
        }
        let w = self.width();
        let h = self.height();
        let number = self.cell(x, y).adj;
        let mut flags: u8 = 0;
        let mut wrong = false;
        let mut k: usize = 0;
        while k < 8
            invariant
                k <= 8,
                self.wf(),
                self@ == before,
                self.clock() == old(self).clock(),
                w == before.w,
                h == before.h,
                x < w,
                y < h,
                flags == before.flags_around(x as int, y as int, k as int),
                flags <= k,
                wrong == before.misflag_around(x as int, y as int, k as int),
            decreases 8 - k,
        {
            match neighbor_cell(w, h, x, y, k) {
                Some((nx, ny)) => {
                    if is_flag(self.mark(nx, ny)) {
                        flags = flags + 1;
                        if !self.cell(nx, ny).mine {
                            wrong = true;
                        }
                    }
                },
                None => {},
            }
            k = k + 1;
        }
        if flags != number {
            return ChordResult::Flash;
        }
        if wrong {
            self.lose_with_mines_shown();
            return ChordResult::Misflag;
        }
        let mut k: usize = 0;
        while k < 8
            invariant
                k <= 8,
                self.wf(),
                before.wf(),
                !self@.fresh(),
                w == before.w,
                h == before.h,
                self@.w == before.w,
                self@.h == before.h,
                x < w,
                y < h,
                self@ == before.open_around(x as int, y as int, k as int),
                before.outcome != Outcome::Ongoing ==> self@.outcome == before.outcome,
                self@.outcome == Outcome::Ongoing ==> before.outcome == Outcome::Ongoing,
                self@.outcome == before.outcome ==> self.clock() == old(self).clock(),
            decreases 8 - k,
        {
            match neighbor_cell(w, h, x, y, k) {
                Some((nx, ny)) => {
                    proof {
                        self.lemma_view_wf();
                        lemma_reveal_keeps_wf(self@, nx as int, ny as int);
                        lemma_reveal_step(self@, nx as int, ny as int);
                    }
                    self.reveal_cell(nx, ny);
                },
                None => {},
            }
            k = k + 1;
        }
        ChordResult::Opened
    }
}

} // verus!
