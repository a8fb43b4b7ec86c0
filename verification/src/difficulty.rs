//! The difficulties: three presets and a board of the player's own choosing.

use vstd::prelude::*;

verus! {

/// A difficulty: one of the three presets, or a custom board given by its width,
/// its height and its number of mines.
#[derive(Debug, Clone, Copy, PartialEq, Eq, Structural)]
pub enum Difficulty {
    /// 9 by 9 with 10 mines.
    Beginner,
    /// 16 by 16 with 40 mines.
    Intermediate,
    /// 30 by 16 with 99 mines.
    Expert,
    /// Width, height and mines as the player chose them.
    Custom(usize, usize, usize),
}

impl Difficulty {
    /// The board of this difficulty: width, height and number of mines.
    pub open spec fn spec_params(self) -> (usize, usize, usize) {
        match self {
            Difficulty::Beginner => (9, 9, 10),
            Difficulty::Intermediate => (16, 16, 40),
            Difficulty::Expert => (30, 16, 99),
            Difficulty::Custom(w, h, n) => (w, h, n),
        }
    }

    /// The place of this difficulty in the list of four.
    pub open spec fn spec_index(self) -> usize {
        match self {
            Difficulty::Beginner => 0,
            Difficulty::Intermediate => 1,
            Difficulty::Expert => 2,
            Difficulty::Custom(_, _, _) => 3,
        }
    }

    /// Whether this is a preset, for which a best time is kept.
    pub open spec fn is_preset(self) -> bool {
        !(self is Custom)
    }

    /// The board of this difficulty: width, height and number of mines.
    pub fn params(&self) -> (p: (usize, usize, usize))
        ensures
            p == self.spec_params(),
    {
        match self {
            Difficulty::Beginner => (9, 9, 10),
            Difficulty::Intermediate => (16, 16, 40),
            Difficulty::Expert => (30, 16, 99),
            Difficulty::Custom(w, h, n) => (*w, *h, *n),
        }
    }

    /// The name under which this difficulty is stored: it does not change with the
    /// language of the interface.
    pub fn name(&self) -> (name: &'static str)
        ensures
            name@ == match *self {
                Difficulty::Beginner => "Beginner"@,
                Difficulty::Intermediate => "Intermediate"@,
                Difficulty::Expert => "Expert"@,
                Difficulty::Custom(_, _, _) => "Custom"@,
            },
    {
        match self {
            Difficulty::Beginner => "Beginner",
            Difficulty::Intermediate => "Intermediate",
            Difficulty::Expert => "Expert",
            Difficulty::Custom(_, _, _) => "Custom",
        }
    }

    /// The place of this difficulty in the list of four: 0 to 2 for the presets, 3
    /// for a custom board.
    pub fn to_index(&self) -> (i: usize)
        ensures
            i == self.spec_index(),
            i <= 3,
    {
        match self {
            Difficulty::Beginner => 0,
            Difficulty::Intermediate => 1,
            Difficulty::Expert => 2,
            Difficulty::Custom(_, _, _) => 3,
        }
    }

    /// The difficulty at place `i` of the list: a preset for 0 to 2, and the custom
    /// board of the given measures for every other index.
    pub fn from_index(
        i: usize,
        custom_w: usize,
        custom_h: usize,
        custom_n: usize,
    ) -> (d: Difficulty)
        ensures
            d == match i {
                0 => Difficulty::Beginner,
                1 => Difficulty::Intermediate,
                2 => Difficulty::Expert,
                _ => Difficulty::Custom(custom_w, custom_h, custom_n),
            },
    {
        match i {
            0 => Difficulty::Beginner,
            1 => Difficulty::Intermediate,
            2 => Difficulty::Expert,
            _ => Difficulty::Custom(custom_w, custom_h, custom_n),
        }
    }
}

/// A difficulty found by its index is at that index, for the four indices of the list.
pub proof fn lemma_index_round_trip(i: usize, w: usize, h: usize, n: usize)
    requires
        i <= 3,
    ensures
        (match i {
            0 => Difficulty::Beginner,
            1 => Difficulty::Intermediate,
            2 => Difficulty::Expert,
            _ => Difficulty::Custom(w, h, n),
        }).spec_index() == i,
{
}

} // verus!
