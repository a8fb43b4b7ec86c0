//! The form on which the player sets the measures of a custom board: three
//! fields of digits, one of them in focus, and the field found wrong at the last try.

use vstd::prelude::*;
use crate::text::{
    all_digits, decimal_digits, decimal_value, digits_of, lemma_decimal_digits, read_digits,
    READ_LIMIT,
};

verus! {

/// What a try to accept the form came to.
#[derive(Clone, Copy, Debug, PartialEq, Eq, Structural)]
pub enum Verdict {
    /// The field with this index, 0 for the width, 1 for the height, 2 for the
    /// mines, is empty or out of range.
    Invalid(u8),
    /// The three fields are in range: the width, the height and the mines.
    Accept(usize, usize, usize),
}

/// The most mines that a custom board of `w` by `h` may hold: 92.6 percent of its
/// cells, rounded down.
pub open spec fn mine_cap(w: int, h: int) -> int {
    (w * h * 926) / 1000
}

/// The most mines that a custom board of `w` by `h` may hold, for a board of at
/// most a thousand cells a side.
pub fn mine_limit(w: usize, h: usize) -> (cap: usize)
    requires
        w <= 1000,
        h <= 1000,
    ensures
        cap == mine_cap(w as int, h as int),
{
    assert(w * h <= 1_000_000) by (nonlinear_arith)
        requires
            0 <= w <= 1000,
            0 <= h <= 1000,
    ;
    let cells: u64 = w as u64 * h as u64;
    ((cells * 926) / 1000) as usize
}

/// The form as a value.
pub struct FormView {
    pub width: Seq<u8>,
    pub height: Seq<u8>,
    pub mines: Seq<u8>,
    /// The field in focus: 0, 1 or 2.
    pub focus: u8,
    /// The field found wrong at the last try, and when.
    pub invalid: Option<(u8, u64)>,
}

impl FormView {
    /// The invariant of the form.
    pub open spec fn wf(self) -> bool {
        &&& all_digits(self.width)
        &&& all_digits(self.height)
        &&& all_digits(self.mines)
        &&& self.focus <= 2
    }

    /// The digits of the field in focus.
    pub open spec fn focused(self) -> Seq<u8> {
        if self.focus == 0 {
            self.width
        } else if self.focus == 1 {
            self.height
        } else {
            self.mines
        }
    }

    /// How many digits the field in focus takes: two for the width and the height,
    /// three for the mines.
    pub open spec fn room(self) -> int {
        if self.focus == 2 {
            3
        } else {
            2
        }
    }

    /// The form with `digits` in the field in focus.
    pub open spec fn with_focused(self, digits: Seq<u8>) -> FormView {
        if self.focus == 0 {
            FormView { width: digits, ..self }
        } else if self.focus == 1 {
            FormView { height: digits, ..self }
        } else {
            FormView { mines: digits, ..self }
        }
    }

    /// The form after a digit is typed: it goes to the end of the field in focus
    /// if there is room for it.
    pub open spec fn typed(self, digit: u8) -> FormView {
        if self.focused().len() < self.room() {
            self.with_focused(self.focused().push(digit))
        } else {
            self
        }
    }

    /// The form after the last digit of the field in focus is rubbed out.
    pub open spec fn erased(self) -> FormView {
        if self.focused().len() > 0 {
            self.with_focused(self.focused().drop_last())
        } else {
            self
        }
    }

    /// What a try to accept the form comes to. An empty field is found wrong, the
    /// first of them; else the first field out of range: a width from 9 to 36, a
    /// height from 9 to 24, and from 10 mines up to what the board may hold.
    pub open spec fn verdict(self) -> Verdict {
        let w = decimal_value(self.width);
        let h = decimal_value(self.height);
        let n = decimal_value(self.mines);
        if self.width.len() == 0 {
            Verdict::Invalid(0)
        } else if self.height.len() == 0 {
            Verdict::Invalid(1)
        } else if self.mines.len() == 0 {
            Verdict::Invalid(2)
        } else if w < 9 || w > 36 {
            Verdict::Invalid(0)
        } else if h < 9 || h > 24 {
            Verdict::Invalid(1)
        } else if n < 10 || n > mine_cap(w, h) {
            Verdict::Invalid(2)
        } else {
            Verdict::Accept(w as usize, h as usize, n as usize)
        }
    }
}

/// Measures that the form accepts make a board that the engine can hold: at
/// least 81 cells, and fewer mines than cells.
pub proof fn lemma_accepted_board(f: FormView)
    requires
        f.verdict() is Accept,
    ensures
        ({
            let w = f.verdict()->Accept_0;
            let h = f.verdict()->Accept_1;
            let n = f.verdict()->Accept_2;
            &&& 9 <= w <= 36
            &&& 9 <= h <= 24
            &&& 10 <= n < w * h
            &&& w * h <= 864
        }),
{
    let w = decimal_value(f.width);
    let h = decimal_value(f.height);
    assert(81 <= w * h <= 864) by (nonlinear_arith)
        requires
            9 <= w <= 36,
            9 <= h <= 24,
    ;
}

/// The form for the measures of a custom board.
pub struct CustomForm {
    width: Vec<u8>,
    height: Vec<u8>,
    mines: Vec<u8>,
    focus: u8,
    invalid: Option<(u8, u64)>,
}

impl View for CustomForm {
    type V = FormView;

    closed spec fn view(&self) -> FormView {
        FormView {
            width: self.width@,
            height: self.height@,
            mines: self.mines@,
            focus: self.focus,
            invalid: self.invalid,
        }
    }
}

/// Reads a field as the form reads it: a number too large to matter is read as one
/// that is out of every range.
fn read_field(d: &Vec<u8>) -> (n: usize)
    requires
        all_digits(d@),
    ensures
        n == if decimal_value(d@) <= READ_LIMIT {
            decimal_value(d@)
        } else {
            READ_LIMIT + 1
        },
{
    match read_digits(d) {
        Some(v) => v,
        None => READ_LIMIT + 1,
    }
}

impl CustomForm {
    /// The invariant of the form: its fields hold digits and one of them is in focus.
    pub open spec fn wf(&self) -> bool {
        self@.wf()
    }

    /// An empty form with the width in focus.
    pub fn new() -> (form: CustomForm)
        ensures
            form.wf(),
            form@ == (FormView {
                width: Seq::empty(),
                height: Seq::empty(),
                mines: Seq::empty(),
                focus: 0,
                invalid: None,
            }),
    {
        CustomForm { width: Vec::new(), height: Vec::new(), mines: Vec::new(), focus: 0, invalid: None }
    }

    /// The digits of the width.
    pub fn width_digits(&self) -> (d: &Vec<u8>)
        ensures
            d@ == self@.width,
    {
        &self.width
    }

    /// The digits of the height.
    pub fn height_digits(&self) -> (d: &Vec<u8>)
        ensures
            d@ == self@.height,
    {
        &self.height
    }

    /// The digits of the mines.
    pub fn mines_digits(&self) -> (d: &Vec<u8>)
        ensures
            d@ == self@.mines,
    {
        &self.mines
    }

    /// The field in focus.
    pub fn focus(&self) -> (focus: u8)
        ensures
            focus == self@.focus,
    {
        self.focus
    }

    /// The field found wrong at the last try, and when.
    pub fn invalid(&self) -> (invalid: Option<(u8, u64)>)
        ensures
            invalid == self@.invalid,
    {
        self.invalid
    }

    /// Fills the form with the measures given, written in base ten, and puts the
    /// width in focus. The mark of a wrong field stays.
    pub fn load(&mut self, w: usize, h: usize, n: usize)
        ensures
            final(self).wf(),
            final(self)@ == (FormView {
                width: decimal_digits(w as nat),
                height: decimal_digits(h as nat),
                mines: decimal_digits(n as nat),
                focus: 0,
                invalid: old(self)@.invalid,
            }),
    {
        proof {
            lemma_decimal_digits(w as nat);
            lemma_decimal_digits(h as nat);
            lemma_decimal_digits(n as nat);
        }
        self.width = digits_of(w);
        self.height = digits_of(h);
        self.mines = digits_of(n);
        self.focus = 0;
    }

    /// Empties the three fields. The focus and the mark of a wrong field stay.
    pub fn clear(&mut self)
        requires
            old(self).wf(),
        ensures
            final(self).wf(),
            final(self)@ == (FormView {
                width: Seq::empty(),
                height: Seq::empty(),
                mines: Seq::empty(),
                ..old(self)@
            }),
    {
        self.width = Vec::new();
        self.height = Vec::new();
        self.mines = Vec::new();
    }

    /// Takes the mark of a wrong field away.
    pub fn forgive(&mut self)
        requires
            old(self).wf(),
        ensures
            final(self).wf(),
            final(self)@ == (FormView { invalid: None, ..old(self)@ }),
    {
        self.invalid = None;
    }

    /// Types a digit into the field in focus, if there is room for it: two digits
    /// for the width and the height, three for the mines.
    pub fn type_digit(&mut self, digit: u8)
        requires
            old(self).wf(),
            digit <= 9,
        ensures
            final(self).wf(),
            final(self)@ == old(self)@.typed(digit),
    {
        if self.focus == 0 {
            if self.width.len() < 2 {
                self.width.push(digit);
            }
        } else if self.focus == 1 {
            if self.height.len() < 2 {
                self.height.push(digit);
            }
        } else {
            if self.mines.len() < 3 {
                self.mines.push(digit);
            }
        }
    }

    /// Rubs out the last digit of the field in focus.
    pub fn backspace(&mut self)
        requires
            old(self).wf(),
        ensures
            final(self).wf(),
            final(self)@ == old(self)@.erased(),
    {
        if self.focus == 0 {
            self.width.pop();
        } else if self.focus == 1 {
            self.height.pop();
        } else {
            self.mines.pop();
        }
        proof {
            let f = old(self)@;
            if f.focused().len() > 0 {
                assert(f.focused().drop_last() =~= f.focused().subrange(0, f.focused().len() - 1));
            }
        }
    }

    /// Moves the focus to the next field, from the last to the first.
    pub fn focus_next(&mut self)
        requires
            old(self).wf(),
        ensures
            final(self).wf(),
            final(self)@ == (FormView { focus: ((old(self)@.focus + 1) % 3) as u8, ..old(self)@ }),
    {
        self.focus = if self.focus < 2 { self.focus + 1 } else { 0 };
    }

    /// Moves the focus to the field before, from the first to the last.
    pub fn focus_prev(&mut self)
        requires
            old(self).wf(),
        ensures
            final(self).wf(),
            final(self)@ == (FormView { focus: ((old(self)@.focus + 2) % 3) as u8, ..old(self)@ }),
    {
        self.focus = if self.focus > 0 { self.focus - 1 } else { 2 };
    }

    /// Puts the focus on the field with this index.
    pub fn set_focus(&mut self, field: u8)
        requires
            old(self).wf(),
            field <= 2,
        ensures
            final(self).wf(),
            final(self)@ == (FormView { focus: field, ..old(self)@ }),
    {
        self.focus = field;
    }

    /// Tries to accept the form at the time `now`. Where a field is empty or out of
    /// range, the first such field is marked wrong with the time, and nothing else
    /// changes. Where all is in range, the form stays as it is and the measures are
    /// handed back.
    pub fn commit(&mut self, now: u64) -> (verdict: Verdict)
        requires
            old(self).wf(),
        ensures
            final(self).wf(),
            verdict == old(self)@.verdict(),
            final(self)@ == match verdict {
                Verdict::Invalid(field) => FormView { invalid: Some((field, now)), ..old(self)@ },
                Verdict::Accept(_, _, _) => old(self)@,
            },
    {
        let verdict = self.check();
        match verdict {
            Verdict::Invalid(field) => {
                self.invalid = Some((field, now));
            },
            Verdict::Accept(_, _, _) => {},
        }
        verdict
    }

    /// What a try to accept the form would come to.
    pub fn check(&self) -> (verdict: Verdict)
        requires
            self.wf(),
        ensures
            verdict == self@.verdict(),
    {
        if self.width.len() == 0 {
            return Verdict::Invalid(0);
        }
        if self.height.len() == 0 {
            return Verdict::Invalid(1);
        }
        if self.mines.len() == 0 {
            return Verdict::Invalid(2);
        }
        let w = read_field(&self.width);
        let h = read_field(&self.height);
        let n = read_field(&self.mines);
        if w < 9 || w > 36 {
            return Verdict::Invalid(0);
        }
        if h < 9 || h > 24 {
            return Verdict::Invalid(1);
        }
        assert(81 <= w * h <= 864) by (nonlinear_arith)
            requires
                9 <= w <= 36,
                9 <= h <= 24,
        ;
        let cap = (w * h * 926) / 1000;
        if n < 10 || n > cap {
            return Verdict::Invalid(2);
        }
        Verdict::Accept(w, h, n)
    }
}

} // verus!
