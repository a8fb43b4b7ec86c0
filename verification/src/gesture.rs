//! The gesture tracker: what the presses and releases of two buttons, or of the two
//! keys that stand for them, ask of the board.

use vstd::prelude::*;

verus! {

/// What a gesture asks of the board, at a cell.
#[derive(Clone, Copy, Debug, PartialEq, Eq)]
pub enum Intent {
    /// Reveal the cell.
    Reveal(usize, usize),
    /// Resolve a chord at the cell.
    Chord(usize, usize),
    /// Cycle the mark of the cell.
    Flag(usize, usize),
}

/// A key that stands for a button while it is held.
#[derive(Clone, Copy, Debug, PartialEq, Eq, Structural)]
pub enum HeldKey {
    /// The key that reveals: the primary button.
    Reveal,
    /// The key that chords: both buttons at once.
    Chord,
}

/// How long after a key went down its release is made up, on a terminal that does
/// not report releases, in milliseconds.
pub const KEY_RELEASE_DELAY_MS: u64 = 100;

/// The state of the tracker. Each press is remembered by the cell it began on: a
/// later move of the pointer does not change it.
#[derive(Clone, Copy, Debug)]
pub struct Gesture {
    /// The cell on which the primary button went down.
    pub left_press: Option<(usize, usize)>,
    /// The cell on which the secondary button went down.
    pub right_press: Option<(usize, usize)>,
    /// The cell on which a chord is armed: both buttons are down on it.
    pub chord_active: Option<(usize, usize)>,
    /// The key whose release is to be made up, and when it went down.
    pub key_timer: Option<(u64, HeldKey)>,
    /// Whether the terminal reports the release of a key.
    pub supports_key_release: bool,
}

/// Whether a press is remembered on this cell.
pub open spec fn pressed_on(press: Option<(usize, usize)>, cell: (usize, usize)) -> bool {
    press == Some(cell)
}

/// Whether a press is remembered on this cell.
fn is_pressed_on(press: Option<(usize, usize)>, cell: (usize, usize)) -> (on: bool)
    ensures
        on == pressed_on(press, cell),
{
    match press {
        Some(origin) => origin.0 == cell.0 && origin.1 == cell.1,
        None => false,
    }
}

impl Gesture {
    /// The tracker at rest.
    pub open spec fn spec_idle(supports_key_release: bool) -> Gesture {
        Gesture {
            left_press: None,
            right_press: None,
            chord_active: None,
            key_timer: None,
            supports_key_release,
        }
    }

    /// The tracker with no button down and no chord armed; the rest as it is.
    pub open spec fn released(self) -> Gesture {
        Gesture { left_press: None, right_press: None, chord_active: None, ..self }
    }

    /// Whether the made-up release of a key is due at the time `now`.
    pub open spec fn timer_due(self, now: u64) -> bool {
        match self.key_timer {
            Some(timer) => now - timer.0 >= KEY_RELEASE_DELAY_MS,
            None => false,
        }
    }

    /// The tracker after the primary button went down on a cell: a chord is armed
    /// where the secondary button is down on the same cell, else the press is
    /// remembered.
    pub open spec fn primary_down(self, cell: (usize, usize)) -> Gesture {
        if pressed_on(self.right_press, cell) {
            Gesture { chord_active: Some(cell), ..self }
        } else {
            Gesture { left_press: Some(cell), ..self }
        }
    }

    /// The tracker after the secondary button went down on a cell, and what that
    /// asks of the board: a chord is armed where the primary button is down on the
    /// same cell; else the press is remembered and the cell's mark is cycled.
    pub open spec fn secondary_down(self, cell: (usize, usize)) -> (Gesture, Option<Intent>) {
        if pressed_on(self.left_press, cell) {
            (Gesture { chord_active: Some(cell), ..self }, None)
        } else {
            (Gesture { right_press: Some(cell), ..self }, Some(Intent::Flag(cell.0, cell.1)))
        }
    }

    /// The tracker after the primary button went up over `at`, and what that asks
    /// of the board.
    pub open spec fn primary_up(self, at: Option<(usize, usize)>) -> (Gesture, Option<Intent>) {
        match self.chord_active {
            Some(armed) => (self.released(), Some(Intent::Chord(armed.0, armed.1))),
            None => (
                Gesture { left_press: None, ..self },
                match at {
                    Some(cell) => if pressed_on(self.left_press, cell) {
                        Some(Intent::Reveal(cell.0, cell.1))
                    } else {
                        None
                    },
                    None => None,
                },
            ),
        }
    }

    /// The tracker after the secondary button went up, and what that asks of the
    /// board.
    pub open spec fn secondary_up(self) -> (Gesture, Option<Intent>) {
        match self.chord_active {
            Some(armed) => (self.released(), Some(Intent::Chord(armed.0, armed.1))),
            None => (Gesture { right_press: None, ..self }, None),
        }
    }

    /// The release of a held key is to be made up, where the terminal does not
    /// report releases.
    pub open spec fn timed(self, key: HeldKey, now: u64) -> Option<(u64, HeldKey)> {
        if self.supports_key_release {
            self.key_timer
        } else {
            Some((now, key))
        }
    }

    /// The tracker after the key that reveals went down with the cursor on `cursor`.
    pub open spec fn reveal_key_down(self, cursor: (usize, usize), now: u64) -> Gesture {
        Gesture { left_press: Some(cursor), key_timer: self.timed(HeldKey::Reveal, now), ..self }
    }

    /// The tracker after the key that chords went down with the cursor on `cursor`.
    pub open spec fn chord_key_down(self, cursor: (usize, usize), now: u64) -> Gesture {
        Gesture {
            left_press: Some(cursor),
            right_press: Some(cursor),
            chord_active: Some(cursor),
            key_timer: self.timed(HeldKey::Chord, now),
            ..self
        }
    }

    /// What a release over `cursor` of a press of the primary button asks of the board.
    pub open spec fn reveal_at(self, cursor: (usize, usize)) -> Option<Intent> {
        if pressed_on(self.left_press, cursor) {
            Some(Intent::Reveal(cursor.0, cursor.1))
        } else {
            None
        }
    }

    /// What the release of an armed chord asks of the board.
    pub open spec fn chord_armed(self) -> Option<Intent> {
        match self.chord_active {
            Some(armed) => Some(Intent::Chord(armed.0, armed.1)),
            None => None,
        }
    }

    /// The tracker after the key that reveals went up with the cursor on `cursor`,
    /// and what that asks of the board.
    pub open spec fn reveal_key_up(self, cursor: (usize, usize)) -> (Gesture, Option<Intent>) {
        (
            Gesture { left_press: None, key_timer: None, supports_key_release: true, ..self },
            self.reveal_at(cursor),
        )
    }

    /// The tracker after the key that chords went up, and what that asks of the board.
    pub open spec fn chord_key_up(self) -> (Gesture, Option<Intent>) {
        (
            match self.chord_active {
                Some(_) => Gesture { key_timer: None, supports_key_release: true, ..self.released() },
                None => Gesture { key_timer: None, supports_key_release: true, ..self },
            },
            self.chord_armed(),
        )
    }

    /// The tracker after time has passed, and what that asks of the board: a
    /// release that is due is made up.
    pub open spec fn ticked(self, cursor: (usize, usize), now: u64) -> (Gesture, Option<Intent>) {
        if !self.timer_due(now) {
            (self, None)
        } else {
            match self.key_timer {
                Some((_, HeldKey::Reveal)) => (
                    Gesture { left_press: None, key_timer: None, ..self },
                    self.reveal_at(cursor),
                ),
                Some((_, HeldKey::Chord)) => (
                    Gesture { key_timer: None, ..self.released() },
                    self.chord_armed(),
                ),
                None => (self, None),
            }
        }
    }

    /// The tracker at rest.
    pub fn idle(supports_key_release: bool) -> (g: Gesture)
        ensures
            g == Gesture::spec_idle(supports_key_release),
    {
        Gesture {
            left_press: None,
            right_press: None,
            chord_active: None,
            key_timer: None,
            supports_key_release,
        }
    }

    /// Brings the tracker to rest: no button down, no chord armed, no release to
    /// make up.
    pub fn reset(&mut self, supports_key_release: bool)
        ensures
            *final(self) == Gesture::spec_idle(supports_key_release),
    {
        *self = Gesture::idle(supports_key_release);
    }

    /// The primary button goes down on a cell. Where the secondary button is down
    /// on the same cell a chord is armed there; else the press is remembered.
    pub fn press_primary(&mut self, cell: (usize, usize))
        ensures
            *final(self) == old(self).primary_down(cell),
    {
        if is_pressed_on(self.right_press, cell) {
            self.chord_active = Some(cell);
        } else {
            self.left_press = Some(cell);
        }
    }

    /// The secondary button goes down on a cell. Where the primary button is down
    /// on the same cell a chord is armed there and nothing is asked of the board;
    /// else the press is remembered and the mark of the cell is to be cycled at once.
    pub fn press_secondary(&mut self, cell: (usize, usize)) -> (intent: Option<Intent>)
        ensures
            (*final(self), intent) == old(self).secondary_down(cell),
    {
        if is_pressed_on(self.left_press, cell) {
            self.chord_active = Some(cell);
            None
        } else {
            self.right_press = Some(cell);
            Some(Intent::Flag(cell.0, cell.1))
        }
    }

    /// The primary button goes up, over the cell `at` if it is over one. An armed
    /// chord is resolved at the cell it was armed on, wherever the button goes up,
    /// and the tracker comes to rest. Without a chord the cell is revealed if the
    /// button went down on that very cell; else the press is dropped.
    pub fn release_primary(&mut self, at: Option<(usize, usize)>) -> (intent: Option<Intent>)
        ensures
            (*final(self), intent) == old(self).primary_up(at),
    {
        match self.chord_active {
            Some(armed) => {
                self.chord_active = None;
                self.left_press = None;
                self.right_press = None;
                Some(Intent::Chord(armed.0, armed.1))
            },
            None => {
                let origin = self.left_press;
                self.left_press = None;
                match at {
                    Some(cell) => {
                        if is_pressed_on(origin, cell) {
                            Some(Intent::Reveal(cell.0, cell.1))
                        } else {
                            None
                        }
                    },
                    None => None,
                }
            },
        }
    }

    /// The secondary button goes up. An armed chord is resolved at the cell it was
    /// armed on and the tracker comes to rest; without a chord the press is dropped.
    pub fn release_secondary(&mut self) -> (intent: Option<Intent>)
        ensures
            (*final(self), intent) == old(self).secondary_up(),
    {
        match self.chord_active {
            Some(armed) => {
                self.chord_active = None;
                self.left_press = None;
                self.right_press = None;
                Some(Intent::Chord(armed.0, armed.1))
            },
            None => {
                self.right_press = None;
                None
            },
        }
    }

    /// The key that reveals goes down at the time `now`, with the cursor on
    /// `cursor`: the primary button is taken as down there. On a terminal that
    /// does not report releases, one is to be made up later.
    pub fn press_reveal_key(&mut self, cursor: (usize, usize), now: u64)
        ensures
            *final(self) == old(self).reveal_key_down(cursor, now),
    {
        self.left_press = Some(cursor);
        if !self.supports_key_release {
            self.key_timer = Some((now, HeldKey::Reveal));
        }
    }

    /// The key that chords goes down at the time `now`, with the cursor on `cursor`:
    /// both buttons are taken as down there, so a chord is armed.
    pub fn press_chord_key(&mut self, cursor: (usize, usize), now: u64)
        ensures
            *final(self) == old(self).chord_key_down(cursor, now),
    {
        self.left_press = Some(cursor);
        self.right_press = Some(cursor);
        self.chord_active = Some(cursor);
        if !self.supports_key_release {
            self.key_timer = Some((now, HeldKey::Chord));
        }
    }

    /// The key that reveals goes up, with the cursor on `cursor`: the cell is
    /// revealed if the key went down with the cursor on it. The terminal is now
    /// known to report releases, and none is made up any more.
    pub fn release_reveal_key(&mut self, cursor: (usize, usize)) -> (intent: Option<Intent>)
        ensures
            (*final(self), intent) == old(self).reveal_key_up(cursor),
    {
        let origin = self.left_press;
        self.left_press = None;
        self.key_timer = None;
        self.supports_key_release = true;
        if is_pressed_on(origin, cursor) {
            Some(Intent::Reveal(cursor.0, cursor.1))
        } else {
            None
        }
    }

    /// The key that chords goes up: an armed chord is resolved at the cell it was
    /// armed on, and the buttons are taken as up. The terminal is now known to
    /// report releases.
    pub fn release_chord_key(&mut self) -> (intent: Option<Intent>)
        ensures
            (*final(self), intent) == old(self).chord_key_up(),
    {
        let armed = self.chord_active;
        self.key_timer = None;
        self.supports_key_release = true;
        match armed {
            Some(cell) => {
                self.chord_active = None;
                self.left_press = None;
                self.right_press = None;
                Some(Intent::Chord(cell.0, cell.1))
            },
            None => None,
        }
    }

    /// Time passes: at `now`, with the cursor on `cursor`. Where the release of a
    /// key is to be made up and the delay is over, it is made up: for the key that
    /// reveals, as a release over the cursor's cell; for the key that chords, as a
    /// release that resolves the armed chord and takes the buttons as up.
    pub fn tick(&mut self, cursor: (usize, usize), now: u64) -> (intent: Option<Intent>)
        ensures
            (*final(self), intent) == old(self).ticked(cursor, now),
    {
        match self.key_timer {
            Some((since, key)) => {
                if now < since || now - since < KEY_RELEASE_DELAY_MS {
                    return None;
                }
                self.key_timer = None;
                match key {
                    HeldKey::Reveal => {
                        let origin = self.left_press;
                        self.left_press = None;
                        if is_pressed_on(origin, cursor) {
                            Some(Intent::Reveal(cursor.0, cursor.1))
                        } else {
                            None
                        }
                    },
                    HeldKey::Chord => {
                        let armed = self.chord_active;
                        self.chord_active = None;
                        self.left_press = None;
                        self.right_press = None;
                        match armed {
                            Some(cell) => Some(Intent::Chord(cell.0, cell.1)),
                            None => None,
                        }
                    },
                }
            },
            None => None,
        }
    }
}

/// A click reveals the cell it began on and no other: after the primary button
/// went down on a cell with no chord armed and the secondary button not down on that
/// cell, its going up asks for a reveal of that cell where it goes up over it, and
/// for nothing where it goes up elsewhere. Either way the press is over.
pub proof fn lemma_click_reveals_its_cell(
    g: Gesture,
    down: (usize, usize),
    up: Option<(usize, usize)>,
)
    requires
        g.chord_active.is_none(),
        !pressed_on(g.right_press, down),
    ensures
        g.primary_down(down).primary_up(up).1 == if up == Some(down) {
            Some(Intent::Reveal(down.0, down.1))
        } else {
            None
        },
        g.primary_down(down).primary_up(up).0.left_press.is_none(),
{
}

/// Both buttons down on one cell arm a chord, in either order, and the first
/// button to go up resolves it at that cell, wherever the pointer is by then; the
/// tracker is then at rest.
pub proof fn lemma_both_buttons_chord(g: Gesture, cell: (usize, usize), up: Option<(usize, usize)>)
    requires
        g.chord_active.is_none(),
        g.left_press.is_none(),
        g.right_press.is_none(),
    ensures
        g.primary_down(cell).secondary_down(cell).0.primary_up(up).1 == Some(
            Intent::Chord(cell.0, cell.1),
        ),
        g.primary_down(cell).secondary_down(cell).0.secondary_up().1 == Some(
            Intent::Chord(cell.0, cell.1),
        ),
        g.secondary_down(cell).0.primary_down(cell).primary_up(up).1 == Some(
            Intent::Chord(cell.0, cell.1),
        ),
        g.secondary_down(cell).0.primary_down(cell).secondary_up().1 == Some(
            Intent::Chord(cell.0, cell.1),
        ),
        g.primary_down(cell).secondary_down(cell).0.primary_up(up).0 == g.released(),
        g.secondary_down(cell).0.primary_down(cell).secondary_up().0 == g.released(),
{
}

/// The key that reveals does what the primary button does, and the key that chords
/// what both buttons do: held and let go with the cursor on one cell, the one asks
/// for a reveal of that cell and the other for a chord at it, whether the terminal
/// reports the release or it is made up after the delay.
pub proof fn lemma_keys_stand_for_buttons(g: Gesture, cursor: (usize, usize), now: u64, later: u64)
    requires
        later - now >= KEY_RELEASE_DELAY_MS,
    ensures
        g.reveal_key_down(cursor, now).reveal_key_up(cursor).1 == Some(
            Intent::Reveal(cursor.0, cursor.1),
        ),
        g.chord_key_down(cursor, now).chord_key_up().1 == Some(Intent::Chord(cursor.0, cursor.1)),
        !g.supports_key_release ==> g.reveal_key_down(cursor, now).ticked(cursor, later).1 == Some(
            Intent::Reveal(cursor.0, cursor.1),
        ),
        !g.supports_key_release ==> g.chord_key_down(cursor, now).ticked(cursor, later).1 == Some(
            Intent::Chord(cursor.0, cursor.1),
        ),
{
}

} // verus!
