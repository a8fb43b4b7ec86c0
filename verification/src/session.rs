//! The session: one board in play, the gesture tracker and the modal controller,
//! and what each event of the input makes of them.

use vstd::prelude::*;
use crate::board::{Board, ChordResult, Outcome};
use crate::config::{Config, ConfigView};
use crate::difficulty::Difficulty;
use crate::event::{Button, InputEvent, Key};
use crate::game::Game;
use crate::geometry::{cell_at, cell_at_spec};
use crate::gesture::{Gesture, Intent};
use crate::laws::{lemma_chord_keeps_wf, lemma_reveal_all_keeps_wf};
use crate::layout::{
    as_columns, columns_of, exit_label, exit_label_hit, menu_found, menu_hit, on_exit_label,
    Layout,
};
use crate::modal::{sound, Command, Modal, ModalView, Overlay};
use crate::text::display_width;

verus! {

/// What the caller is to do after an event.
#[derive(Clone, Copy, Debug, PartialEq, Eq, Structural)]
pub struct Effects {
    /// The configuration has changed and is to be stored.
    pub save_config: bool,
    /// The session is over.
    pub quit: bool,
    /// The choice between the two sets of icons may have changed.
    pub glyphs_changed: bool,
}

impl Effects {
    /// Nothing to do.
    pub open spec fn nothing() -> Effects {
        Effects { save_config: false, quit: false, glyphs_changed: false }
    }

    /// The configuration is to be stored.
    pub open spec fn save() -> Effects {
        Effects { save_config: true, quit: false, glyphs_changed: false }
    }

    /// The session is over.
    pub open spec fn leave() -> Effects {
        Effects { save_config: false, quit: true, glyphs_changed: false }
    }
}

/// Whether a board of this difficulty can be played: it has a cell, and its cells
/// and its mines can be counted.
pub open spec fn playable(d: Difficulty) -> bool {
    &&& 1 <= d.spec_params().0
    &&& 1 <= d.spec_params().1
    &&& d.spec_params().0 * d.spec_params().1 <= isize::MAX
    &&& d.spec_params().2 <= isize::MAX
}

/// The three presets can be played.
pub proof fn lemma_presets_playable()
    ensures
        playable(Difficulty::Beginner),
        playable(Difficulty::Intermediate),
        playable(Difficulty::Expert),
{
    assert(9 * 9 <= isize::MAX && 16 * 16 <= isize::MAX && 30 * 16 <= isize::MAX);
}

/// Whether a board of this difficulty can be played.
pub fn is_playable(d: &Difficulty) -> (ok: bool)
    ensures
        ok == playable(*d),
{
    let (w, h, n) = d.params();
    if w == 0 || h == 0 {
        return false;
    }
    let limit: u128 = isize::MAX as u128;
    assert(w * h <= 0xffff_ffff_ffff_ffff * 0xffff_ffff_ffff_ffff) by (nonlinear_arith)
        requires
            0 <= w <= 0xffff_ffff_ffff_ffff,
            0 <= h <= 0xffff_ffff_ffff_ffff,
    ;
    (w as u128) * (h as u128) <= limit && (n as u128) <= limit
}

/// What the pointer does: it moves, or one of its buttons goes down or up.
#[derive(Clone, Copy, Debug, PartialEq, Eq, Structural)]
pub enum Pointer {
    Move,
    Down(Button),
    Up(Button),
}

/// The session as a value.
pub struct SessionView {
    pub board: Board,
    /// The time that the game took, as the clock had it when the game ended: the
    /// whole seconds, and whether any time had passed at all.
    pub clock: (u64, bool),
    pub gesture: Gesture,
    pub modal: ModalView,
    /// Whether the terminal is known from the start to report the release of a key.
    pub platform_key_release: bool,
    /// The cell that the cursor's indicator is drawn on.
    pub cursor_indicator: Option<(usize, usize)>,
    /// The cell that flashes after a chord that did not fit, and since when.
    pub flash_cell: Option<((usize, usize), u64)>,
    /// The item of the menu that was clicked, and when.
    pub clicked: Option<(usize, u64)>,
    /// The item of the menu under the pointer.
    pub hover_index: Option<usize>,
    /// Whether the game just won set a new best time.
    pub new_record: bool,
    /// Whether the exit label of the status bar is held down.
    pub exit_down: bool,
    /// Whether the pointer is over the exit label of the status bar.
    pub exit_hovered: bool,
}

/// How long the click on an item of the menu is shown, in milliseconds.
pub const CLICK_SHOWN_MS: u64 = 200;

impl SessionView {
    /// The invariant of the session: a valid board with a cell on it, that the
    /// engine can hold, and a valid controller.
    pub open spec fn wf(self) -> bool {
        &&& self.board.wf()
        &&& self.board.w > 0
        &&& self.board.h > 0
        &&& self.modal.wf()
    }

    /// The session at its start, on a board of the difficulty in use.
    pub open spec fn initial(cfg: ConfigView, key_release: bool) -> SessionView {
        SessionView {
            board: Board::blank(
                cfg.difficulty.spec_params().0 as int,
                cfg.difficulty.spec_params().1 as int,
                cfg.difficulty.spec_params().2 as int,
            ),
            clock: (0u64, false),
            gesture: Gesture::spec_idle(key_release),
            modal: ModalView::initial(cfg.difficulty.spec_index()),
            platform_key_release: key_release,
            cursor_indicator: Some((0usize, 0usize)),
            flash_cell: None,
            clicked: None,
            hover_index: None,
            new_record: false,
            exit_down: false,
            exit_hovered: false,
        }
    }

    /// Whether `after`, `cfg_after` and `effects` are what the passing of time can
    /// make of the session and the configuration, where `date` is the day and `mid`
    /// the session before the click on the menu fades.
    pub open spec fn ticked_with(
        self,
        cfg: ConfigView,
        date: Seq<char>,
        mid: SessionView,
        now: u64,
        after: SessionView,
        cfg_after: ConfigView,
        effects: Effects,
    ) -> bool {
        let first = if self.board.outcome == Outcome::Won && self.clock.1 {
            self.won_in(cfg, self.clock.0, date)
        } else {
            (self, cfg, Effects::nothing())
        };
        let turn = if first.0.modal.overlay.is_some() {
            (first.0.gesture, None)
        } else {
            first.0.gesture.ticked(first.0.cursor(), now)
        };
        let base = SessionView { gesture: turn.0, ..first.0 };
        &&& cfg_after == first.1
        &&& effects == first.2
        &&& base.applied(cfg_after, turn.1, now, mid)
        &&& after == mid.click_faded(now)
    }

    /// Whether `after`, `cfg_after` and `effects` are what the passing of time can
    /// make of the session and the configuration. A game that is won and took some
    /// time is noted: a new best time is kept, dated with the day. In play, a
    /// release that the tracker is to make up is made up and done. And the click on
    /// the menu fades.
    pub open spec fn ticked(
        self,
        cfg: ConfigView,
        now: u64,
        after: SessionView,
        cfg_after: ConfigView,
        effects: Effects,
    ) -> bool {
        exists|date: Seq<char>, mid: SessionView| #[trigger]
            self.ticked_with(cfg, date, mid, now, after, cfg_after, effects)
    }

    /// The cell of the cursor.
    pub open spec fn cursor(self) -> (usize, usize) {
        (self.board.cursor.0 as usize, self.board.cursor.1 as usize)
    }

    /// The session with a new game on a board of the difficulty `d`: the tracker at
    /// rest, no overlay, and nothing left of the game before.
    pub open spec fn restarted(self, d: Difficulty) -> SessionView {
        SessionView {
            board: Board::blank(
                d.spec_params().0 as int,
                d.spec_params().1 as int,
                d.spec_params().2 as int,
            ),
            clock: (0u64, false),
            gesture: Gesture::spec_idle(self.platform_key_release),
            modal: self.modal.cleared(),
            cursor_indicator: Some((0usize, 0usize)),
            flash_cell: None,
            clicked: None,
            hover_index: None,
            new_record: false,
            exit_down: false,
            ..self
        }
    }

    /// The session with an overlay opened: the tracker comes to rest.
    pub open spec fn opening(self, overlay: Overlay, cfg: ConfigView) -> SessionView {
        SessionView {
            modal: self.modal.opened(overlay, cfg),
            gesture: Gesture::spec_idle(self.gesture.supports_key_release),
            ..self
        }
    }

    /// The session after a move has made the board `b`: a game lost shows every
    /// mine and the banner of the loss, a game won shows the banner of the win, and
    /// with either the tracker comes to rest.
    pub open spec fn settled(self, b: Board) -> SessionView {
        match b.outcome {
            Outcome::Ongoing => SessionView { board: b, ..self },
            Outcome::Won => SessionView {
                board: b,
                modal: self.modal.showing(Overlay::Win),
                gesture: Gesture::spec_idle(self.gesture.supports_key_release),
                ..self
            },
            Outcome::Lost => SessionView {
                board: b.reveal_all_mines(),
                modal: self.modal.showing(Overlay::Loss),
                gesture: Gesture::spec_idle(self.gesture.supports_key_release),
                ..self
            },
        }
    }

    /// Whether `after` is what the session can be after a move has made the board
    /// `b` and the clock of the game reads `clock`: the clock reads as before unless
    /// the move has ended the game, and the session is settled.
    pub open spec fn moved(self, b: Board, clock: (u64, bool), after: SessionView) -> bool {
        &&& b.outcome == self.board.outcome ==> clock == self.clock
        &&& after == (SessionView { clock, ..self.settled(b) })
    }

    /// Whether `after` is what the session can be after the tracker has asked
    /// `intent` of the board at the time `now`. A cell off the board is passed
    /// over. A reveal is that of the board and is settled; a chord that does not
    /// fit makes its cell flash, any other chord is settled; a mark is cycled as
    /// the options say.
    pub open spec fn applied(
        self,
        cfg: ConfigView,
        intent: Option<Intent>,
        now: u64,
        after: SessionView,
    ) -> bool {
        match intent {
            None => after == self,
            Some(Intent::Reveal(x, y)) => if self.board.has(x as int, y as int) {
                exists|b: Board, clock: (u64, bool)|
                    self.board.reveal_gives(b, x as int, y as int) && #[trigger] self.moved(
                        b,
                        clock,
                        after,
                    )
            } else {
                after == self
            },
            Some(Intent::Chord(x, y)) => if self.board.has(x as int, y as int) {
                if self.board.chord_result(x as int, y as int) == ChordResult::Flash {
                    after == (SessionView { flash_cell: Some(((x, y), now)), ..self })
                } else {
                    exists|clock: (u64, bool)| #[trigger]
                        self.moved(self.board.chord(x as int, y as int), clock, after)
                }
            } else {
                after == self
            },
            Some(Intent::Flag(x, y)) => if self.board.has(x as int, y as int) {
                after == (SessionView {
                    board: self.board.toggle_flag(x as int, y as int, cfg.use_question_marks),
                    ..self
                })
            } else {
                after == self
            },
        }
    }

    /// What a command of the modal controller makes of the session and of the
    /// configuration. A difficulty that was chosen is kept and a new game begun on
    /// it; options that were accepted are kept; a banner that was closed begins a
    /// new game on the difficulty in use.
    pub open spec fn commanded(
        self,
        command: Command,
        cfg: ConfigView,
    ) -> (SessionView, ConfigView, Effects) {
        match command {
            Command::Stay => (self, cfg, Effects::nothing()),
            Command::Closed => (SessionView { hover_index: None, ..self }, cfg, Effects::nothing()),
            Command::ApplyPreset(i) => {
                let d = match i {
                    0 => Difficulty::Beginner,
                    1 => Difficulty::Intermediate,
                    _ => Difficulty::Expert,
                };
                (self.restarted(d), ConfigView { difficulty: d, ..cfg }, Effects::save())
            },
            Command::ApplyCustom(w, h, n) => {
                let d = Difficulty::Custom(w, h, n);
                (
                    self.restarted(d),
                    ConfigView { difficulty: d, custom_w: w, custom_h: h, custom_n: n, ..cfg },
                    Effects::save(),
                )
            },
            Command::ApplyOptions(indicator, question, ascii) => (
                SessionView { hover_index: None, ..self },
                ConfigView {
                    show_indicator: indicator,
                    use_question_marks: question,
                    ascii_icons: ascii,
                    ..cfg
                },
                Effects { save_config: true, quit: false, glyphs_changed: true },
            ),
            Command::Restart => (self.restarted(cfg.difficulty), cfg, Effects::nothing()),
        }
    }

    /// The session with the cursor moved by `(dx, dy)`, and its indicator with it.
    pub open spec fn stepped(self, dx: int, dy: int) -> SessionView {
        let b = self.board.step_cursor(dx, dy);
        SessionView {
            board: b,
            cursor_indicator: Some((b.cursor.0 as usize, b.cursor.1 as usize)),
            ..self
        }
    }

    /// What a key that goes down does while no overlay is open.
    pub open spec fn play_key(
        self,
        key: Key,
        ctrl: bool,
        cfg: ConfigView,
        now: u64,
    ) -> (SessionView, Effects) {
        match key {
            Key::Esc => (self, Effects::leave()),
            Key::F(n) => (
                if n == 1 {
                    self.opening(Overlay::Help, cfg)
                } else if n == 2 {
                    self.restarted(cfg.difficulty)
                } else if n == 4 {
                    self.opening(Overlay::Records, cfg)
                } else if n == 5 {
                    self.opening(Overlay::Difficulty, cfg)
                } else if n == 7 {
                    self.opening(Overlay::Options, cfg)
                } else if n == 9 {
                    self.opening(Overlay::About, cfg)
                } else {
                    self
                },
                Effects::nothing(),
            ),
            Key::Char(c) => (
                if c == 'o' && ctrl {
                    self.opening(Overlay::Difficulty, cfg)
                } else if c == ' ' {
                    SessionView { gesture: self.gesture.reveal_key_down(self.cursor(), now), ..self }
                } else if c == 'f' || c == 'F' {
                    SessionView {
                        board: self.board.toggle_flag(
                            self.board.cursor.0,
                            self.board.cursor.1,
                            cfg.use_question_marks,
                        ),
                        ..self
                    }
                } else {
                    self
                },
                Effects::nothing(),
            ),
            Key::Left => (self.stepped(-1, 0), Effects::nothing()),
            Key::Right => (self.stepped(1, 0), Effects::nothing()),
            Key::Up => (self.stepped(0, -1), Effects::nothing()),
            Key::Down => (self.stepped(0, 1), Effects::nothing()),
            Key::Enter => (
                SessionView { gesture: self.gesture.chord_key_down(self.cursor(), now), ..self },
                Effects::nothing(),
            ),
            _ => (self, Effects::nothing()),
        }
    }

    /// What a key that goes down does: on an open overlay what the modal controller
    /// makes of it, else what it does in play.
    pub open spec fn on_key_press(self, key: Key, ctrl: bool, cfg: ConfigView, now: u64) -> (
        SessionView,
        ConfigView,
        Effects,
    ) {
        if self.modal.overlay.is_some() {
            let turn = self.modal.on_key(key, cfg, now);
            SessionView { modal: turn.0, ..self }.commanded(turn.1, cfg)
        } else {
            (self.play_key(key, ctrl, cfg, now).0, cfg, self.play_key(key, ctrl, cfg, now).1)
        }
    }

    /// Whether `after` is what the session can be after a key went up. An overlay
    /// takes no release. In play the key that reveals and the key that chords are
    /// let go, and what the tracker asks is done.
    pub open spec fn key_released(
        self,
        key: Key,
        cfg: ConfigView,
        now: u64,
        after: SessionView,
    ) -> bool {
        if self.modal.overlay.is_some() {
            after == self
        } else {
            match key {
                Key::Char(c) => if c == ' ' {
                    let turn = self.gesture.reveal_key_up(self.cursor());
                    SessionView { gesture: turn.0, ..self }.applied(cfg, turn.1, now, after)
                } else {
                    after == self
                },
                Key::Enter => {
                    let turn = self.gesture.chord_key_up();
                    SessionView { gesture: turn.0, ..self }.applied(cfg, turn.1, now, after)
                },
                _ => after == self,
            }
        }
    }

    /// What the pointer does on an open overlay.
    pub open spec fn modal_pointer(
        self,
        pointer: Pointer,
        layout: Layout,
        col: int,
        row: int,
        cfg: ConfigView,
        now: u64,
    ) -> (
        SessionView,
        ConfigView,
        Effects,
    ) {
        let turn = match pointer {
            Pointer::Move => (self.modal.on_move(layout, col, row), Command::Stay),
            Pointer::Down(Button::Left) => self.modal.on_left_down(layout, cfg, col, row),
            Pointer::Down(Button::Right) => self.modal.on_right_down(layout, cfg),
            Pointer::Down(Button::Middle) => (self.modal, Command::Stay),
            Pointer::Up(_) => self.modal.on_up(layout, col, row, now),
        };
        SessionView { modal: turn.0, ..self }.commanded(turn.1, cfg)
    }

    /// What choosing an item of the menu does.
    pub open spec fn menu_chosen(self, item: usize, cfg: ConfigView) -> SessionView {
        if item == 0 {
            self.opening(Overlay::Help, cfg)
        } else if item == 1 {
            self.restarted(cfg.difficulty)
        } else if item == 2 {
            self.opening(Overlay::Records, cfg)
        } else if item == 3 {
            self.opening(Overlay::Difficulty, cfg)
        } else if item == 4 {
            self.opening(Overlay::Options, cfg)
        } else if item == 5 {
            self.opening(Overlay::About, cfg)
        } else {
            self
        }
    }

    /// What the pointer does on the menu bar, and whether the bar has taken the
    /// event. On the row of the bar a move hovers the item under it, the primary
    /// button chooses the item under it, and a button going up is taken. Off the
    /// row a move ends the hover.
    pub open spec fn menu_pointer(
        self,
        pointer: Pointer,
        layout: Layout,
        col: int,
        row: int,
        cfg: ConfigView,
        now: u64,
    ) -> (
        SessionView,
        bool,
    ) {
        match layout.menu {
            Some(menu) => if row == menu.y + 1 {
                match pointer {
                    Pointer::Move => (
                        SessionView {
                            hover_index: menu_found(menu, col, row),
                            cursor_indicator: None,
                            ..self
                        },
                        true,
                    ),
                    Pointer::Down(Button::Left) => match menu_found(menu, col, row) {
                        Some(item) => (
                            SessionView { clicked: Some((item, now)), ..self }.menu_chosen(item, cfg),
                            true,
                        ),
                        None => (self, false),
                    },
                    Pointer::Down(_) => (self, false),
                    Pointer::Up(_) => (self, true),
                }
            } else if pointer == Pointer::Move {
                (SessionView { hover_index: None, ..self }, false)
            } else {
                (self, false)
            },
            None => (self, false),
        }
    }

    /// What the pointer does on the status bar, and whether the session is to end.
    /// On the row of the bar the exit label is hovered by a move over it, armed by
    /// the primary button going down on it, and ends the session when that button
    /// goes up on it while it is armed. Off the row the label is not hovered.
    pub open spec fn status_pointer(self, pointer: Pointer, layout: Layout, col: int, row: int) -> (
        SessionView,
        bool,
    ) {
        match layout.status {
            Some(status) => if row == status.y + 1 {
                let over = on_exit_label(
                    status,
                    layout.status_text_width as int,
                    as_columns(display_width("Esc: Exit"@) as int) as int,
                    col,
                    row,
                );
                match pointer {
                    Pointer::Move => (SessionView { exit_hovered: over, ..self }, false),
                    Pointer::Down(Button::Left) => (
                        SessionView { exit_down: self.exit_down || over, ..self },
                        false,
                    ),
                    Pointer::Up(Button::Left) => (
                        SessionView { exit_down: false, ..self },
                        self.exit_down && over,
                    ),
                    _ => (self, false),
                }
            } else {
                (SessionView { exit_hovered: false, ..self }, false)
            },
            None => (self, false),
        }
    }

    /// What the pointer does on the board, and what the tracker then asks of the
    /// board. A move over a cell puts the cursor there. The buttons go down on
    /// the cell under the pointer, if there is one, and go up wherever it is.
    pub open spec fn board_pointer(self, pointer: Pointer, layout: Layout, col: int, row: int) -> (
        SessionView,
        Option<Intent>,
    ) {
        match layout.board {
            Some(area) => {
                let cell = cell_at_spec(area, col, row, self.board.w, self.board.h);
                match pointer {
                    Pointer::Move => match cell {
                        Some(c) => (
                            SessionView {
                                board: Board { cursor: (c.0 as int, c.1 as int), ..self.board },
                                cursor_indicator: Some(c),
                                ..self
                            },
                            None,
                        ),
                        None => (self, None),
                    },
                    Pointer::Down(Button::Left) => match cell {
                        Some(c) => (SessionView { gesture: self.gesture.primary_down(c), ..self }, None),
                        None => (self, None),
                    },
                    Pointer::Down(Button::Right) => match cell {
                        Some(c) => (
                            SessionView { gesture: self.gesture.secondary_down(c).0, ..self },
                            self.gesture.secondary_down(c).1,
                        ),
                        None => (self, None),
                    },
                    Pointer::Up(Button::Left) => (
                        SessionView { gesture: self.gesture.primary_up(cell).0, ..self },
                        self.gesture.primary_up(cell).1,
                    ),
                    Pointer::Up(Button::Right) => (
                        SessionView { gesture: self.gesture.secondary_up().0, ..self },
                        self.gesture.secondary_up().1,
                    ),
                    _ => (self, None),
                }
            },
            None => (self, None),
        }
    }

    /// Whether `after` with `effects` is what the pointer can make of the session
    /// in play. The menu bar comes first; what it does not take goes to the status
    /// bar and to the board, and what the tracker then asks of the board is done.
    pub open spec fn play_pointer(
        self,
        pointer: Pointer,
        layout: Layout,
        col: int,
        row: int,
        cfg: ConfigView,
        now: u64,
        after: SessionView,
        effects: Effects,
    ) -> bool {
        let menu = self.menu_pointer(pointer, layout, col, row, cfg, now);
        if menu.1 {
            after == menu.0 && effects == Effects::nothing()
        } else {
            let status = menu.0.status_pointer(pointer, layout, col, row);
            let board = status.0.board_pointer(pointer, layout, col, row);
            &&& effects == (Effects { quit: status.1, ..Effects::nothing() })
            &&& board.0.applied(cfg, board.1, now, after)
        }
    }

    /// Whether `after`, `cfg_after` and `effects` are what an event of the input
    /// at the time `now` can make of the session and the configuration. While an
    /// overlay is open every event goes to the modal controller; else to the play.
    pub open spec fn handled(
        self,
        cfg: ConfigView,
        layout: Layout,
        event: InputEvent,
        now: u64,
        after: SessionView,
        cfg_after: ConfigView,
        effects: Effects,
    ) -> bool {
        match event {
            InputEvent::KeyPress { key, ctrl } => (after, cfg_after, effects) == self.on_key_press(
                key,
                ctrl,
                cfg,
                now,
            ),
            InputEvent::KeyRelease { key } => {
                &&& cfg_after == cfg
                &&& effects == Effects::nothing()
                &&& self.key_released(key, cfg, now, after)
            },
            InputEvent::MouseMove { col, row } => self.pointed(
                Pointer::Move,
                layout,
                col as int,
                row as int,
                cfg,
                now,
                after,
                cfg_after,
                effects,
            ),
            InputEvent::MouseDown { button, col, row } => self.pointed(
                Pointer::Down(button),
                layout,
                col as int,
                row as int,
                cfg,
                now,
                after,
                cfg_after,
                effects,
            ),
            InputEvent::MouseUp { button, col, row } => self.pointed(
                Pointer::Up(button),
                layout,
                col as int,
                row as int,
                cfg,
                now,
                after,
                cfg_after,
                effects,
            ),
        }
    }

    /// Whether `after`, `cfg_after` and `effects` are what the pointer can make of
    /// the session and the configuration.
    pub open spec fn pointed(
        self,
        pointer: Pointer,
        layout: Layout,
        col: int,
        row: int,
        cfg: ConfigView,
        now: u64,
        after: SessionView,
        cfg_after: ConfigView,
        effects: Effects,
    ) -> bool {
        if self.modal.overlay.is_some() {
            (after, cfg_after, effects) == self.modal_pointer(pointer, layout, col, row, cfg, now)
        } else {
            cfg_after == cfg && self.play_pointer(pointer, layout, col, row, cfg, now, after, effects)
        }
    }

    /// What keeping a game won in `secs` seconds and ended on `date` makes of the
    /// session and the configuration: a new best time is kept and noted.
    pub open spec fn won_in(
        self,
        cfg: ConfigView,
        secs: u64,
        date: Seq<char>,
    ) -> (SessionView, ConfigView, Effects) {
        if cfg.beats(cfg.difficulty, secs) {
            (
                SessionView { new_record: true, ..self },
                cfg.record(cfg.difficulty, secs, date),
                Effects::save(),
            )
        } else {
            (self, cfg, Effects::nothing())
        }
    }

    /// The session with the click on the menu no longer shown, once it has
    /// been shown long enough.
    pub open spec fn click_faded(self, now: u64) -> SessionView {
        match self.clicked {
            Some(click) => if now - click.1 > CLICK_SHOWN_MS {
                SessionView { clicked: None, ..self }
            } else {
                self
            },
            None => self,
        }
    }

    /// The session after a frame was drawn: the indicator is on the cursor's cell,
    /// and without an overlay no button of one is hovered or held.
    pub open spec fn drawn(self) -> SessionView {
        SessionView {
            cursor_indicator: Some(self.cursor()),
            modal: if self.modal.overlay.is_none() {
                self.modal.at_rest()
            } else {
                self.modal
            },
            ..self
        }
    }
}

/// One session of play.
pub struct Session {
    game: Game,
    gesture: Gesture,
    modal: Modal,
    platform_key_release: bool,
    cursor_indicator: Option<(usize, usize)>,
    flash_cell: Option<((usize, usize), u64)>,
    clicked: Option<(usize, u64)>,
    hover_index: Option<usize>,
    new_record: bool,
    exit_down: bool,
    exit_hovered: bool,
}

impl View for Session {
    type V = SessionView;

    closed spec fn view(&self) -> SessionView {
        SessionView {
            board: self.game@,
            clock: self.game.clock(),
            gesture: self.gesture,
            modal: self.modal@,
            platform_key_release: self.platform_key_release,
            cursor_indicator: self.cursor_indicator,
            flash_cell: self.flash_cell,
            clicked: self.clicked,
            hover_index: self.hover_index,
            new_record: self.new_record,
            exit_down: self.exit_down,
            exit_hovered: self.exit_hovered,
        }
    }
}

impl Session {
    /// The invariant of the session.
    pub closed spec fn wf(&self) -> bool {
        &&& self.game.wf()
        &&& self.modal.wf()
        &&& self@.wf()
    }

    /// A well-formed session shows a well-formed value.
    pub proof fn lemma_view_wf(&self)
        requires
            self.wf(),
        ensures
            self@.wf(),
    {
    }

    /// A session on a fresh board of the difficulty in use. `key_release` says
    /// whether the terminal is known to report the release of a key.
    pub fn new(cfg: &Config, key_release: bool) -> (session: Session)
        requires
            playable(cfg@.difficulty),
        ensures
            session.wf(),
            session@ == SessionView::initial(cfg@, key_release),
    {
        let (w, h, n) = cfg.difficulty.params();
        let game = Game::new(w, h, n);
        proof {
            game.lemma_view_wf();
        }
        Session {
            game,
            gesture: Gesture::idle(key_release),
            modal: Modal::new(cfg.difficulty.to_index()),
            platform_key_release: key_release,
            cursor_indicator: Some((0, 0)),
            flash_cell: None,
            clicked: None,
            hover_index: None,
            new_record: false,
            exit_down: false,
            exit_hovered: false,
        }
    }

    /// The board in play.
    pub fn game(&self) -> (game: &Game)
        ensures
            game@ == self@.board,
            game.clock() == self@.clock,
            self.wf() ==> game.wf(),
    {
        &self.game
    }

    /// The gesture tracker.
    pub fn gesture(&self) -> (gesture: Gesture)
        ensures
            gesture == self@.gesture,
    {
        self.gesture
    }

    /// The modal controller.
    pub fn modal(&self) -> (modal: &Modal)
        ensures
            modal@ == self@.modal,
    {
        &self.modal
    }

    /// The cell that the cursor's indicator is drawn on.
    pub fn cursor_indicator(&self) -> (cell: Option<(usize, usize)>)
        ensures
            cell == self@.cursor_indicator,
    {
        self.cursor_indicator
    }

    /// The cell that flashes after a chord that did not fit, and since when.
    pub fn flash_cell(&self) -> (flash: Option<((usize, usize), u64)>)
        ensures
            flash == self@.flash_cell,
    {
        self.flash_cell
    }

    /// The item of the menu that was clicked, and when.
    pub fn clicked(&self) -> (clicked: Option<(usize, u64)>)
        ensures
            clicked == self@.clicked,
    {
        self.clicked
    }

    /// The item of the menu under the pointer.
    pub fn hover_index(&self) -> (item: Option<usize>)
        ensures
            item == self@.hover_index,
    {
        self.hover_index
    }

    /// Whether the game just won set a new best time.
    pub fn new_record(&self) -> (new_record: bool)
        ensures
            new_record == self@.new_record,
    {
        self.new_record
    }

    /// Whether the exit label of the status bar is held down.
    pub fn exit_down(&self) -> (down: bool)
        ensures
            down == self@.exit_down,
    {
        self.exit_down
    }

    /// Whether the pointer is over the exit label of the status bar.
    pub fn exit_hovered(&self) -> (hovered: bool)
        ensures
            hovered == self@.exit_hovered,
    {
        self.exit_hovered
    }

    /// Begins a new game on a board of the difficulty `d`.
    fn restart(&mut self, d: &Difficulty)
        requires
            old(self).wf(),
            playable(*d),
        ensures
            final(self).wf(),
            final(self)@ == old(self)@.restarted(*d),
    {
        let (w, h, n) = d.params();
        self.game = Game::new(w, h, n);
        proof {
            self.game.lemma_view_wf();
        }
        self.gesture.reset(self.platform_key_release);
        self.modal.clear();
        self.cursor_indicator = Some((0, 0));
        self.flash_cell = None;
        self.clicked = None;
        self.hover_index = None;
        self.new_record = false;
        self.exit_down = false;
    }

    /// Opens an overlay and brings the tracker to rest.
    fn open_overlay(&mut self, overlay: Overlay, cfg: &Config)
        requires
            old(self).wf(),
        ensures
            final(self).wf(),
            final(self)@ == old(self)@.opening(overlay, cfg@),
    {
        self.modal.open(overlay, cfg);
        self.gesture.reset(self.gesture.supports_key_release);
    }

    /// Shows what a move has come to: the banner of a game that has ended, and
    /// every mine of a game lost.
    fn settle(&mut self)
        requires
            old(self).wf(),
        ensures
            final(self).wf(),
            final(self)@ == old(self)@.settled(old(self)@.board),
    {
        proof {
            self.game.lemma_view_wf();
            lemma_reveal_all_keeps_wf(self.game@);
        }
        match self.game.outcome() {
            Outcome::Ongoing => {},
            Outcome::Won => {
                self.modal.show(Overlay::Win);
                self.gesture.reset(self.gesture.supports_key_release);
            },
            Outcome::Lost => {
                self.game.reveal_all_mines();
                self.modal.show(Overlay::Loss);
                self.gesture.reset(self.gesture.supports_key_release);
            },
        }
    }

    /// Does what the tracker asks of the board, at the time `now`.
    pub fn apply(&mut self, cfg: &Config, intent: Option<Intent>, now: u64)
        requires
            old(self).wf(),
        ensures
            final(self).wf(),
            old(self)@.applied(cfg@, intent, now, final(self)@),
    {
        proof {
            self.game.lemma_view_wf();
        }
        let w = self.game.width();
        let h = self.game.height();
        match intent {
            None => {},
            Some(Intent::Reveal(x, y)) => {
                if x < w && y < h {
                    self.game.reveal_cell(x, y);
                    let ghost b = self.game@;
                    let ghost clock = self.game.clock();
                    proof {
                        self.game.lemma_view_wf();
                        assert(old(self)@.board.reveal_gives(b, x as int, y as int));
                        assert(b.w > 0 && b.h > 0);
                    }
                    self.settle();
                    assert(old(self)@.moved(b, clock, self@));
                }
            },
            Some(Intent::Chord(x, y)) => {
                if x < w && y < h {
                    proof {
                        lemma_chord_keeps_wf(self.game@, x as int, y as int);
                    }
                    let result = self.game.chord(x, y);
                    match result {
                        ChordResult::Flash => {
                            self.flash_cell = Some(((x, y), now));
                        },
                        _ => {
                            let ghost clock = self.game.clock();
                            proof {
                                self.game.lemma_view_wf();
                                lemma_chord_dims(old(self)@.board, x as int, y as int);
                            }
                            self.settle();
                            assert(old(self)@.moved(
                                old(self)@.board.chord(x as int, y as int),
                                clock,
                                self@,
                            ));
                        },
                    }
                }
            },
            Some(Intent::Flag(x, y)) => {
                if x < w && y < h {
                    self.game.toggle_flag(x, y, cfg.use_question_marks);
                    proof {
                        self.game.lemma_view_wf();
                    }
                }
            },
        }
    }

    /// Does what a command of the modal controller asks for.
    fn perform(&mut self, cfg: &mut Config, command: Command) -> (effects: Effects)
        requires
            old(self).wf(),
            sound(command),
            playable(old(cfg)@.difficulty),
        ensures
            final(self).wf(),
            playable(final(cfg)@.difficulty),
            (final(self)@, final(cfg)@, effects) == old(self)@.commanded(command, old(cfg)@),
    {
        match command {
            Command::Stay => Effects { save_config: false, quit: false, glyphs_changed: false },
            Command::Closed => {
                self.hover_index = None;
                Effects { save_config: false, quit: false, glyphs_changed: false }
            },
            Command::ApplyPreset(i) => {
                let d = match i {
                    0 => Difficulty::Beginner,
                    1 => Difficulty::Intermediate,
                    _ => Difficulty::Expert,
                };
                proof {
                    lemma_presets_playable();
                }
                cfg.difficulty = d;
                self.restart(&d);
                Effects { save_config: true, quit: false, glyphs_changed: false }
            },
            Command::ApplyCustom(w, h, n) => {
                let d = Difficulty::Custom(w, h, n);
                assert(w * h <= 864) by (nonlinear_arith)
                    requires
                        0 <= w <= 36,
                        0 <= h <= 24,
                ;
                cfg.custom_w = w;
                cfg.custom_h = h;
                cfg.custom_n = n;
                cfg.difficulty = d;
                self.restart(&d);
                Effects { save_config: true, quit: false, glyphs_changed: false }
            },
            Command::ApplyOptions(indicator, question, ascii) => {
                cfg.show_indicator = indicator;
                cfg.use_question_marks = question;
                cfg.ascii_icons = ascii;
                self.hover_index = None;
                Effects { save_config: true, quit: false, glyphs_changed: true }
            },
            Command::Restart => {
                let d = cfg.difficulty;
                self.restart(&d);
                Effects { save_config: false, quit: false, glyphs_changed: false }
            },
        }
    }

    /// Moves the cursor by one cell and its indicator with it.
    fn step(&mut self, dx: isize, dy: isize)
        requires
            old(self).wf(),
        ensures
            final(self).wf(),
            final(self)@ == old(self)@.stepped(dx as int, dy as int),
    {
        proof {
            self.game.lemma_view_wf();
        }
        self.game.step_cursor(dx, dy);
        proof {
            self.game.lemma_view_wf();
        }
        self.cursor_indicator = Some(self.game.cursor());
    }

    /// A key goes down while no overlay is open.
    fn key_in_play(&mut self, cfg: &Config, key: Key, ctrl: bool, now: u64) -> (effects: Effects)
        requires
            old(self).wf(),
            playable(cfg@.difficulty),
        ensures
            final(self).wf(),
            (final(self)@, effects) == old(self)@.play_key(key, ctrl, cfg@, now),
    {
        proof {
            self.game.lemma_view_wf();
        }
        let nothing = Effects { save_config: false, quit: false, glyphs_changed: false };
        let cursor = self.game.cursor();
        match key {
            Key::Esc => Effects { save_config: false, quit: true, glyphs_changed: false },
            Key::F(n) => {
                if n == 1 {
                    self.open_overlay(Overlay::Help, cfg);
                } else if n == 2 {
                    let d = cfg.difficulty;
                    self.restart(&d);
                } else if n == 4 {
                    self.open_overlay(Overlay::Records, cfg);
                } else if n == 5 {
                    self.open_overlay(Overlay::Difficulty, cfg);
                } else if n == 7 {
                    self.open_overlay(Overlay::Options, cfg);
                } else if n == 9 {
                    self.open_overlay(Overlay::About, cfg);
                }
                nothing
            },
            Key::Char(c) => {
                if c == 'o' && ctrl {
                    self.open_overlay(Overlay::Difficulty, cfg);
                } else if c == ' ' {
                    self.gesture.press_reveal_key(cursor, now);
                } else if c == 'f' || c == 'F' {
                    self.game.toggle_flag(cursor.0, cursor.1, cfg.use_question_marks);
                    proof {
                        self.game.lemma_view_wf();
                    }
                }
                nothing
            },
            Key::Left => {
                self.step(-1, 0);
                nothing
            },
            Key::Right => {
                self.step(1, 0);
                nothing
            },
            Key::Up => {
                self.step(0, -1);
                nothing
            },
            Key::Down => {
                self.step(0, 1);
                nothing
            },
            Key::Enter => {
                self.gesture.press_chord_key(cursor, now);
                nothing
            },
            _ => nothing,
        }
    }

    /// A key goes down, at the time `now`.
    pub fn key_press(
        &mut self,
        cfg: &mut Config,
        key: Key,
        ctrl: bool,
        now: u64,
    ) -> (effects: Effects)
        requires
            old(self).wf(),
            playable(old(cfg)@.difficulty),
        ensures
            final(self).wf(),
            playable(final(cfg)@.difficulty),
            (final(self)@, final(cfg)@, effects) == old(self)@.on_key_press(key, ctrl, old(cfg)@, now),
    {
        if self.modal.overlay().is_some() {
            let command = self.modal.key(key, cfg, now);
            self.perform(cfg, command)
        } else {
            self.key_in_play(cfg, key, ctrl, now)
        }
    }

    /// A key goes up, at the time `now`.
    pub fn key_release(&mut self, cfg: &Config, key: Key, now: u64)
        requires
            old(self).wf(),
        ensures
            final(self).wf(),
            old(self)@.key_released(key, cfg@, now, final(self)@),
    {
        if self.modal.overlay().is_some() {
            return ;
        }
        proof {
            self.game.lemma_view_wf();
        }
        match key {
            Key::Char(c) => {
                if c == ' ' {
                    let cursor = self.game.cursor();
                    let intent = self.gesture.release_reveal_key(cursor);
                    self.apply(cfg, intent, now);
                }
            },
            Key::Enter => {
                let intent = self.gesture.release_chord_key();
                self.apply(cfg, intent, now);
            },
            _ => {},
        }
    }

    /// The pointer does something on an open overlay.
    fn pointer_on_modal(
        &mut self,
        cfg: &mut Config,
        layout: &Layout,
        pointer: Pointer,
        col: u16,
        row: u16,
        now: u64,
    ) -> (effects: Effects)
        requires
            old(self).wf(),
            playable(old(cfg)@.difficulty),
        ensures
            final(self).wf(),
            playable(final(cfg)@.difficulty),
            (final(self)@, final(cfg)@, effects) == old(self)@.modal_pointer(
                pointer,
                *layout,
                col as int,
                row as int,
                old(cfg)@,
                now,
            ),
    {
        let command = match pointer {
            Pointer::Move => {
                self.modal.mouse_move(layout, col, row);
                Command::Stay
            },
            Pointer::Down(Button::Left) => self.modal.mouse_down_left(layout, cfg, col, row),
            Pointer::Down(Button::Right) => self.modal.mouse_down_right(layout, cfg),
            Pointer::Down(Button::Middle) => Command::Stay,
            Pointer::Up(_) => self.modal.mouse_up(layout, col, row, now),
        };
        self.perform(cfg, command)
    }

    /// Does what choosing an item of the menu asks for.
    fn pick_item(&mut self, item: usize, cfg: &Config)
        requires
            old(self).wf(),
            playable(cfg@.difficulty),
        ensures
            final(self).wf(),
            final(self)@ == old(self)@.menu_chosen(item, cfg@),
    {
        if item == 0 {
            self.open_overlay(Overlay::Help, cfg);
        } else if item == 1 {
            let d = cfg.difficulty;
            self.restart(&d);
        } else if item == 2 {
            self.open_overlay(Overlay::Records, cfg);
        } else if item == 3 {
            self.open_overlay(Overlay::Difficulty, cfg);
        } else if item == 4 {
            self.open_overlay(Overlay::Options, cfg);
        } else if item == 5 {
            self.open_overlay(Overlay::About, cfg);
        }
    }

    /// The pointer does something while the menu bar may take it.
    fn pointer_on_menu(
        &mut self,
        cfg: &Config,
        layout: &Layout,
        pointer: Pointer,
        col: u16,
        row: u16,
        now: u64,
    ) -> (taken: bool)
        requires
            old(self).wf(),
            playable(cfg@.difficulty),
        ensures
            final(self).wf(),
            (final(self)@, taken) == old(self)@.menu_pointer(
                pointer,
                *layout,
                col as int,
                row as int,
                cfg@,
                now,
            ),
    {
        match layout.menu {
            Some(menu) => {
                if row as u32 == menu.y as u32 + 1 {
                    match pointer {
                        Pointer::Move => {
                            self.hover_index = menu_hit(menu, col, row);
                            self.cursor_indicator = None;
                            true
                        },
                        Pointer::Down(Button::Left) => {
                            match menu_hit(menu, col, row) {
                                Some(item) => {
                                    self.clicked = Some((item, now));
                                    self.pick_item(item, cfg);
                                    true
                                },
                                None => false,
                            }
                        },
                        Pointer::Down(_) => false,
                        Pointer::Up(_) => true,
                    }
                } else {
                    match pointer {
                        Pointer::Move => {
                            self.hover_index = None;
                        },
                        _ => {},
                    }
                    false
                }
            },
            None => false,
        }
    }

    /// The pointer does something while the status bar may take it.
    fn pointer_on_status(
        &mut self,
        layout: &Layout,
        pointer: Pointer,
        col: u16,
        row: u16,
    ) -> (quit: bool)
        requires
            old(self).wf(),
        ensures
            final(self).wf(),
            (final(self)@, quit) == old(self)@.status_pointer(pointer, *layout, col as int, row as int),
    {
        match layout.status {
            Some(status) => {
                if row as u32 == status.y as u32 + 1 {
                    let right = columns_of(exit_label());
                    let over = exit_label_hit(status, layout.status_text_width, right, col, row);
                    match pointer {
                        Pointer::Move => {
                            self.exit_hovered = over;
                            false
                        },
                        Pointer::Down(Button::Left) => {
                            if over {
                                self.exit_down = true;
                            }
                            false
                        },
                        Pointer::Up(Button::Left) => {
                            let armed = self.exit_down;
                            self.exit_down = false;
                            armed && over
                        },
                        _ => false,
                    }
                } else {
                    self.exit_hovered = false;
                    false
                }
            },
            None => false,
        }
    }

    /// The pointer does something while the board may take it.
    fn pointer_on_board(
        &mut self,
        layout: &Layout,
        pointer: Pointer,
        col: u16,
        row: u16,
    ) -> (intent: Option<Intent>)
        requires
            old(self).wf(),
        ensures
            final(self).wf(),
            (final(self)@, intent) == old(self)@.board_pointer(pointer, *layout, col as int, row as int),
    {
        proof {
            self.game.lemma_view_wf();
        }
        match layout.board {
            Some(area) => {
                let cell = cell_at(area, col, row, self.game.width(), self.game.height());
                match pointer {
                    Pointer::Move => {
                        match cell {
                            Some(c) => {
                                self.game.set_cursor(c.0, c.1);
                                proof {
                                    self.game.lemma_view_wf();
                                }
                                self.cursor_indicator = Some(c);
                            },
                            None => {},
                        }
                        None
                    },
                    Pointer::Down(Button::Left) => {
                        match cell {
                            Some(c) => {
                                self.gesture.press_primary(c);
                            },
                            None => {},
                        }
                        None
                    },
                    Pointer::Down(Button::Right) => {
                        match cell {
                            Some(c) => self.gesture.press_secondary(c),
                            None => None,
                        }
                    },
                    Pointer::Up(Button::Left) => self.gesture.release_primary(cell),
                    Pointer::Up(Button::Right) => self.gesture.release_secondary(),
                    _ => None,
                }
            },
            None => None,
        }
    }

    /// The pointer does something, at the time `now`, on a screen laid out as
    /// `layout` says.
    pub fn pointer(
        &mut self,
        cfg: &mut Config,
        layout: &Layout,
        pointer: Pointer,
        col: u16,
        row: u16,
        now: u64,
    ) -> (effects: Effects)
        requires
            old(self).wf(),
            playable(old(cfg)@.difficulty),
        ensures
            final(self).wf(),
            playable(final(cfg)@.difficulty),
            old(self)@.pointed(
                pointer,
                *layout,
                col as int,
                row as int,
                old(cfg)@,
                now,
                final(self)@,
                final(cfg)@,
                effects,
            ),
    {
        if self.modal.overlay().is_some() {
            return self.pointer_on_modal(cfg, layout, pointer, col, row, now);
        }
        let taken = self.pointer_on_menu(cfg, layout, pointer, col, row, now);
        if taken {
            return Effects { save_config: false, quit: false, glyphs_changed: false };
        }
        let quit = self.pointer_on_status(layout, pointer, col, row);
        let intent = self.pointer_on_board(layout, pointer, col, row);
        self.apply(cfg, intent, now);
        Effects { save_config: false, quit, glyphs_changed: false }
    }

    /// Takes one event of the input, at the time `now` in milliseconds, on a screen
    /// laid out as `layout` says, and says what the caller is to do.
    pub fn handle(
        &mut self,
        cfg: &mut Config,
        layout: &Layout,
        event: InputEvent,
        now: u64,
    ) -> (effects: Effects)
        requires
            old(self).wf(),
            playable(old(cfg)@.difficulty),
        ensures
            final(self).wf(),
            playable(final(cfg)@.difficulty),
            old(self)@.handled(old(cfg)@, *layout, event, now, final(self)@, final(cfg)@, effects),
    {
        match event {
            InputEvent::KeyPress { key, ctrl } => self.key_press(cfg, key, ctrl, now),
            InputEvent::KeyRelease { key } => {
                self.key_release(cfg, key, now);
                Effects { save_config: false, quit: false, glyphs_changed: false }
            },
            InputEvent::MouseMove { col, row } => self.pointer(cfg, layout, Pointer::Move, col, row, now),
            InputEvent::MouseDown { button, col, row } => self.pointer(
                cfg,
                layout,
                Pointer::Down(button),
                col,
                row,
                now,
            ),
            InputEvent::MouseUp { button, col, row } => self.pointer(
                cfg,
                layout,
                Pointer::Up(button),
                col,
                row,
                now,
            ),
        }
    }

    /// Notes a game won in `secs` seconds: where that is a new best time on a
    /// preset, it is kept, dated today, and the session remembers that it was set.
    pub fn record_win(&mut self, cfg: &mut Config, secs: u64) -> (effects: Effects)
        requires
            old(self).wf(),
        ensures
            final(self).wf(),
            final(cfg)@.difficulty == old(cfg)@.difficulty,
            exists|date: Seq<char>|
                (final(self)@, final(cfg)@, effects) == #[trigger] old(self)@.won_in(
                    old(cfg)@,
                    secs,
                    date,
                ),
    {
        let d = cfg.difficulty;
        let beats = match d {
            Difficulty::Custom(_, _, _) => false,
            _ => match cfg.get_record(&d) {
                Some(best) => secs < best,
                None => true,
            },
        };
        if beats {
            self.new_record = true;
            cfg.set_record(&d, secs);
            let effects = Effects { save_config: true, quit: false, glyphs_changed: false };
            proof {
                let date = choose|date: Seq<char>| cfg@ == #[trigger] old(cfg)@.record(d, secs, date);
                assert((self@, cfg@, effects) == old(self)@.won_in(old(cfg)@, secs, date));
            }
            effects
        } else {
            let effects = Effects { save_config: false, quit: false, glyphs_changed: false };
            proof {
                assert((self@, cfg@, effects) == old(self)@.won_in(old(cfg)@, secs, Seq::empty()));
            }
            effects
        }
    }

    /// Lets time pass, to the time `now` in milliseconds: to be called after every
    /// event and whenever the wait for one has run out.
    pub fn tick(&mut self, cfg: &mut Config, now: u64) -> (effects: Effects)
        requires
            old(self).wf(),
            playable(old(cfg)@.difficulty),
        ensures
            final(self).wf(),
            playable(final(cfg)@.difficulty),
            old(self)@.ticked(old(cfg)@, now, final(self)@, final(cfg)@, effects),
    {
        proof {
            self.game.lemma_view_wf();
        }
        let mut effects = Effects { save_config: false, quit: false, glyphs_changed: false };
        let ghost mut date: Seq<char> = Seq::empty();
        match self.game.outcome() {
            Outcome::Won => {
                if self.game.has_elapsed() {
                    let secs = self.game.elapsed_secs();
                    effects = self.record_win(cfg, secs);
                    proof {
                        date = choose|date: Seq<char>|
                            (self@, cfg@, effects) == #[trigger] old(self)@.won_in(
                                old(cfg)@,
                                secs,
                                date,
                            );
                    }
                }
            },
            _ => {},
        }
        let ghost first = self@;
        let ghost turn = if first.modal.overlay.is_some() {
            (first.gesture, None)
        } else {
            first.gesture.ticked(first.cursor(), now)
        };
        if self.modal.overlay().is_none() {
            let cursor = self.game.cursor();
            let intent = self.gesture.tick(cursor, now);
            self.apply(cfg, intent, now);
        }
        let ghost mid = self@;
        assert((SessionView { gesture: turn.0, ..first }).applied(cfg@, turn.1, now, mid));
        match self.clicked {
            Some((_, since)) => {
                if now >= since && now - since > CLICK_SHOWN_MS {
                    self.clicked = None;
                }
            },
            None => {},
        }
        proof {
            assert(old(self)@.ticked_with(old(cfg)@, date, mid, now, self@, cfg@, effects));
        }
        effects
    }

    /// Notes that a frame was drawn: the indicator goes to the cursor's cell, and
    /// without an overlay no button of one is hovered or held.
    pub fn frame_drawn(&mut self)
        requires
            old(self).wf(),
        ensures
            final(self).wf(),
            final(self)@ == old(self)@.drawn(),
    {
        proof {
            self.game.lemma_view_wf();
        }
        self.cursor_indicator = Some(self.game.cursor());
        if self.modal.overlay().is_none() {
            self.modal.rest();
        }
    }
}

/// Whatever the modal controller has made of an event, the play is left alone: the
/// board is the one it was or the fresh board of a new game, the tracker is as it
/// was or at rest, and the session goes on.
pub proof fn lemma_command_leaves_play(
    s: SessionView,
    modal: ModalView,
    command: Command,
    cfg: ConfigView,
)
    ensures
        ({
            let done = SessionView { modal, ..s }.commanded(command, cfg);
            &&& done.0.board == s.board || done.0.board == Board::blank(
                done.1.difficulty.spec_params().0 as int,
                done.1.difficulty.spec_params().1 as int,
                done.1.difficulty.spec_params().2 as int,
            )
            &&& done.0.gesture == s.gesture || done.0.gesture == Gesture::spec_idle(
                s.platform_key_release,
            )
            &&& !done.2.quit
        }),
{
}

/// While an overlay is open the play gets no input: after any event the board is
/// the one it was or the fresh board of a new game, and the tracker is as it was or
/// at rest.
pub proof fn lemma_overlay_takes_all_input(
    s: SessionView,
    cfg: ConfigView,
    layout: Layout,
    event: InputEvent,
    now: u64,
    after: SessionView,
    cfg_after: ConfigView,
    effects: Effects,
)
    requires
        s.modal.overlay.is_some(),
        s.handled(cfg, layout, event, now, after, cfg_after, effects),
    ensures
        after.board == s.board || after.board == Board::blank(
            cfg_after.difficulty.spec_params().0 as int,
            cfg_after.difficulty.spec_params().1 as int,
            cfg_after.difficulty.spec_params().2 as int,
        ),
        after.gesture == s.gesture || after.gesture == Gesture::spec_idle(s.platform_key_release),
        !effects.quit,
{
    match event {
        InputEvent::KeyPress { key, ctrl } => {
            let turn = s.modal.on_key(key, cfg, now);
            lemma_command_leaves_play(s, turn.0, turn.1, cfg);
        },
        InputEvent::KeyRelease { key } => {},
        InputEvent::MouseMove { col, row } => {
            lemma_pointer_leaves_play(s, Pointer::Move, layout, col as int, row as int, cfg, now);
        },
        InputEvent::MouseDown { button, col, row } => {
            lemma_pointer_leaves_play(
                s,
                Pointer::Down(button),
                layout,
                col as int,
                row as int,
                cfg,
                now,
            );
        },
        InputEvent::MouseUp { button, col, row } => {
            lemma_pointer_leaves_play(s, Pointer::Up(button), layout, col as int, row as int, cfg, now);
        },
    }
}

/// Whatever the pointer does on an open overlay, the play is left alone.
proof fn lemma_pointer_leaves_play(
    s: SessionView,
    pointer: Pointer,
    layout: Layout,
    col: int,
    row: int,
    cfg: ConfigView,
    now: u64,
)
    ensures
        ({
            let done = s.modal_pointer(pointer, layout, col, row, cfg, now);
            &&& done.0.board == s.board || done.0.board == Board::blank(
                done.1.difficulty.spec_params().0 as int,
                done.1.difficulty.spec_params().1 as int,
                done.1.difficulty.spec_params().2 as int,
            )
            &&& done.0.gesture == s.gesture || done.0.gesture == Gesture::spec_idle(
                s.platform_key_release,
            )
            &&& !done.2.quit
        }),
{
    let turn = match pointer {
        Pointer::Move => (s.modal.on_move(layout, col, row), Command::Stay),
        Pointer::Down(Button::Left) => s.modal.on_left_down(layout, cfg, col, row),
        Pointer::Down(Button::Right) => s.modal.on_right_down(layout, cfg),
        Pointer::Down(Button::Middle) => (s.modal, Command::Stay),
        Pointer::Up(_) => s.modal.on_up(layout, col, row, now),
    };
    lemma_command_leaves_play(s, turn.0, turn.1, cfg);
}

/// A move that ends the game shows its banner and brings the tracker to rest; a
/// move that does not leaves both as they were.
pub proof fn lemma_end_of_game_shows_banner(s: SessionView, b: Board)
    ensures
        b.outcome == Outcome::Won ==> s.settled(b).modal.overlay == Some(Overlay::Win),
        b.outcome == Outcome::Lost ==> s.settled(b).modal.overlay == Some(Overlay::Loss),
        b.outcome == Outcome::Lost ==> s.settled(b).board == b.reveal_all_mines(),
        b.outcome != Outcome::Ongoing ==> s.settled(b).gesture == Gesture::spec_idle(
            s.gesture.supports_key_release,
        ),
        b.outcome == Outcome::Ongoing ==> s.settled(b).modal == s.modal && s.settled(b).gesture
            == s.gesture,
{
}

/// Opening an overlay brings the tracker to rest and leaves the board as it is.
pub proof fn lemma_opening_rests_the_tracker(s: SessionView, overlay: Overlay, cfg: ConfigView)
    ensures
        s.opening(overlay, cfg).modal.overlay == Some(overlay),
        s.opening(overlay, cfg).gesture == Gesture::spec_idle(s.gesture.supports_key_release),
        s.opening(overlay, cfg).board == s.board,
{
}

/// A chord leaves the size of the board as it is.
proof fn lemma_chord_dims(b: Board, x: int, y: int)
    requires
        b.wf(),
        b.has(x, y),
    ensures
        b.chord(x, y).w == b.w,
        b.chord(x, y).h == b.h,
{
    crate::grid::lemma_cell_index_bounds(b.w, b.h, x, y);
    if b.chord_result(x, y) == ChordResult::Opened {
        assert(!b.fresh()) by {
            if b.fresh() {
                assert(!b.revealed[b.at(x, y)]);
            }
        }
        crate::laws::lemma_open_around_dims(b, x, y, 8);
    }
}

} // verus!
