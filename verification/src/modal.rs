//! The modal controller: which overlay is open, and what the keys and the
//! pointer do on it.

use vstd::prelude::*;
use crate::config::{Config, ConfigView};
use crate::event::{as_digit, digit_of, Key};
use crate::form::{lemma_accepted_board, CustomForm, FormView, Verdict};
use crate::layout::{hits, on, Layout};
use crate::text::decimal_digits;

verus! {

/// An overlay: a dialog that takes all input while it is open.
#[derive(Clone, Copy, Debug, PartialEq, Eq, Structural)]
pub enum Overlay {
    /// The list of the difficulties.
    Difficulty,
    /// The form for the measures of a custom board.
    CustomInput,
    /// The options.
    Options,
    /// The help page.
    Help,
    /// The best times.
    Records,
    /// The about page.
    About,
    /// The banner of a game won.
    Win,
    /// The banner of a game lost.
    Loss,
}

/// The options as they stand on the options overlay, before they are accepted.
#[derive(Clone, Copy, Debug)]
pub struct OptionsDraft {
    pub show_indicator: bool,
    pub use_question_marks: bool,
    pub ascii_icons: bool,
    /// The option in focus: 0, 1 or 2.
    pub focus: Option<u8>,
}

/// What the session is to do after an input on an overlay.
#[derive(Clone, Copy, Debug, PartialEq, Eq)]
pub enum Command {
    /// Nothing.
    Stay,
    /// The overlay was closed: the hover on the menu is to end.
    Closed,
    /// The preset with this index was chosen: it is to be kept and a new game on
    /// it begun.
    ApplyPreset(usize),
    /// A custom board of this width, height and number of mines was accepted: it
    /// is to be kept and a new game on it begun.
    ApplyCustom(usize, usize, usize),
    /// The options were accepted: show the indicator, use question marks, draw
    /// with ASCII. They are to be kept.
    ApplyOptions(bool, bool, bool),
    /// The banner of a game that has ended was closed: a new game is to begin.
    Restart,
}

impl OptionsDraft {
    /// The draft with the option in focus changed over; the first where none is.
    pub open spec fn toggled_at(self, index: u8) -> OptionsDraft {
        if index == 0 {
            OptionsDraft { show_indicator: !self.show_indicator, ..self }
        } else if index == 1 {
            OptionsDraft { use_question_marks: !self.use_question_marks, ..self }
        } else if index == 2 {
            OptionsDraft { ascii_icons: !self.ascii_icons, ..self }
        } else {
            self
        }
    }

    /// The option in focus, the first where none is.
    pub open spec fn focused(self) -> u8 {
        match self.focus {
            Some(f) => f,
            None => 0,
        }
    }

    /// The draft with no option set and none in focus.
    pub open spec fn blank() -> OptionsDraft {
        OptionsDraft {
            show_indicator: false,
            use_question_marks: false,
            ascii_icons: false,
            focus: None,
        }
    }
}

/// Whether a command carries what the session can act on: a preset by an index
/// of the list, or a custom board within the range of the form.
pub open spec fn sound(command: Command) -> bool {
    match command {
        Command::ApplyPreset(i) => i <= 2,
        Command::ApplyCustom(w, h, n) => 9 <= w <= 36 && 9 <= h <= 24 && 10 <= n < w * h,
        _ => true,
    }
}

/// The state of the controller as a value.
pub struct ModalView {
    /// The overlay that is open, if one is.
    pub overlay: Option<Overlay>,
    /// Whether the pointer is over the button of the overlay.
    pub close_hovered: bool,
    /// Whether the button of the overlay is held down.
    pub close_pressed: bool,
    /// The difficulty chosen on the list, by its index.
    pub selected: usize,
    /// The difficulty under the pointer or the keys, by its index.
    pub hover: Option<usize>,
    pub options: OptionsDraft,
    pub form: FormView,
}

/// The line of the difficulty list at a row of the terminal, where the overlay
/// begins at row `top`: the four difficulties stand on the second to the fifth line
/// inside its border.
pub open spec fn list_line(top: int, row: int) -> Option<usize> {
    if 1 <= row - top - 1 <= 4 {
        Some((row - top - 2) as usize)
    } else {
        None
    }
}

/// The option on a line of the options overlay: the three options stand on the
/// second to the fourth line inside its border.
pub open spec fn option_line(layout: Layout, col: int, row: int) -> Option<u8> {
    match layout.modal {
        Some(m) => if m.x < u16::MAX && m.y < u16::MAX && m.spec_inset().covers(col, row) && 1
            <= row - m.spec_inset().y <= 3 {
            Some((row - m.spec_inset().y - 1) as u8)
        } else {
            None
        },
        None => None,
    }
}

impl ModalView {
    /// The invariant of the controller.
    pub open spec fn wf(self) -> bool {
        &&& self.form.wf()
        &&& self.selected <= 3
        &&& match self.hover {
            Some(h) => h <= 3,
            None => true,
        }
        &&& match self.options.focus {
            Some(f) => f <= 2,
            None => true,
        }
    }

    /// The state at the start: no overlay, nothing hovered or held, the form empty,
    /// and the difficulty with this index chosen on the list.
    pub open spec fn initial(selected: usize) -> ModalView {
        ModalView {
            overlay: None,
            close_hovered: false,
            close_pressed: false,
            selected,
            hover: None,
            options: OptionsDraft::blank(),
            form: FormView {
                width: Seq::empty(),
                height: Seq::empty(),
                mines: Seq::empty(),
                focus: 0,
                invalid: None,
            },
        }
    }

    /// The state with the overlay closed.
    pub open spec fn closed(self) -> ModalView {
        ModalView { overlay: None, close_pressed: false, ..self }
    }

    /// The state as it is when a new game begins: no overlay, nothing hovered or
    /// held, the draft of the options blank, no field of the form marked wrong.
    pub open spec fn cleared(self) -> ModalView {
        ModalView {
            overlay: None,
            close_hovered: false,
            close_pressed: false,
            hover: None,
            options: OptionsDraft::blank(),
            form: FormView { invalid: None, ..self.form },
            ..self
        }
    }

    /// The state with an overlay opened: the list of difficulties shows the one in
    /// use, the options overlay the options as they are kept.
    pub open spec fn opened(self, overlay: Overlay, cfg: ConfigView) -> ModalView {
        let base = ModalView {
            overlay: Some(overlay),
            close_hovered: false,
            close_pressed: false,
            ..self
        };
        match overlay {
            Overlay::Difficulty => ModalView { selected: cfg.difficulty.spec_index(), ..base },
            Overlay::Options => ModalView {
                options: OptionsDraft {
                    show_indicator: cfg.show_indicator,
                    use_question_marks: cfg.use_question_marks,
                    ascii_icons: cfg.ascii_icons,
                    focus: Some(0u8),
                },
                ..base
            },
            _ => base,
        }
    }

    /// The state with the banner of a game that has ended shown.
    pub open spec fn showing(self, banner: Overlay) -> ModalView {
        ModalView { overlay: Some(banner), close_hovered: false, close_pressed: false, ..self }
    }

    /// The state with the button of the overlay at rest.
    pub open spec fn at_rest(self) -> ModalView {
        ModalView { close_hovered: false, close_pressed: false, ..self }
    }

    /// The state with the form opened on the measures that are kept.
    pub open spec fn entering_form(self, cfg: ConfigView) -> ModalView {
        ModalView {
            overlay: Some(Overlay::CustomInput),
            form: FormView {
                width: decimal_digits(cfg.custom_w as nat),
                height: decimal_digits(cfg.custom_h as nat),
                mines: decimal_digits(cfg.custom_n as nat),
                focus: 0,
                invalid: self.form.invalid,
            },
            ..self
        }
    }

    /// The state with the form given up: back on the list, the form empty, the
    /// difficulty in use chosen.
    pub open spec fn leaving_form(self, cfg: ConfigView) -> ModalView {
        ModalView {
            overlay: Some(Overlay::Difficulty),
            selected: cfg.difficulty.spec_index(),
            form: FormView {
                width: Seq::empty(),
                height: Seq::empty(),
                mines: Seq::empty(),
                ..self.form
            },
            ..self
        }
    }

    /// What a try to accept the form at the time `now` comes to: measures in range
    /// are handed on and the overlay closes with the form emptied; else the first
    /// wrong field is marked with the time and the form stays open.
    pub open spec fn committing(self, now: u64) -> (ModalView, Command) {
        match self.form.verdict() {
            Verdict::Accept(w, h, n) => (
                ModalView {
                    form: FormView {
                        width: Seq::empty(),
                        height: Seq::empty(),
                        mines: Seq::empty(),
                        invalid: None,
                        ..self.form
                    },
                    ..self.cleared()
                },
                Command::ApplyCustom(w, h, n),
            ),
            Verdict::Invalid(field) => (
                ModalView { form: FormView { invalid: Some((field, now)), ..self.form }, ..self },
                Command::Stay,
            ),
        }
    }

    /// The difficulty that the list stands on: the one hovered, else the one chosen.
    pub open spec fn list_base(self) -> usize {
        match self.hover {
            Some(h) => h,
            None => self.selected,
        }
    }

    /// The state with the list moved to the difficulty with this index.
    pub open spec fn list_at(self, index: usize) -> ModalView {
        ModalView { selected: index, hover: Some(index), ..self }
    }

    /// What a key does on the list of difficulties.
    pub open spec fn list_key(self, key: Key, cfg: ConfigView) -> (ModalView, Command) {
        match key {
            Key::Char(c) => if c == '1' {
                (ModalView { selected: 0, ..self }.cleared(), Command::ApplyPreset(0))
            } else if c == '2' {
                (ModalView { selected: 1, ..self }.cleared(), Command::ApplyPreset(1))
            } else if c == '3' {
                (ModalView { selected: 2, ..self }.cleared(), Command::ApplyPreset(2))
            } else if c == '4' {
                (self.list_at(3).entering_form(cfg), Command::Stay)
            } else if c == ' ' {
                self.list_accept(cfg)
            } else {
                (self, Command::Stay)
            },
            Key::Up => (
                self.list_at(
                    if self.list_base() == 0 {
                        3
                    } else {
                        (self.list_base() - 1) as usize
                    },
                ),
                Command::Stay,
            ),
            Key::Down => (self.list_at(((self.list_base() + 1) % 4) as usize), Command::Stay),
            Key::Enter => self.list_accept(cfg),
            Key::Esc => (self.closed(), Command::Stay),
            _ => (self, Command::Stay),
        }
    }

    /// What accepting the chosen difficulty comes to: the form opens for the custom
    /// board, a preset is handed on.
    pub open spec fn list_accept(self, cfg: ConfigView) -> (ModalView, Command) {
        if self.selected >= 3 {
            (self.entering_form(cfg), Command::Stay)
        } else {
            (self.cleared(), Command::ApplyPreset(self.selected))
        }
    }

    /// What a key does on the form.
    pub open spec fn form_key(self, key: Key, cfg: ConfigView, now: u64) -> (ModalView, Command) {
        match key {
            Key::Char(c) => match digit_of(c) {
                Some(d) => (ModalView { form: self.form.typed(d), ..self }, Command::Stay),
                None => (self, Command::Stay),
            },
            Key::Backspace => (ModalView { form: self.form.erased(), ..self }, Command::Stay),
            Key::Tab => (self.form_focus(((self.form.focus + 1) % 3) as u8), Command::Stay),
            Key::Down => (self.form_focus(((self.form.focus + 1) % 3) as u8), Command::Stay),
            Key::BackTab => (self.form_focus(((self.form.focus + 2) % 3) as u8), Command::Stay),
            Key::Up => (self.form_focus(((self.form.focus + 2) % 3) as u8), Command::Stay),
            Key::Enter => self.committing(now),
            Key::Esc => (self.leaving_form(cfg), Command::Stay),
            _ => (self, Command::Stay),
        }
    }

    /// The state with this field of the form in focus.
    pub open spec fn form_focus(self, field: u8) -> ModalView {
        ModalView { form: FormView { focus: field, ..self.form }, ..self }
    }

    /// The state with the options overlay closed: no option is in focus any more.
    pub open spec fn options_closed(self) -> ModalView {
        ModalView { options: OptionsDraft { focus: None, ..self.options }, ..self.closed() }
    }

    /// The command that hands the draft of the options on.
    pub open spec fn options_command(self) -> Command {
        Command::ApplyOptions(
            self.options.show_indicator,
            self.options.use_question_marks,
            self.options.ascii_icons,
        )
    }

    /// The state with this option in focus.
    pub open spec fn options_focus(self, index: u8) -> ModalView {
        ModalView { options: OptionsDraft { focus: Some(index), ..self.options }, ..self }
    }

    /// What a key does on the options overlay.
    pub open spec fn options_key(self, key: Key) -> (ModalView, Command) {
        let f = self.options.focused();
        match key {
            Key::Esc => (self.options_closed(), Command::Closed),
            Key::Enter => (self.options_closed(), self.options_command()),
            Key::Up => (
                self.options_focus(
                    if f == 0 {
                        2
                    } else {
                        (f - 1) as u8
                    },
                ),
                Command::Stay,
            ),
            Key::Down => (self.options_focus(((f + 1) % 3) as u8), Command::Stay),
            Key::Char(c) => if c == ' ' {
                (ModalView { options: self.options.toggled_at(f), ..self }, Command::Stay)
            } else {
                (self, Command::Stay)
            },
            _ => (self, Command::Stay),
        }
    }

    /// What a key that goes down does: nothing without an overlay; on a page any key
    /// closes it; on a banner any key closes it and asks for a new game.
    pub open spec fn on_key(self, key: Key, cfg: ConfigView, now: u64) -> (ModalView, Command) {
        match self.overlay {
            None => (self, Command::Stay),
            Some(Overlay::Difficulty) => self.list_key(key, cfg),
            Some(Overlay::CustomInput) => self.form_key(key, cfg, now),
            Some(Overlay::Options) => self.options_key(key),
            Some(Overlay::Help) => (self.closed(), Command::Closed),
            Some(Overlay::Records) => (self.closed(), Command::Closed),
            Some(Overlay::About) => (self.closed(), Command::Closed),
            Some(Overlay::Win) => (self.cleared(), Command::Restart),
            Some(Overlay::Loss) => (self.cleared(), Command::Restart),
        }
    }

    /// What a move of the pointer does. Off the overlay the button is not hovered.
    /// On it, the button is hovered where the pointer is over it; on the options
    /// overlay the option under the pointer comes in focus, by its text or by its
    /// line; on the list the difficulty under the pointer is hovered.
    pub open spec fn on_move(self, layout: Layout, col: int, row: int) -> ModalView {
        match (self.overlay, layout.modal) {
            (Some(overlay), Some(m)) => if !m.covers(col, row) {
                ModalView { close_hovered: false, ..self }
            } else {
                let hovered = ModalView { close_hovered: on(layout.close_button, col, row), ..self };
                if overlay == Overlay::Options {
                    match option_line(layout, col, row) {
                        Some(i) => hovered.options_focus(i),
                        None => match layout.option_on(col, row) {
                            Some(i) => hovered.options_focus(i),
                            None => hovered,
                        },
                    }
                } else if overlay == Overlay::Difficulty {
                    ModalView { hover: list_line(m.y as int, row), ..hovered }
                } else {
                    hovered
                }
            },
            _ => self,
        }
    }

    /// What the primary button going down does, on the overlay: it arms the button
    /// of the overlay; else it changes the option under it over, puts the field of
    /// the form under it in focus, or chooses the difficulty under it. Off the
    /// overlay it does nothing.
    pub open spec fn on_left_down(self, layout: Layout, cfg: ConfigView, col: int, row: int) -> (
        ModalView,
        Command,
    ) {
        match (self.overlay, layout.modal) {
            (Some(overlay), Some(m)) => if !m.covers(col, row) {
                (self, Command::Stay)
            } else if on(layout.close_button, col, row) {
                (ModalView { close_pressed: true, ..self }, Command::Stay)
            } else if overlay == Overlay::Options {
                match layout.option_picked(col, row) {
                    Some(i) => (
                        ModalView {
                            options: OptionsDraft { focus: Some(i), ..self.options.toggled_at(i) },
                            ..self
                        },
                        Command::Stay,
                    ),
                    None => (self, Command::Stay),
                }
            } else if overlay == Overlay::CustomInput {
                match layout.field_on(col, row) {
                    Some(i) => (self.form_focus(i), Command::Stay),
                    None => (self, Command::Stay),
                }
            } else if overlay == Overlay::Difficulty {
                match list_line(m.y as int, row) {
                    Some(i) => ModalView { selected: i, ..self }.list_accept(cfg),
                    None => (self, Command::Stay),
                }
            } else {
                (self, Command::Stay)
            },
            _ => (self, Command::Stay),
        }
    }

    /// What letting the button of the overlay go comes to, over it: the form is
    /// tried, the options are handed on, a banner asks for a new game, and any
    /// other overlay closes.
    pub open spec fn accepted(self, overlay: Overlay, now: u64) -> (ModalView, Command) {
        match overlay {
            Overlay::CustomInput => self.committing(now),
            Overlay::Options => (ModalView { overlay: None, ..self }, self.options_command()),
            Overlay::Win => (self.cleared(), Command::Restart),
            Overlay::Loss => (self.cleared(), Command::Restart),
            _ => (ModalView { overlay: None, ..self }, Command::Closed),
        }
    }

    /// What a button of the pointer going up does: where the button of the overlay
    /// is armed, it is let go, and over it the overlay is accepted; off it nothing
    /// else happens.
    pub open spec fn on_up(
        self,
        layout: Layout,
        col: int,
        row: int,
        now: u64,
    ) -> (ModalView, Command) {
        match (self.overlay, layout.modal) {
            (Some(overlay), Some(m)) => if self.close_pressed {
                if on(layout.close_button, col, row) {
                    let after = self.accepted(overlay, now);
                    (ModalView { close_pressed: false, ..after.0 }, after.1)
                } else {
                    (ModalView { close_pressed: false, ..self }, Command::Stay)
                }
            } else {
                (self, Command::Stay)
            },
            _ => (self, Command::Stay),
        }
    }

    /// What the secondary button going down does, wherever the pointer is: the form
    /// is given up for the list, a banner asks for a new game, and any other overlay
    /// closes with nothing kept.
    pub open spec fn on_right_down(self, layout: Layout, cfg: ConfigView) -> (ModalView, Command) {
        match (self.overlay, layout.modal) {
            (Some(overlay), Some(m)) => match overlay {
                Overlay::CustomInput => (self.leaving_form(cfg), Command::Stay),
                Overlay::Win => (self.cleared(), Command::Restart),
                Overlay::Loss => (self.cleared(), Command::Restart),
                _ => (self.closed(), Command::Closed),
            },
            _ => (self, Command::Stay),
        }
    }
}

/// The state of the modal controller.
pub struct Modal {
    overlay: Option<Overlay>,
    close_hovered: bool,
    close_pressed: bool,
    selected: usize,
    hover: Option<usize>,
    options: OptionsDraft,
    form: CustomForm,
}

impl View for Modal {
    type V = ModalView;

    closed spec fn view(&self) -> ModalView {
        ModalView {
            overlay: self.overlay,
            close_hovered: self.close_hovered,
            close_pressed: self.close_pressed,
            selected: self.selected,
            hover: self.hover,
            options: self.options,
            form: self.form@,
        }
    }
}

impl Modal {
    /// The invariant of the controller.
    pub open spec fn wf(&self) -> bool {
        self@.wf()
    }

    /// The controller with no overlay open, and the difficulty with this index
    /// chosen on the list.
    pub fn new(selected: usize) -> (modal: Modal)
        requires
            selected <= 3,
        ensures
            modal.wf(),
            modal@ == ModalView::initial(selected),
    {
        Modal {
            overlay: None,
            close_hovered: false,
            close_pressed: false,
            selected,
            hover: None,
            options: OptionsDraft {
                show_indicator: false,
                use_question_marks: false,
                ascii_icons: false,
                focus: None,
            },
            form: CustomForm::new(),
        }
    }

    /// The overlay that is open, if one is.
    pub fn overlay(&self) -> (overlay: Option<Overlay>)
        ensures
            overlay == self@.overlay,
    {
        self.overlay
    }

    /// Whether the pointer is over the button of the overlay.
    pub fn close_hovered(&self) -> (hovered: bool)
        ensures
            hovered == self@.close_hovered,
    {
        self.close_hovered
    }

    /// Whether the button of the overlay is held down.
    pub fn close_pressed(&self) -> (pressed: bool)
        ensures
            pressed == self@.close_pressed,
    {
        self.close_pressed
    }

    /// The difficulty chosen on the list, by its index.
    pub fn selected(&self) -> (selected: usize)
        ensures
            selected == self@.selected,
    {
        self.selected
    }

    /// The difficulty under the pointer or the keys, by its index.
    pub fn hover(&self) -> (hover: Option<usize>)
        ensures
            hover == self@.hover,
    {
        self.hover
    }

    /// The options as they stand on the options overlay.
    pub fn options(&self) -> (options: OptionsDraft)
        ensures
            options == self@.options,
    {
        self.options
    }

    /// The form for the measures of a custom board.
    pub fn form(&self) -> (form: &CustomForm)
        ensures
            form@ == self@.form,
    {
        &self.form
    }

    /// Brings the controller to where it stands when a new game begins.
    pub fn clear(&mut self)
        requires
            old(self).wf(),
        ensures
            final(self).wf(),
            final(self)@ == old(self)@.cleared(),
    {
        self.overlay = None;
        self.close_hovered = false;
        self.close_pressed = false;
        self.hover = None;
        self.options = OptionsDraft {
            show_indicator: false,
            use_question_marks: false,
            ascii_icons: false,
            focus: None,
        };
        self.form.forgive();
    }

    /// Opens an overlay.
    pub fn open(&mut self, overlay: Overlay, cfg: &Config)
        requires
            old(self).wf(),
        ensures
            final(self).wf(),
            final(self)@ == old(self)@.opened(overlay, cfg@),
    {
        self.overlay = Some(overlay);
        self.close_hovered = false;
        self.close_pressed = false;
        match overlay {
            Overlay::Difficulty => {
                self.selected = cfg.difficulty.to_index();
            },
            Overlay::Options => {
                self.options = OptionsDraft {
                    show_indicator: cfg.show_indicator,
                    use_question_marks: cfg.use_question_marks,
                    ascii_icons: cfg.ascii_icons,
                    focus: Some(0),
                };
            },
            _ => {},
        }
    }

    /// Shows the banner of a game that has ended.
    pub fn show(&mut self, banner: Overlay)
        requires
            old(self).wf(),
        ensures
            final(self).wf(),
            final(self)@ == old(self)@.showing(banner),
    {
        self.overlay = Some(banner);
        self.close_hovered = false;
        self.close_pressed = false;
    }

    /// Brings the button of the overlay to rest: neither hovered nor held.
    pub fn rest(&mut self)
        requires
            old(self).wf(),
        ensures
            final(self).wf(),
            final(self)@ == old(self)@.at_rest(),
    {
        self.close_hovered = false;
        self.close_pressed = false;
    }

    /// Opens the form on the measures that are kept.
    fn enter_form(&mut self, cfg: &Config)
        requires
            old(self).wf(),
        ensures
            final(self).wf(),
            final(self)@ == old(self)@.entering_form(cfg@),
    {
        self.overlay = Some(Overlay::CustomInput);
        self.form.load(cfg.custom_w, cfg.custom_h, cfg.custom_n);
    }

    /// Gives the form up for the list.
    fn leave_form(&mut self, cfg: &Config)
        requires
            old(self).wf(),
        ensures
            final(self).wf(),
            final(self)@ == old(self)@.leaving_form(cfg@),
    {
        self.overlay = Some(Overlay::Difficulty);
        self.selected = cfg.difficulty.to_index();
        self.form.clear();
    }

    /// Tries to accept the form.
    fn commit(&mut self, now: u64) -> (command: Command)
        requires
            old(self).wf(),
        ensures
            final(self).wf(),
            (final(self)@, command) == old(self)@.committing(now),
            sound(command),
    {
        proof {
            if self.form@.verdict() is Accept {
                lemma_accepted_board(self.form@);
            }
        }
        match self.form.commit(now) {
            Verdict::Accept(w, h, n) => {
                self.clear();
                self.form.clear();
                Command::ApplyCustom(w, h, n)
            },
            Verdict::Invalid(_) => Command::Stay,
        }
    }

    /// Accepts the difficulty chosen on the list.
    fn accept_selected(&mut self, cfg: &Config) -> (command: Command)
        requires
            old(self).wf(),
        ensures
            final(self).wf(),
            (final(self)@, command) == old(self)@.list_accept(cfg@),
            sound(command),
    {
        if self.selected >= 3 {
            self.enter_form(cfg);
            Command::Stay
        } else {
            self.clear();
            Command::ApplyPreset(self.selected)
        }
    }

    /// A key goes down on the list of difficulties.
    fn key_on_list(&mut self, key: Key, cfg: &Config) -> (command: Command)
        requires
            old(self).wf(),
        ensures
            final(self).wf(),
            (final(self)@, command) == old(self)@.list_key(key, cfg@),
            sound(command),
    {
        let base = match self.hover {
            Some(h) => h,
            None => self.selected,
        };
        match key {
            Key::Char(c) => {
                if c == '1' {
                    self.selected = 0;
                    self.clear();
                    Command::ApplyPreset(0)
                } else if c == '2' {
                    self.selected = 1;
                    self.clear();
                    Command::ApplyPreset(1)
                } else if c == '3' {
                    self.selected = 2;
                    self.clear();
                    Command::ApplyPreset(2)
                } else if c == '4' {
                    self.selected = 3;
                    self.hover = Some(3);
                    self.enter_form(cfg);
                    Command::Stay
                } else if c == ' ' {
                    self.accept_selected(cfg)
                } else {
                    Command::Stay
                }
            },
            Key::Up => {
                let to = if base == 0 { 3 } else { base - 1 };
                self.selected = to;
                self.hover = Some(to);
                Command::Stay
            },
            Key::Down => {
                let to = (base + 1) % 4;
                self.selected = to;
                self.hover = Some(to);
                Command::Stay
            },
            Key::Enter => self.accept_selected(cfg),
            Key::Esc => {
                self.overlay = None;
                self.close_pressed = false;
                Command::Stay
            },
            _ => Command::Stay,
        }
    }

    /// A key goes down on the form.
    fn key_on_form(&mut self, key: Key, cfg: &Config, now: u64) -> (command: Command)
        requires
            old(self).wf(),
        ensures
            final(self).wf(),
            (final(self)@, command) == old(self)@.form_key(key, cfg@, now),
            sound(command),
    {
        match key {
            Key::Char(c) => {
                match as_digit(c) {
                    Some(d) => {
                        self.form.type_digit(d);
                    },
                    None => {},
                }
                Command::Stay
            },
            Key::Backspace => {
                self.form.backspace();
                Command::Stay
            },
            Key::Tab | Key::Down => {
                self.form.focus_next();
                Command::Stay
            },
            Key::BackTab | Key::Up => {
                self.form.focus_prev();
                Command::Stay
            },
            Key::Enter => self.commit(now),
            Key::Esc => {
                self.leave_form(cfg);
                Command::Stay
            },
            _ => Command::Stay,
        }
    }

    /// A key goes down on the options overlay.
    fn key_on_options(&mut self, key: Key) -> (command: Command)
        requires
            old(self).wf(),
        ensures
            final(self).wf(),
            (final(self)@, command) == old(self)@.options_key(key),
            sound(command),
    {
        let f: u8 = match self.options.focus {
            Some(f) => f,
            None => 0,
        };
        match key {
            Key::Esc => {
                self.close_options();
                Command::Closed
            },
            Key::Enter => {
                let command = Command::ApplyOptions(
                    self.options.show_indicator,
                    self.options.use_question_marks,
                    self.options.ascii_icons,
                );
                self.close_options();
                command
            },
            Key::Up => {
                self.options.focus = Some(if f == 0 { 2 } else { f - 1 });
                Command::Stay
            },
            Key::Down => {
                self.options.focus = Some((f + 1) % 3);
                Command::Stay
            },
            Key::Char(c) => {
                if c == ' ' {
                    self.toggle_option(f);
                }
                Command::Stay
            },
            _ => Command::Stay,
        }
    }

    /// Closes the options overlay.
    fn close_options(&mut self)
        requires
            old(self).wf(),
        ensures
            final(self).wf(),
            final(self)@ == old(self)@.options_closed(),
    {
        self.overlay = None;
        self.close_pressed = false;
        self.options.focus = None;
    }

    /// Changes an option of the draft over.
    fn toggle_option(&mut self, index: u8)
        requires
            old(self).wf(),
        ensures
            final(self).wf(),
            final(self)@ == (ModalView { options: old(self)@.options.toggled_at(index), ..old(self)@ }),
    {
        if index == 0 {
            self.options.show_indicator = !self.options.show_indicator;
        } else if index == 1 {
            self.options.use_question_marks = !self.options.use_question_marks;
        } else if index == 2 {
            self.options.ascii_icons = !self.options.ascii_icons;
        }
    }

    /// A key goes down while an overlay may be open, at the time `now`.
    pub fn key(&mut self, key: Key, cfg: &Config, now: u64) -> (command: Command)
        requires
            old(self).wf(),
        ensures
            final(self).wf(),
            (final(self)@, command) == old(self)@.on_key(key, cfg@, now),
            sound(command),
    {
        match self.overlay {
            None => Command::Stay,
            Some(Overlay::Difficulty) => self.key_on_list(key, cfg),
            Some(Overlay::CustomInput) => self.key_on_form(key, cfg, now),
            Some(Overlay::Options) => self.key_on_options(key),
            Some(Overlay::Help) | Some(Overlay::Records) | Some(Overlay::About) => {
                self.overlay = None;
                self.close_pressed = false;
                Command::Closed
            },
            Some(Overlay::Win) | Some(Overlay::Loss) => {
                self.clear();
                Command::Restart
            },
        }
    }

    /// The pointer moves to `(col, row)`.
    pub fn mouse_move(&mut self, layout: &Layout, col: u16, row: u16)
        requires
            old(self).wf(),
        ensures
            final(self).wf(),
            final(self)@ == old(self)@.on_move(*layout, col as int, row as int),
    {
        let (overlay, m) = match (self.overlay, layout.modal) {
            (Some(overlay), Some(m)) => (overlay, m),
            _ => {
                return ;
            },
        };
        if !m.hit(col, row) {
            self.close_hovered = false;
            return ;
        }
        self.close_hovered = hits(layout.close_button, col, row);
        match overlay {
            Overlay::Options => {
                if hits(layout.indicator_option, col, row) {
                    self.options.focus = Some(0);
                }
                if hits(layout.question_option, col, row) {
                    self.options.focus = Some(1);
                }
                if hits(layout.ascii_option, col, row) {
                    self.options.focus = Some(2);
                }
                if m.x < 65535 && m.y < 65535 {
                    let inner = m.inset();
                    if inner.hit(col, row) {
                        let line = row - inner.y;
                        if line == 1 {
                            self.options.focus = Some(0);
                        } else if line == 2 {
                            self.options.focus = Some(1);
                        } else if line == 3 {
                            self.options.focus = Some(2);
                        }
                    }
                }
            },
            Overlay::Difficulty => {
                self.hover = line_of_list(m.y, row);
            },
            _ => {},
        }
    }

    /// The primary button goes down at `(col, row)`.
    pub fn mouse_down_left(
        &mut self,
        layout: &Layout,
        cfg: &Config,
        col: u16,
        row: u16,
    ) -> (command: Command)
        requires
            old(self).wf(),
        ensures
            final(self).wf(),
            (final(self)@, command) == old(self)@.on_left_down(*layout, cfg@, col as int, row as int),
            sound(command),
    {
        let (overlay, m) = match (self.overlay, layout.modal) {
            (Some(overlay), Some(m)) => (overlay, m),
            _ => {
                return Command::Stay;
            },
        };
        if !m.hit(col, row) {
            return Command::Stay;
        }
        if hits(layout.close_button, col, row) {
            self.close_pressed = true;
            return Command::Stay;
        }
        match overlay {
            Overlay::Options => {
                if hits(layout.indicator_option, col, row) {
                    self.toggle_option(0);
                    self.options.focus = Some(0);
                } else if hits(layout.question_option, col, row) {
                    self.toggle_option(1);
                    self.options.focus = Some(1);
                } else if hits(layout.ascii_option, col, row) {
                    self.toggle_option(2);
                    self.options.focus = Some(2);
                }
                Command::Stay
            },
            Overlay::CustomInput => {
                if hits(layout.width_field, col, row) {
                    self.form.set_focus(0);
                } else if hits(layout.height_field, col, row) {
                    self.form.set_focus(1);
                } else if hits(layout.mines_field, col, row) {
                    self.form.set_focus(2);
                }
                Command::Stay
            },
            Overlay::Difficulty => {
                match line_of_list(m.y, row) {
                    Some(i) => {
                        self.selected = i;
                        self.accept_selected(cfg)
                    },
                    None => Command::Stay,
                }
            },
            _ => Command::Stay,
        }
    }

    /// A button of the pointer goes up at `(col, row)`, at the time `now`.
    pub fn mouse_up(&mut self, layout: &Layout, col: u16, row: u16, now: u64) -> (command: Command)
        requires
            old(self).wf(),
        ensures
            final(self).wf(),
            (final(self)@, command) == old(self)@.on_up(*layout, col as int, row as int, now),
            sound(command),
    {
        let (overlay, m) = match (self.overlay, layout.modal) {
            (Some(overlay), Some(m)) => (overlay, m),
            _ => {
                return Command::Stay;
            },
        };
        if !self.close_pressed {
            return Command::Stay;
        }
        let command = if hits(layout.close_button, col, row) {
            match overlay {
                Overlay::CustomInput => self.commit(now),
                Overlay::Options => {
                    let command = Command::ApplyOptions(
                        self.options.show_indicator,
                        self.options.use_question_marks,
                        self.options.ascii_icons,
                    );
                    self.overlay = None;
                    command
                },
                Overlay::Win | Overlay::Loss => {
                    self.clear();
                    Command::Restart
                },
                _ => {
                    self.overlay = None;
                    Command::Closed
                },
            }
        } else {
            Command::Stay
        };
        self.close_pressed = false;
        command
    }

    /// The secondary button goes down.
    pub fn mouse_down_right(&mut self, layout: &Layout, cfg: &Config) -> (command: Command)
        requires
            old(self).wf(),
        ensures
            final(self).wf(),
            (final(self)@, command) == old(self)@.on_right_down(*layout, cfg@),
            sound(command),
    {
        let (overlay, m) = match (self.overlay, layout.modal) {
            (Some(overlay), Some(m)) => (overlay, m),
            _ => {
                return Command::Stay;
            },
        };
        match overlay {
            Overlay::CustomInput => {
                self.leave_form(cfg);
                Command::Stay
            },
            Overlay::Win | Overlay::Loss => {
                self.clear();
                Command::Restart
            },
            _ => {
                self.overlay = None;
                self.close_pressed = false;
                Command::Closed
            },
        }
    }
}

/// The line of the difficulty list at a row of the terminal.
fn line_of_list(top: u16, row: u16) -> (line: Option<usize>)
    ensures
        line == list_line(top as int, row as int),
        match line {
            Some(i) => i <= 3,
            None => true,
        },
{
    if row as u32 >= top as u32 + 2 && row as u32 <= top as u32 + 5 {
        Some((row as u32 - top as u32 - 2) as usize)
    } else {
        None
    }
}

} // verus!
