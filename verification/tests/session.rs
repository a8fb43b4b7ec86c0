use xtswpr::board::{Mark, Outcome};
use xtswpr::config::{Config, Record};
use xtswpr::difficulty::Difficulty;
use xtswpr::event::{as_digit, Button, InputEvent, Key};
use xtswpr::geometry::Rect;
use xtswpr::layout::{close_button, form_field, option_rect, overlay_rect, Layout};
use xtswpr::modal::{Command, Modal, Overlay};
use xtswpr::session::{is_playable, Effects, Pointer, Session};

const NOTHING: Effects = Effects { save_config: false, quit: false, glyphs_changed: false };
const SAVE: Effects = Effects { save_config: true, quit: false, glyphs_changed: false };

fn config() -> Config {
    Config::for_locale("en")
}

fn screen() -> Rect {
    Rect { x: 0, y: 0, width: 80, height: 24 }
}

/// The layout of a frame on an 80 by 24 terminal with a 9 by 9 board.
fn layout_for(overlay: Option<Overlay>) -> Layout {
    let mut layout = Layout::empty();
    layout.menu = Some(Rect { x: 0, y: 0, width: 80, height: 3 });
    layout.status = Some(Rect { x: 0, y: 21, width: 80, height: 3 });
    layout.status_text_width = 30;
    layout.board = Some(Rect { x: 29, y: 6, width: 21, height: 11 });
    if let Some(o) = overlay {
        let modal = overlay_rect(o, screen());
        layout.modal = Some(modal);
        layout.close_button = Some(close_button(o, modal));
        if o == Overlay::Options {
            layout.indicator_option = Some(option_rect(modal, 0, 18));
            layout.question_option = Some(option_rect(modal, 1, 15));
            layout.ascii_option = Some(option_rect(modal, 2, 15));
        }
        if o == Overlay::CustomInput {
            layout.width_field = Some(form_field(modal, 0));
            layout.height_field = Some(form_field(modal, 1));
            layout.mines_field = Some(form_field(modal, 2));
        }
    }
    layout
}

fn press(session: &mut Session, cfg: &mut Config, key: Key) -> Effects {
    let layout = layout_for(session.modal().overlay());
    session.handle(cfg, &layout, InputEvent::KeyPress { key, ctrl: false }, 0)
}

fn release(session: &mut Session, cfg: &mut Config, key: Key) -> Effects {
    let layout = layout_for(session.modal().overlay());
    session.handle(cfg, &layout, InputEvent::KeyRelease { key }, 0)
}

fn mouse(session: &mut Session, cfg: &mut Config, event: InputEvent) -> Effects {
    let layout = layout_for(session.modal().overlay());
    session.handle(cfg, &layout, event, 0)
}

/// The terminal position of the left half of a cell of the board.
fn at_cell(x: u16, y: u16) -> (u16, u16) {
    (30 + 2 * x, 7 + y)
}

fn type_text(session: &mut Session, cfg: &mut Config, text: &str) {
    for c in text.chars() {
        press(session, cfg, Key::Char(c));
    }
}

#[test]
fn playable_difficulties() {
    assert!(is_playable(&Difficulty::Beginner));
    assert!(is_playable(&Difficulty::Intermediate));
    assert!(is_playable(&Difficulty::Expert));
    assert!(is_playable(&Difficulty::Custom(36, 24, 800)));
    assert!(is_playable(&Difficulty::Custom(1, 1, 0)));
    assert!(!is_playable(&Difficulty::Custom(0, 10, 5)));
    assert!(!is_playable(&Difficulty::Custom(10, 0, 5)));
    assert!(!is_playable(&Difficulty::Custom(usize::MAX, 2, 5)));
    assert!(!is_playable(&Difficulty::Custom(usize::MAX, usize::MAX, 5)));
    assert!(!is_playable(&Difficulty::Custom(10, 10, usize::MAX)));
}

#[test]
fn digits_are_told_from_other_characters() {
    let digits = ['0', '1', '2', '3', '4', '5', '6', '7', '8', '9'];
    for (i, c) in digits.iter().enumerate() {
        assert_eq!(as_digit(*c), Some(i as u8));
    }
    for c in ['a', ' ', '-', '٣', '９', '/', ':'] {
        assert_eq!(as_digit(c), None);
    }
}

#[test]
fn new_session_starts_on_a_fresh_board() {
    let cfg = config();
    let session = Session::new(&cfg, false);
    assert_eq!(session.game().width(), 9);
    assert_eq!(session.game().height(), 9);
    assert_eq!(session.game().mine_target(), 10);
    assert!(!session.game().is_started());
    assert_eq!(session.modal().overlay(), None);
    assert_eq!(session.modal().selected(), 0);
    assert_eq!(session.cursor_indicator(), Some((0, 0)));
    assert_eq!(session.flash_cell(), None);
    assert_eq!(session.clicked(), None);
    assert_eq!(session.hover_index(), None);
    assert!(!session.new_record());
    assert!(!session.exit_down());
    assert!(!session.exit_hovered());
    assert!(!session.gesture().supports_key_release);
    let mut expert = config();
    expert.difficulty = Difficulty::Expert;
    let s2 = Session::new(&expert, true);
    assert_eq!((s2.game().width(), s2.game().height()), (30, 16));
    assert_eq!(s2.modal().selected(), 2);
    assert!(s2.gesture().supports_key_release);
}

#[test]
fn pointer_down_and_up_on_one_cell_reveals_it() {
    let mut cfg = config();
    let mut session = Session::new(&cfg, false);
    let (col, row) = at_cell(3, 3);
    assert_eq!(mouse(&mut session, &mut cfg, InputEvent::MouseDown { button: Button::Left, col, row }), NOTHING);
    assert!(!session.game().is_revealed(3, 3));
    assert_eq!(session.gesture().left_press, Some((3, 3)));
    mouse(&mut session, &mut cfg, InputEvent::MouseUp { button: Button::Left, col: col + 1, row });
    assert!(session.game().is_revealed(3, 3));
    assert!(!session.game().cell(3, 3).mine);
    assert_eq!(session.gesture().left_press, None);
}

#[test]
fn pointer_up_on_another_cell_reveals_nothing() {
    let mut cfg = config();
    let mut session = Session::new(&cfg, false);
    let (col, row) = at_cell(3, 3);
    mouse(&mut session, &mut cfg, InputEvent::MouseDown { button: Button::Left, col, row });
    let (c2, r2) = at_cell(4, 3);
    mouse(&mut session, &mut cfg, InputEvent::MouseUp { button: Button::Left, col: c2, row: r2 });
    assert!(!session.game().is_started());
    for y in 0..9 {
        for x in 0..9 {
            assert!(!session.game().is_revealed(x, y));
        }
    }
    assert_eq!(session.gesture().left_press, None);
    // A press that ends off the board is dropped as well.
    mouse(&mut session, &mut cfg, InputEvent::MouseDown { button: Button::Left, col, row });
    mouse(&mut session, &mut cfg, InputEvent::MouseUp { button: Button::Left, col: 5, row: 12 });
    assert!(!session.game().is_started());
}

#[test]
fn pointer_moves_the_cursor_over_the_board() {
    let mut cfg = config();
    let mut session = Session::new(&cfg, false);
    let (col, row) = at_cell(5, 7);
    mouse(&mut session, &mut cfg, InputEvent::MouseMove { col, row });
    assert_eq!(session.game().cursor(), (5, 7));
    assert_eq!(session.cursor_indicator(), Some((5, 7)));
    mouse(&mut session, &mut cfg, InputEvent::MouseMove { col: 2, row: 12 });
    assert_eq!(session.game().cursor(), (5, 7));
}

#[test]
fn secondary_button_flags_the_cell_under_it() {
    let mut cfg = config();
    let mut session = Session::new(&cfg, false);
    let (col, row) = at_cell(2, 6);
    mouse(&mut session, &mut cfg, InputEvent::MouseDown { button: Button::Right, col, row });
    assert_eq!(session.game().mark(2, 6), Mark::Flag);
    assert_eq!(session.game().remaining_mines(), 9);
    mouse(&mut session, &mut cfg, InputEvent::MouseUp { button: Button::Right, col, row });
    assert_eq!(session.game().mark(2, 6), Mark::Flag);
    mouse(&mut session, &mut cfg, InputEvent::MouseDown { button: Button::Right, col, row });
    assert_eq!(session.game().mark(2, 6), Mark::Clear);
    cfg.use_question_marks = true;
    mouse(&mut session, &mut cfg, InputEvent::MouseUp { button: Button::Right, col, row });
    mouse(&mut session, &mut cfg, InputEvent::MouseDown { button: Button::Right, col, row });
    mouse(&mut session, &mut cfg, InputEvent::MouseUp { button: Button::Right, col, row });
    mouse(&mut session, &mut cfg, InputEvent::MouseDown { button: Button::Right, col, row });
    assert_eq!(session.game().mark(2, 6), Mark::Question);
}

#[test]
fn keys_move_the_cursor_and_flag() {
    let mut cfg = config();
    let mut session = Session::new(&cfg, false);
    press(&mut session, &mut cfg, Key::Right);
    press(&mut session, &mut cfg, Key::Right);
    press(&mut session, &mut cfg, Key::Down);
    assert_eq!(session.game().cursor(), (2, 1));
    assert_eq!(session.cursor_indicator(), Some((2, 1)));
    press(&mut session, &mut cfg, Key::Left);
    press(&mut session, &mut cfg, Key::Up);
    press(&mut session, &mut cfg, Key::Up);
    assert_eq!(session.game().cursor(), (1, 0));
    press(&mut session, &mut cfg, Key::Char('f'));
    assert_eq!(session.game().mark(1, 0), Mark::Flag);
    press(&mut session, &mut cfg, Key::Char('F'));
    assert_eq!(session.game().mark(1, 0), Mark::Clear);
    press(&mut session, &mut cfg, Key::Char('x'));
    press(&mut session, &mut cfg, Key::Other);
    press(&mut session, &mut cfg, Key::Tab);
    assert_eq!(session.game().cursor(), (1, 0));
    assert!(!session.game().is_started());
}

#[test]
fn reveal_key_reveals_on_release() {
    let mut cfg = config();
    let mut session = Session::new(&cfg, true);
    press(&mut session, &mut cfg, Key::Right);
    press(&mut session, &mut cfg, Key::Char(' '));
    assert!(!session.game().is_revealed(1, 0));
    assert_eq!(session.gesture().left_press, Some((1, 0)));
    release(&mut session, &mut cfg, Key::Char(' '));
    assert!(session.game().is_revealed(1, 0));
    // A press that the cursor leaves before the release reveals nothing.
    let mut other = Session::new(&cfg, true);
    press(&mut other, &mut cfg, Key::Char(' '));
    press(&mut other, &mut cfg, Key::Down);
    release(&mut other, &mut cfg, Key::Char(' '));
    assert!(!other.game().is_started());
}

#[test]
fn reveal_key_release_is_made_up_by_the_clock() {
    let mut cfg = config();
    let mut session = Session::new(&cfg, false);
    let layout = layout_for(None);
    session.handle(&mut cfg, &layout, InputEvent::KeyPress { key: Key::Char(' '), ctrl: false }, 500);
    assert_eq!(session.tick(&mut cfg, 550), NOTHING);
    assert!(!session.game().is_revealed(0, 0));
    session.tick(&mut cfg, 600);
    assert!(session.game().is_revealed(0, 0));
    assert_eq!(session.gesture().key_timer, None);
}

#[test]
fn chord_key_flashes_where_the_flags_do_not_fit() {
    let mut cfg = config();
    // Find a game whose first reveal shows a number.
    for _ in 0..500 {
        let mut session = Session::new(&cfg, true);
        press(&mut session, &mut cfg, Key::Char(' '));
        release(&mut session, &mut cfg, Key::Char(' '));
        if session.game().cell(0, 0).adj == 0 {
            continue;
        }
        let layout = layout_for(None);
        session.handle(&mut cfg, &layout, InputEvent::KeyPress { key: Key::Enter, ctrl: false }, 70);
        assert_eq!(session.gesture().chord_active, Some((0, 0)));
        session.handle(&mut cfg, &layout, InputEvent::KeyRelease { key: Key::Enter }, 90);
        assert_eq!(session.flash_cell(), Some(((0, 0), 90)));
        assert_eq!(session.gesture().chord_active, None);
        assert_eq!(session.game().outcome(), Outcome::Ongoing);
        return;
    }
    panic!("no game began on a numbered cell");
}

#[test]
fn escape_in_play_ends_the_session() {
    let mut cfg = config();
    let mut session = Session::new(&cfg, false);
    let effects = press(&mut session, &mut cfg, Key::Esc);
    assert_eq!(effects, Effects { save_config: false, quit: true, glyphs_changed: false });
}

#[test]
fn function_keys_open_the_overlays() {
    let mut cfg = config();
    for (n, overlay) in [
        (1, Overlay::Help),
        (4, Overlay::Records),
        (5, Overlay::Difficulty),
        (7, Overlay::Options),
        (9, Overlay::About),
    ] {
        let mut session = Session::new(&cfg, false);
        assert_eq!(press(&mut session, &mut cfg, Key::F(n)), NOTHING);
        assert_eq!(session.modal().overlay(), Some(overlay));
    }
    let mut session = Session::new(&cfg, false);
    press(&mut session, &mut cfg, Key::F(3));
    assert_eq!(session.modal().overlay(), None);
    let layout = layout_for(None);
    session.handle(&mut cfg, &layout, InputEvent::KeyPress { key: Key::Char('o'), ctrl: true }, 0);
    assert_eq!(session.modal().overlay(), Some(Overlay::Difficulty));
    let mut plain = Session::new(&cfg, false);
    press(&mut plain, &mut cfg, Key::Char('o'));
    assert_eq!(plain.modal().overlay(), None);
}

#[test]
fn an_overlay_takes_all_input() {
    let mut cfg = config();
    let mut session = Session::new(&cfg, true);
    press(&mut session, &mut cfg, Key::Char(' '));
    press(&mut session, &mut cfg, Key::F(1));
    // Opening the overlay has brought the tracker to rest.
    assert_eq!(session.gesture().left_press, None);
    release(&mut session, &mut cfg, Key::Char(' '));
    assert!(!session.game().is_started());
    assert_eq!(session.modal().overlay(), Some(Overlay::Help));
    let (col, row) = at_cell(0, 0);
    mouse(&mut session, &mut cfg, InputEvent::MouseDown { button: Button::Left, col, row });
    mouse(&mut session, &mut cfg, InputEvent::MouseUp { button: Button::Left, col, row });
    assert!(!session.game().is_started());
    // Any key closes the page.
    press(&mut session, &mut cfg, Key::Char('q'));
    assert_eq!(session.modal().overlay(), None);
}

#[test]
fn new_game_key_replaces_the_board() {
    let mut cfg = config();
    let mut session = Session::new(&cfg, false);
    press(&mut session, &mut cfg, Key::Right);
    press(&mut session, &mut cfg, Key::Char('f'));
    let (col, row) = at_cell(4, 4);
    mouse(&mut session, &mut cfg, InputEvent::MouseDown { button: Button::Left, col, row });
    mouse(&mut session, &mut cfg, InputEvent::MouseUp { button: Button::Left, col, row });
    assert!(session.game().is_revealed(4, 4));
    press(&mut session, &mut cfg, Key::F(2));
    assert!(!session.game().is_started());
    assert!(!session.game().is_revealed(4, 4));
    assert_eq!(session.game().mark(1, 0), Mark::Clear);
    assert_eq!(session.game().cursor(), (0, 0));
    assert_eq!(session.cursor_indicator(), Some((0, 0)));
}

#[test]
fn difficulty_list_moves_round_and_applies_a_preset() {
    let mut cfg = config();
    let mut session = Session::new(&cfg, false);
    press(&mut session, &mut cfg, Key::F(5));
    assert_eq!(session.modal().selected(), 0);
    press(&mut session, &mut cfg, Key::Up);
    assert_eq!(session.modal().selected(), 3);
    assert_eq!(session.modal().hover(), Some(3));
    press(&mut session, &mut cfg, Key::Down);
    assert_eq!(session.modal().selected(), 0);
    press(&mut session, &mut cfg, Key::Down);
    press(&mut session, &mut cfg, Key::Down);
    assert_eq!(session.modal().selected(), 2);
    let effects = press(&mut session, &mut cfg, Key::Enter);
    assert_eq!(effects, SAVE);
    assert_eq!(cfg.difficulty, Difficulty::Expert);
    assert_eq!(session.modal().overlay(), None);
    assert_eq!((session.game().width(), session.game().height()), (30, 16));
    assert_eq!(session.game().mine_target(), 99);
    // By its number.
    press(&mut session, &mut cfg, Key::F(5));
    assert_eq!(session.modal().selected(), 2);
    assert_eq!(press(&mut session, &mut cfg, Key::Char('2')), SAVE);
    assert_eq!(cfg.difficulty, Difficulty::Intermediate);
    assert_eq!((session.game().width(), session.game().height()), (16, 16));
    assert_eq!(session.modal().selected(), 1);
    // Escape closes the list and keeps the difficulty.
    mouse(&mut session, &mut cfg, InputEvent::MouseMove { col: 40, row: 1 });
    assert_eq!(session.hover_index(), Some(3));
    press(&mut session, &mut cfg, Key::F(5));
    press(&mut session, &mut cfg, Key::Up);
    assert_eq!(press(&mut session, &mut cfg, Key::Esc), NOTHING);
    assert_eq!(session.modal().overlay(), None);
    assert_eq!(session.hover_index(), Some(3));
    press(&mut session, &mut cfg, Key::F(1));
    press(&mut session, &mut cfg, Key::Esc);
    assert_eq!(session.hover_index(), None);
    assert_eq!(cfg.difficulty, Difficulty::Intermediate);
    assert_eq!(session.game().width(), 16);
}

#[test]
fn custom_width_forty_is_marked_and_nothing_applied() {
    let mut cfg = config();
    let mut session = Session::new(&cfg, false);
    press(&mut session, &mut cfg, Key::F(5));
    press(&mut session, &mut cfg, Key::Char('4'));
    assert_eq!(session.modal().overlay(), Some(Overlay::CustomInput));
    assert_eq!(session.modal().form().width_digits(), &vec![3, 6]);
    assert_eq!(session.modal().form().height_digits(), &vec![2, 0]);
    assert_eq!(session.modal().form().mines_digits(), &vec![1, 5, 0]);
    press(&mut session, &mut cfg, Key::Backspace);
    press(&mut session, &mut cfg, Key::Backspace);
    type_text(&mut session, &mut cfg, "40");
    press(&mut session, &mut cfg, Key::Tab);
    press(&mut session, &mut cfg, Key::Backspace);
    press(&mut session, &mut cfg, Key::Backspace);
    type_text(&mut session, &mut cfg, "10");
    press(&mut session, &mut cfg, Key::Down);
    press(&mut session, &mut cfg, Key::Backspace);
    press(&mut session, &mut cfg, Key::Backspace);
    press(&mut session, &mut cfg, Key::Backspace);
    type_text(&mut session, &mut cfg, "50");
    assert_eq!(session.modal().form().width_digits(), &vec![4, 0]);
    assert_eq!(session.modal().form().height_digits(), &vec![1, 0]);
    assert_eq!(session.modal().form().mines_digits(), &vec![5, 0]);
    let layout = layout_for(Some(Overlay::CustomInput));
    let effects = session.handle(&mut cfg, &layout, InputEvent::KeyPress { key: Key::Enter, ctrl: false }, 777);
    assert_eq!(effects, NOTHING);
    assert_eq!(session.modal().form().invalid(), Some((0, 777)));
    assert_eq!(session.modal().overlay(), Some(Overlay::CustomInput));
    assert_eq!(cfg.difficulty, Difficulty::Beginner);
    assert_eq!((cfg.custom_w, cfg.custom_h, cfg.custom_n), (36, 20, 150));
    assert_eq!((session.game().width(), session.game().height()), (9, 9));
    // Editing goes on: with a width in range the board is replaced.
    press(&mut session, &mut cfg, Key::BackTab);
    press(&mut session, &mut cfg, Key::Up);
    press(&mut session, &mut cfg, Key::Backspace);
    press(&mut session, &mut cfg, Key::Backspace);
    type_text(&mut session, &mut cfg, "12x");
    assert_eq!(press(&mut session, &mut cfg, Key::Enter), SAVE);
    assert_eq!(cfg.difficulty, Difficulty::Custom(12, 10, 50));
    assert_eq!((cfg.custom_w, cfg.custom_h, cfg.custom_n), (12, 10, 50));
    assert_eq!((session.game().width(), session.game().height()), (12, 10));
    assert_eq!(session.game().mine_target(), 50);
    assert_eq!(session.modal().overlay(), None);
    assert!(session.modal().form().width_digits().is_empty());
    assert_eq!(session.modal().form().invalid(), None);
}

#[test]
fn custom_form_is_given_up_by_escape_or_the_secondary_button() {
    let mut cfg = config();
    cfg.difficulty = Difficulty::Intermediate;
    let mut session = Session::new(&cfg, false);
    press(&mut session, &mut cfg, Key::F(5));
    press(&mut session, &mut cfg, Key::Up);
    press(&mut session, &mut cfg, Key::Up);
    assert_eq!(session.modal().selected(), 3);
    press(&mut session, &mut cfg, Key::Char(' '));
    assert_eq!(session.modal().overlay(), Some(Overlay::CustomInput));
    press(&mut session, &mut cfg, Key::Esc);
    assert_eq!(session.modal().overlay(), Some(Overlay::Difficulty));
    assert_eq!(session.modal().selected(), 1);
    assert!(session.modal().form().width_digits().is_empty());
    press(&mut session, &mut cfg, Key::Char('4'));
    mouse(&mut session, &mut cfg, InputEvent::MouseDown { button: Button::Right, col: 0, row: 0 });
    assert_eq!(session.modal().overlay(), Some(Overlay::Difficulty));
    mouse(&mut session, &mut cfg, InputEvent::MouseDown { button: Button::Right, col: 0, row: 0 });
    assert_eq!(session.modal().overlay(), None);
    assert_eq!(cfg.difficulty, Difficulty::Intermediate);
}

#[test]
fn pointer_works_the_difficulty_list_and_the_form() {
    let mut cfg = config();
    let mut session = Session::new(&cfg, false);
    press(&mut session, &mut cfg, Key::F(5));
    // The overlay stands at (19, 7); its four lines are the rows 9 to 12.
    mouse(&mut session, &mut cfg, InputEvent::MouseMove { col: 25, row: 10 });
    assert_eq!(session.modal().hover(), Some(1));
    mouse(&mut session, &mut cfg, InputEvent::MouseMove { col: 25, row: 13 });
    assert_eq!(session.modal().hover(), None);
    mouse(&mut session, &mut cfg, InputEvent::MouseMove { col: 25, row: 12 });
    assert_eq!(session.modal().hover(), Some(3));
    mouse(&mut session, &mut cfg, InputEvent::MouseDown { button: Button::Left, col: 25, row: 12 });
    assert_eq!(session.modal().overlay(), Some(Overlay::CustomInput));
    // The fields stand at column 41 on the rows 9, 11 and 13.
    mouse(&mut session, &mut cfg, InputEvent::MouseDown { button: Button::Left, col: 42, row: 13 });
    assert_eq!(session.modal().form().focus(), 2);
    mouse(&mut session, &mut cfg, InputEvent::MouseDown { button: Button::Left, col: 41, row: 11 });
    assert_eq!(session.modal().form().focus(), 1);
    mouse(&mut session, &mut cfg, InputEvent::MouseDown { button: Button::Left, col: 44, row: 9 });
    assert_eq!(session.modal().form().focus(), 1);
    // The button that accepts stands at (37, 15), five columns wide.
    mouse(&mut session, &mut cfg, InputEvent::MouseMove { col: 38, row: 15 });
    assert!(session.modal().close_hovered());
    mouse(&mut session, &mut cfg, InputEvent::MouseDown { button: Button::Left, col: 38, row: 15 });
    assert!(session.modal().close_pressed());
    // Let go off the button: nothing is accepted.
    assert_eq!(mouse(&mut session, &mut cfg, InputEvent::MouseUp { button: Button::Left, col: 50, row: 15 }), NOTHING);
    assert!(!session.modal().close_pressed());
    assert_eq!(session.modal().overlay(), Some(Overlay::CustomInput));
    mouse(&mut session, &mut cfg, InputEvent::MouseDown { button: Button::Left, col: 41, row: 15 });
    assert_eq!(mouse(&mut session, &mut cfg, InputEvent::MouseUp { button: Button::Left, col: 37, row: 15 }), SAVE);
    assert_eq!(cfg.difficulty, Difficulty::Custom(36, 20, 150));
    assert_eq!((session.game().width(), session.game().height()), (36, 20));
    // A click on a preset applies it at once.
    press(&mut session, &mut cfg, Key::F(5));
    assert_eq!(session.modal().selected(), 3);
    assert_eq!(mouse(&mut session, &mut cfg, InputEvent::MouseDown { button: Button::Left, col: 30, row: 9 }), SAVE);
    assert_eq!(cfg.difficulty, Difficulty::Beginner);
    assert_eq!(session.modal().overlay(), None);
}

#[test]
fn options_are_kept_on_enter_and_dropped_on_escape() {
    let mut cfg = config();
    cfg.ascii_icons = true;
    let mut session = Session::new(&cfg, false);
    press(&mut session, &mut cfg, Key::F(7));
    let draft = session.modal().options();
    assert_eq!((draft.show_indicator, draft.use_question_marks, draft.ascii_icons), (false, false, true));
    assert_eq!(draft.focus, Some(0));
    press(&mut session, &mut cfg, Key::Char(' '));
    press(&mut session, &mut cfg, Key::Up);
    assert_eq!(session.modal().options().focus, Some(2));
    press(&mut session, &mut cfg, Key::Char(' '));
    press(&mut session, &mut cfg, Key::Down);
    press(&mut session, &mut cfg, Key::Down);
    assert_eq!(session.modal().options().focus, Some(1));
    assert_eq!(press(&mut session, &mut cfg, Key::Esc), NOTHING);
    assert_eq!(session.modal().overlay(), None);
    assert_eq!((cfg.show_indicator, cfg.use_question_marks, cfg.ascii_icons), (false, false, true));

    press(&mut session, &mut cfg, Key::F(7));
    press(&mut session, &mut cfg, Key::Down);
    press(&mut session, &mut cfg, Key::Char(' '));
    let effects = press(&mut session, &mut cfg, Key::Enter);
    assert_eq!(effects, Effects { save_config: true, quit: false, glyphs_changed: true });
    assert_eq!((cfg.show_indicator, cfg.use_question_marks, cfg.ascii_icons), (false, true, true));
    assert_eq!(session.modal().overlay(), None);
    assert_eq!(session.modal().options().focus, None);
}

#[test]
fn pointer_works_the_options() {
    let mut cfg = config();
    let mut session = Session::new(&cfg, false);
    press(&mut session, &mut cfg, Key::F(7));
    // The overlay stands at (25, 8); the options are the rows 10 to 12 from column 27.
    mouse(&mut session, &mut cfg, InputEvent::MouseMove { col: 50, row: 11 });
    assert_eq!(session.modal().options().focus, Some(1));
    mouse(&mut session, &mut cfg, InputEvent::MouseMove { col: 30, row: 12 });
    assert_eq!(session.modal().options().focus, Some(2));
    mouse(&mut session, &mut cfg, InputEvent::MouseDown { button: Button::Left, col: 30, row: 10 });
    assert!(session.modal().options().show_indicator);
    assert_eq!(session.modal().options().focus, Some(0));
    // Beside the text of an option a click changes nothing.
    mouse(&mut session, &mut cfg, InputEvent::MouseDown { button: Button::Left, col: 50, row: 11 });
    assert!(!session.modal().options().use_question_marks);
    // The button that accepts stands at (37, 14).
    mouse(&mut session, &mut cfg, InputEvent::MouseDown { button: Button::Left, col: 39, row: 14 });
    let effects = mouse(&mut session, &mut cfg, InputEvent::MouseUp { button: Button::Left, col: 39, row: 14 });
    assert_eq!(effects, Effects { save_config: true, quit: false, glyphs_changed: true });
    assert!(cfg.show_indicator);
    assert_eq!(session.modal().overlay(), None);
}

#[test]
fn menu_bar_hovers_and_opens() {
    let mut cfg = config();
    let mut session = Session::new(&cfg, false);
    mouse(&mut session, &mut cfg, InputEvent::MouseMove { col: 14, row: 1 });
    assert_eq!(session.hover_index(), Some(1));
    assert_eq!(session.cursor_indicator(), None);
    session.frame_drawn();
    assert_eq!(session.cursor_indicator(), Some((0, 0)));
    mouse(&mut session, &mut cfg, InputEvent::MouseMove { col: 11, row: 1 });
    assert_eq!(session.hover_index(), None);
    mouse(&mut session, &mut cfg, InputEvent::MouseMove { col: 14, row: 1 });
    mouse(&mut session, &mut cfg, InputEvent::MouseMove { col: 14, row: 5 });
    assert_eq!(session.hover_index(), None);
    let layout = layout_for(None);
    session.handle(&mut cfg, &layout, InputEvent::MouseDown { button: Button::Left, col: 25, row: 1 }, 1000);
    assert_eq!(session.modal().overlay(), Some(Overlay::Records));
    assert_eq!(session.clicked(), Some((2, 1000)));
    session.tick(&mut cfg, 1200);
    assert_eq!(session.clicked(), Some((2, 1000)));
    session.tick(&mut cfg, 1201);
    assert_eq!(session.clicked(), None);
    // A click between two items does nothing.
    let mut other = Session::new(&cfg, false);
    mouse(&mut other, &mut cfg, InputEvent::MouseDown { button: Button::Left, col: 11, row: 1 });
    assert_eq!(other.modal().overlay(), None);
    assert_eq!(other.clicked(), None);
}

#[test]
fn exit_label_ends_the_session_when_let_go_on_it() {
    let mut cfg = config();
    let mut session = Session::new(&cfg, false);
    mouse(&mut session, &mut cfg, InputEvent::MouseMove { col: 70, row: 22 });
    assert!(session.exit_hovered());
    mouse(&mut session, &mut cfg, InputEvent::MouseMove { col: 60, row: 22 });
    assert!(!session.exit_hovered());
    assert_eq!(mouse(&mut session, &mut cfg, InputEvent::MouseDown { button: Button::Left, col: 70, row: 22 }), NOTHING);
    assert!(session.exit_down());
    assert_eq!(mouse(&mut session, &mut cfg, InputEvent::MouseUp { button: Button::Left, col: 60, row: 22 }), NOTHING);
    assert!(!session.exit_down());
    assert_eq!(mouse(&mut session, &mut cfg, InputEvent::MouseUp { button: Button::Left, col: 70, row: 22 }), NOTHING);
    mouse(&mut session, &mut cfg, InputEvent::MouseDown { button: Button::Left, col: 77, row: 22 });
    let effects = mouse(&mut session, &mut cfg, InputEvent::MouseUp { button: Button::Left, col: 69, row: 22 });
    assert_eq!(effects, Effects { save_config: false, quit: true, glyphs_changed: false });
}

#[test]
fn winning_opens_the_banner_and_any_key_starts_anew() {
    let mut cfg = config();
    cfg.difficulty = Difficulty::Custom(2, 2, 3);
    let mut session = Session::new(&cfg, true);
    press(&mut session, &mut cfg, Key::Char(' '));
    release(&mut session, &mut cfg, Key::Char(' '));
    assert_eq!(session.game().outcome(), Outcome::Won);
    assert_eq!(session.modal().overlay(), Some(Overlay::Win));
    assert_eq!(session.game().remaining_mines(), 0);
    // A custom board keeps no record.
    assert_eq!(session.tick(&mut cfg, 10), NOTHING);
    assert!(!session.new_record());
    assert_eq!(press(&mut session, &mut cfg, Key::Char('x')), NOTHING);
    assert_eq!(session.modal().overlay(), None);
    assert_eq!(session.game().outcome(), Outcome::Ongoing);
    assert!(!session.game().is_started());
    assert!(!session.game().is_revealed(0, 0));
    assert_eq!((session.game().width(), session.game().height()), (2, 2));
}

#[test]
fn losing_shows_every_mine_and_the_banner() {
    let mut cfg = config();
    cfg.difficulty = Difficulty::Custom(3, 1, 1);
    for _ in 0..500 {
        let mut session = Session::new(&cfg, true);
        press(&mut session, &mut cfg, Key::Char(' '));
        release(&mut session, &mut cfg, Key::Char(' '));
        if session.game().outcome() != Outcome::Ongoing {
            assert_eq!(session.modal().overlay(), Some(Overlay::Win));
            continue;
        }
        // The mine lies beside the first cell.
        assert!(session.game().cell(1, 0).mine);
        press(&mut session, &mut cfg, Key::Right);
        press(&mut session, &mut cfg, Key::Char(' '));
        release(&mut session, &mut cfg, Key::Char(' '));
        assert_eq!(session.game().outcome(), Outcome::Lost);
        assert_eq!(session.modal().overlay(), Some(Overlay::Loss));
        assert!(session.game().is_revealed(1, 0));
        assert!(!session.game().is_revealed(2, 0));
        assert_eq!(session.gesture().left_press, None);
        // The banner closes by its button and a new game begins.
        let layout = layout_for(Some(Overlay::Loss));
        let button = layout.close_button.unwrap();
        mouse(&mut session, &mut cfg, InputEvent::MouseDown { button: Button::Left, col: button.x, row: button.y });
        assert!(session.modal().close_pressed());
        mouse(&mut session, &mut cfg, InputEvent::MouseUp { button: Button::Left, col: button.x + 8, row: button.y });
        assert_eq!(session.modal().overlay(), None);
        assert_eq!(session.game().outcome(), Outcome::Ongoing);
        assert!(!session.game().is_revealed(1, 0));
        return;
    }
    panic!("no game left a cell to lose on");
}

#[test]
fn new_record_is_kept_and_reported() {
    let mut cfg = config();
    cfg.difficulty = Difficulty::Intermediate;
    cfg.best_intermediate = Some(Record { secs: 120, date: String::from("2020-02-02") });
    let mut session = Session::new(&cfg, false);
    assert_eq!(session.record_win(&mut cfg, 95), SAVE);
    assert!(session.new_record());
    assert_eq!(cfg.get_record(&Difficulty::Intermediate), Some(95));
    // The same time again is no new record.
    assert_eq!(session.record_win(&mut cfg, 95), NOTHING);
    assert_eq!(cfg.get_record(&Difficulty::Intermediate), Some(95));
}

#[test]
fn worse_time_is_no_record() {
    let mut cfg = config();
    cfg.difficulty = Difficulty::Intermediate;
    cfg.best_intermediate = Some(Record { secs: 120, date: String::from("2020-02-02") });
    let mut session = Session::new(&cfg, false);
    assert_eq!(session.record_win(&mut cfg, 130), NOTHING);
    assert!(!session.new_record());
    assert_eq!(
        cfg.get_record_detail(&Difficulty::Intermediate),
        Some((120, String::from("2020-02-02")))
    );
    cfg.difficulty = Difficulty::Custom(16, 16, 40);
    assert_eq!(session.record_win(&mut cfg, 1), NOTHING);
    assert!(!session.new_record());
    cfg.difficulty = Difficulty::Expert;
    assert_eq!(session.record_win(&mut cfg, 999), SAVE);
    assert!(session.new_record());
    assert_eq!(cfg.get_record(&Difficulty::Expert), Some(999));
}

#[test]
fn modal_commands_by_key() {
    let cfg = config();
    let mut modal = Modal::new(0);
    assert_eq!(modal.key(Key::Enter, &cfg, 0), Command::Stay);
    modal.open(Overlay::About, &cfg);
    assert_eq!(modal.key(Key::Other, &cfg, 0), Command::Closed);
    assert_eq!(modal.overlay(), None);
    modal.show(Overlay::Win);
    assert_eq!(modal.key(Key::Esc, &cfg, 0), Command::Restart);
    modal.open(Overlay::Difficulty, &cfg);
    assert_eq!(modal.key(Key::Char('3'), &cfg, 0), Command::ApplyPreset(2));
    assert_eq!(modal.selected(), 2);
    modal.open(Overlay::Difficulty, &cfg);
    assert_eq!(modal.key(Key::Char('4'), &cfg, 0), Command::Stay);
    assert_eq!(modal.key(Key::Enter, &cfg, 0), Command::ApplyCustom(36, 20, 150));
    modal.open(Overlay::Options, &cfg);
    assert_eq!(modal.key(Key::Char(' '), &cfg, 0), Command::Stay);
    assert_eq!(modal.key(Key::Enter, &cfg, 0), Command::ApplyOptions(true, false, false));
    modal.show(Overlay::Loss);
    modal.clear();
    assert_eq!(modal.overlay(), None);
}

#[test]
fn pointer_kinds_are_told_apart() {
    assert_ne!(Pointer::Move, Pointer::Down(Button::Left));
    assert_ne!(Pointer::Down(Button::Left), Pointer::Up(Button::Left));
    assert_ne!(Pointer::Down(Button::Left), Pointer::Down(Button::Right));
    let mut cfg = config();
    let mut session = Session::new(&cfg, false);
    let layout = layout_for(None);
    let (col, row) = at_cell(1, 1);
    session.pointer(&mut cfg, &layout, Pointer::Down(Button::Middle), col, row, 0);
    session.pointer(&mut cfg, &layout, Pointer::Up(Button::Middle), col, row, 0);
    assert!(!session.game().is_started());
    assert_eq!(session.game().mark(1, 1), Mark::Clear);
    session.pointer(&mut cfg, &layout, Pointer::Down(Button::Left), col, row, 0);
    session.pointer(&mut cfg, &layout, Pointer::Up(Button::Left), col, row, 0);
    assert!(session.game().is_revealed(1, 1));
}

#[test]
fn a_win_on_a_preset_is_noted_by_the_next_tick() {
    let mut cfg = config();
    cfg.best_beginner = Some(Record { secs: 120, date: String::from("2020-02-02") });
    let mut session = Session::new(&cfg, false);
    let click = |session: &mut Session, cfg: &mut Config, x: usize, y: usize| {
        let (col, row) = at_cell(x as u16, y as u16);
        mouse(session, cfg, InputEvent::MouseDown { button: Button::Left, col, row });
        mouse(session, cfg, InputEvent::MouseUp { button: Button::Left, col, row });
    };
    click(&mut session, &mut cfg, 4, 4);
    for y in 0..9 {
        for x in 0..9 {
            if session.game().outcome() == Outcome::Ongoing && !session.game().cell(x, y).mine {
                click(&mut session, &mut cfg, x, y);
            }
        }
    }
    assert_eq!(session.game().outcome(), Outcome::Won);
    assert_eq!(session.modal().overlay(), Some(Overlay::Win));
    assert_eq!(session.game().remaining_mines(), 0);
    assert!(!session.new_record());
    let effects = session.tick(&mut cfg, 5);
    if session.game().has_elapsed() {
        assert_eq!(effects, SAVE);
        assert!(session.new_record());
        assert_eq!(cfg.get_record(&Difficulty::Beginner), Some(session.game().elapsed_secs()));
    } else {
        assert_eq!(effects, NOTHING);
        assert!(!session.new_record());
    }
    // A second tick has nothing more to note.
    assert_eq!(session.tick(&mut cfg, 6), NOTHING);
    // The banner closes and the next game begins without a record to show.
    press(&mut session, &mut cfg, Key::Enter);
    assert!(!session.new_record());
    assert_eq!(session.game().outcome(), Outcome::Ongoing);
}
