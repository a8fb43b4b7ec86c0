use xtswpr::board::{ChordResult, Mark, Outcome};
use xtswpr::game::Game;

/// A board with the mines at the cells given, ready for its first reveal.
fn laid(w: usize, h: usize, mines: &[(usize, usize)]) -> Game {
    let mut layout = vec![false; w * h];
    for &(x, y) in mines {
        layout[y * w + x] = true;
    }
    let mut game = Game::new(w, h, mines.len());
    game.start_with(&layout);
    game
}

fn count_mines(game: &Game) -> usize {
    let mut n = 0;
    for y in 0..game.height() {
        for x in 0..game.width() {
            if game.cell(x, y).mine {
                n += 1;
            }
        }
    }
    n
}

fn count_revealed(game: &Game) -> usize {
    let mut n = 0;
    for y in 0..game.height() {
        for x in 0..game.width() {
            if game.is_revealed(x, y) {
                n += 1;
            }
        }
    }
    n
}

fn mines_around(game: &Game, x: usize, y: usize) -> u8 {
    let mut n = 0;
    for dy in -1i64..=1 {
        for dx in -1i64..=1 {
            if dx == 0 && dy == 0 {
                continue;
            }
            let nx = x as i64 + dx;
            let ny = y as i64 + dy;
            if nx >= 0 && ny >= 0 && (nx as usize) < game.width() && (ny as usize) < game.height() {
                if game.cell(nx as usize, ny as usize).mine {
                    n += 1;
                }
            }
        }
    }
    n
}

#[test]
fn new_board_is_covered_and_empty() {
    let game = Game::new(9, 9, 10);
    assert_eq!(game.width(), 9);
    assert_eq!(game.height(), 9);
    assert_eq!(game.mine_target(), 10);
    assert_eq!(game.cursor(), (0, 0));
    assert!(!game.is_started());
    assert_eq!(game.outcome(), Outcome::Ongoing);
    assert_eq!(game.remaining_mines(), 10);
    assert!(!game.has_elapsed());
    for y in 0..9 {
        for x in 0..9 {
            assert!(!game.is_revealed(x, y));
            assert_eq!(game.mark(x, y), Mark::Clear);
            assert!(!game.cell(x, y).mine);
            assert_eq!(game.cell(x, y).adj, 0);
        }
    }
}

#[test]
fn index_counts_row_by_row() {
    let game = Game::new(7, 4, 3);
    assert_eq!(game.index(0, 0), 0);
    assert_eq!(game.index(6, 0), 6);
    assert_eq!(game.index(0, 1), 7);
    assert_eq!(game.index(3, 2), 17);
    assert_eq!(game.index(6, 3), 27);
}

#[test]
fn first_reveal_lays_the_mines_away_from_the_cell() {
    for round in 0..40 {
        let w = 5 + round % 7;
        let h = 4 + round % 5;
        let mines = 1 + (round * 3) % (w * h);
        let x = round % w;
        let y = (round * 2) % h;
        let mut game = Game::new(w, h, mines);
        game.reveal_cell(x, y);
        let expected = if mines <= w * h - 1 { mines } else { w * h - 1 };
        assert_eq!(count_mines(&game), expected);
        assert!(!game.cell(x, y).mine);
        assert!(game.is_revealed(x, y));
        assert_ne!(game.outcome(), Outcome::Lost);
        for cy in 0..h {
            for cx in 0..w {
                assert_eq!(game.cell(cx, cy).adj, mines_around(&game, cx, cy));
            }
        }
    }
}

#[test]
fn random_layouts_differ_between_games() {
    let mut seen_other = false;
    let mut first: Option<Vec<bool>> = None;
    for _ in 0..20 {
        let mut game = Game::new(16, 16, 40);
        game.reveal_cell(8, 8);
        let mut layout = Vec::new();
        for y in 0..16 {
            for x in 0..16 {
                layout.push(game.cell(x, y).mine);
            }
        }
        match &first {
            None => first = Some(layout),
            Some(f) => {
                if *f != layout {
                    seen_other = true;
                }
            }
        }
    }
    assert!(seen_other);
}

#[test]
fn overfull_board_keeps_the_first_cell_free() {
    let mut game = Game::new(3, 3, 100);
    game.reveal_cell(1, 1);
    assert_eq!(count_mines(&game), 8);
    assert!(!game.cell(1, 1).mine);
    assert_eq!(game.cell(1, 1).adj, 8);
    assert_eq!(game.outcome(), Outcome::Won);
    assert!(!game.is_started());
    for y in 0..3 {
        for x in 0..3 {
            if (x, y) != (1, 1) {
                assert_eq!(game.mark(x, y), Mark::Flag);
                assert!(!game.is_revealed(x, y));
            }
        }
    }
    assert_eq!(game.remaining_mines(), 92);
}

#[test]
fn single_cell_board_is_won_at_once() {
    let mut game = Game::new(1, 1, 5);
    game.reveal_cell(0, 0);
    assert_eq!(count_mines(&game), 0);
    assert_eq!(game.outcome(), Outcome::Won);
}

#[test]
fn place_mines_without_a_cell_to_avoid_fills_to_the_target() {
    let mut game = Game::new(4, 4, 16);
    game.place_mines(None);
    assert_eq!(count_mines(&game), 16);
    assert!(game.is_started());
    let mut other = Game::new(4, 4, 20);
    other.place_mines(None);
    assert_eq!(count_mines(&other), 16);
    let mut third = Game::new(4, 4, 5);
    third.place_mines(Some((2, 3)));
    assert_eq!(count_mines(&third), 5);
    assert!(!third.cell(2, 3).mine);
}

#[test]
fn start_with_lays_the_given_mines_and_numbers() {
    let game = laid(4, 3, &[(0, 0), (2, 1)]);
    assert!(game.is_started());
    assert!(game.cell(0, 0).mine);
    assert!(game.cell(2, 1).mine);
    assert_eq!(count_mines(&game), 2);
    assert_eq!(game.cell(1, 0).adj, 2);
    assert_eq!(game.cell(1, 1).adj, 2);
    assert_eq!(game.cell(0, 1).adj, 1);
    assert_eq!(game.cell(3, 0).adj, 1);
    assert_eq!(game.cell(0, 2).adj, 0);
    assert_eq!(game.cell(3, 2).adj, 1);
    assert_eq!(game.cell(0, 0).adj, 0);
    assert_eq!(game.cell(2, 1).adj, 0);
}

#[test]
fn reveal_of_a_numbered_cell_opens_that_cell_only() {
    let mut game = laid(4, 3, &[(0, 0), (2, 1)]);
    game.reveal_cell(1, 0);
    assert!(game.is_revealed(1, 0));
    assert_eq!(count_revealed(&game), 1);
    assert_eq!(game.outcome(), Outcome::Ongoing);
    assert!(game.is_started());
}

#[test]
fn first_reveal_on_blank_cell_opens_region() {
    // 9 by 9 with 10 mines, all in the two right-hand columns and the lower rows.
    let mines = [
        (8, 0), (8, 2), (8, 4), (8, 6), (8, 8), (7, 8), (5, 8), (3, 8), (1, 8), (0, 8),
    ];
    let mut game = laid(9, 9, &mines);
    assert_eq!(game.cell(0, 0).adj, 0);
    game.reveal_cell(0, 0);
    assert_eq!(game.outcome(), Outcome::Ongoing);
    assert!(game.is_started());
    // The blank region: columns 0 to 6 of rows 0 to 6; its border: column 7 and row 7.
    for y in 0..9 {
        for x in 0..9 {
            let blank = x <= 6 && y <= 6;
            let border = (x == 7 && y <= 7) || (y == 7 && x <= 7);
            assert_eq!(game.is_revealed(x, y), blank || border, "cell {} {}", x, y);
        }
    }
    assert_eq!(count_revealed(&game), 49 + 15);
    // Once more: nothing changes.
    game.reveal_cell(0, 0);
    assert_eq!(count_revealed(&game), 64);
    game.reveal_cell(3, 3);
    assert_eq!(count_revealed(&game), 64);
}

#[test]
fn flood_passes_around_a_flag_and_a_question_mark_is_opened() {
    let mut game = laid(5, 1, &[(4, 0)]);
    game.toggle_flag(1, 0, false);
    game.reveal_cell(0, 0);
    assert!(game.is_revealed(0, 0));
    assert!(!game.is_revealed(1, 0));
    assert!(!game.is_revealed(2, 0));
    assert_eq!(game.outcome(), Outcome::Ongoing);

    let mut other = laid(5, 1, &[(4, 0)]);
    other.toggle_flag(1, 0, true);
    other.toggle_flag(1, 0, true);
    assert_eq!(other.mark(1, 0), Mark::Question);
    other.reveal_cell(0, 0);
    assert!(other.is_revealed(1, 0));
    assert!(other.is_revealed(3, 0));
    assert_eq!(other.outcome(), Outcome::Won);
}

#[test]
fn reveal_of_a_flagged_cell_does_nothing_even_first() {
    let mut game = Game::new(4, 4, 3);
    game.toggle_flag(2, 2, false);
    game.reveal_cell(2, 2);
    assert!(!game.is_revealed(2, 2));
    assert!(!game.is_started());
    assert_eq!(count_mines(&game), 0);
}

#[test]
fn reveal_of_a_mine_loses() {
    let mut game = laid(3, 3, &[(1, 1), (0, 2)]);
    game.reveal_cell(1, 1);
    assert_eq!(game.outcome(), Outcome::Lost);
    assert!(!game.is_started());
    assert!(game.is_revealed(1, 1));
    assert!(!game.is_revealed(0, 2));
    assert_eq!(count_revealed(&game), 1);
    game.reveal_all_mines();
    assert!(game.is_revealed(0, 2));
    assert_eq!(count_revealed(&game), 2);
    assert_eq!(game.outcome(), Outcome::Lost);
    // The game is over: a reveal changes nothing.
    game.reveal_cell(0, 0);
    assert!(!game.is_revealed(0, 0));
    assert_eq!(game.outcome(), Outcome::Lost);
    assert_eq!(count_mines(&game), 2);
}

#[test]
fn reveal_all_mines_keeps_flags_and_counter() {
    let mut game = laid(3, 3, &[(1, 1), (0, 2)]);
    game.toggle_flag(1, 1, false);
    assert_eq!(game.remaining_mines(), 1);
    game.reveal_all_mines();
    assert!(game.is_revealed(1, 1));
    assert_eq!(game.mark(1, 1), Mark::Flag);
    assert_eq!(game.remaining_mines(), 1);
    assert_eq!(game.outcome(), Outcome::Ongoing);
}

#[test]
fn winning_flags_every_mine_and_ends_the_game() {
    let mut game = laid(3, 2, &[(0, 0), (2, 1)]);
    assert!(!game.check_win());
    game.reveal_cell(1, 0);
    game.reveal_cell(2, 0);
    game.reveal_cell(0, 1);
    assert_eq!(game.outcome(), Outcome::Ongoing);
    assert!(!game.check_win());
    game.reveal_cell(1, 1);
    assert!(game.check_win());
    assert_eq!(game.outcome(), Outcome::Won);
    assert!(!game.is_started());
    assert_eq!(game.mark(0, 0), Mark::Flag);
    assert_eq!(game.mark(2, 1), Mark::Flag);
    assert_eq!(game.remaining_mines(), 0);
    // Terminal: nothing changes any more.
    game.reveal_cell(0, 0);
    assert!(!game.is_revealed(0, 0));
    game.toggle_flag(0, 0, false);
    assert_eq!(game.mark(0, 0), Mark::Flag);
    game.toggle_flag(0, 0, true);
    assert_eq!(game.mark(0, 0), Mark::Flag);
    assert_eq!(game.chord(1, 0), ChordResult::Opened);
    assert_eq!(game.chord(0, 0), ChordResult::Ignored);
    assert_eq!(game.outcome(), Outcome::Won);
    assert_eq!(count_revealed(&game), 4);
}

#[test]
fn toggle_flag_cycles_in_two_and_three_states() {
    let mut game = Game::new(4, 4, 3);
    game.toggle_flag(1, 2, false);
    assert_eq!(game.mark(1, 2), Mark::Flag);
    game.toggle_flag(1, 2, false);
    assert_eq!(game.mark(1, 2), Mark::Clear);
    game.toggle_flag(1, 2, true);
    assert_eq!(game.mark(1, 2), Mark::Flag);
    game.toggle_flag(1, 2, true);
    assert_eq!(game.mark(1, 2), Mark::Question);
    game.toggle_flag(1, 2, true);
    assert_eq!(game.mark(1, 2), Mark::Clear);
    // A question mark goes to a flag where question marks are not in use.
    game.toggle_flag(1, 2, true);
    game.toggle_flag(1, 2, true);
    game.toggle_flag(1, 2, false);
    assert_eq!(game.mark(1, 2), Mark::Flag);
}

#[test]
fn toggle_flag_leaves_a_revealed_cell_alone() {
    let mut game = laid(4, 3, &[(0, 0), (2, 1)]);
    game.reveal_cell(1, 0);
    game.toggle_flag(1, 0, false);
    assert_eq!(game.mark(1, 0), Mark::Clear);
    assert_eq!(game.remaining_mines(), 2);
}

#[test]
fn toggle_flag_still_works_after_a_loss() {
    let mut game = laid(3, 3, &[(1, 1)]);
    game.reveal_cell(1, 1);
    assert_eq!(game.outcome(), Outcome::Lost);
    game.toggle_flag(0, 0, false);
    assert_eq!(game.mark(0, 0), Mark::Flag);
}

#[test]
fn remaining_mines_counts_flags_and_goes_negative() {
    let mut game = Game::new(3, 3, 2);
    assert_eq!(game.remaining_mines(), 2);
    game.toggle_flag(0, 0, false);
    assert_eq!(game.remaining_mines(), 1);
    game.toggle_flag(1, 0, false);
    game.toggle_flag(2, 0, false);
    assert_eq!(game.remaining_mines(), -1);
    game.toggle_flag(0, 1, true);
    game.toggle_flag(0, 1, true);
    assert_eq!(game.remaining_mines(), -1);
    game.toggle_flag(2, 0, false);
    assert_eq!(game.remaining_mines(), 0);
}

#[test]
fn flag_and_unflag_returns_the_counter() {
    let mut game = Game::new(5, 5, 7);
    game.toggle_flag(4, 4, false);
    let before = game.remaining_mines();
    game.toggle_flag(2, 3, false);
    assert_eq!(game.remaining_mines(), before - 1);
    game.toggle_flag(2, 3, false);
    assert_eq!(game.remaining_mines(), before);
    game.toggle_flag(2, 3, true);
    assert_eq!(game.remaining_mines(), before - 1);
    game.toggle_flag(2, 3, true);
    assert_eq!(game.remaining_mines(), before);
}

#[test]
fn step_cursor_clamps_to_the_board() {
    let mut game = Game::new(5, 3, 2);
    game.step_cursor(-1, 0);
    assert_eq!(game.cursor(), (0, 0));
    game.step_cursor(0, -1);
    assert_eq!(game.cursor(), (0, 0));
    game.step_cursor(1, 1);
    assert_eq!(game.cursor(), (1, 1));
    game.step_cursor(10, 0);
    assert_eq!(game.cursor(), (4, 1));
    game.step_cursor(0, 7);
    assert_eq!(game.cursor(), (4, 2));
    game.step_cursor(isize::MIN, isize::MAX);
    assert_eq!(game.cursor(), (0, 2));
    game.step_cursor(isize::MAX, isize::MIN);
    assert_eq!(game.cursor(), (4, 0));
    game.step_cursor(-3, 1);
    assert_eq!(game.cursor(), (1, 1));
    game.set_cursor(3, 2);
    assert_eq!(game.cursor(), (3, 2));
}

#[test]
fn chord_on_a_covered_cell_is_ignored() {
    let mut game = laid(3, 3, &[(0, 0)]);
    assert_eq!(game.chord(1, 1), ChordResult::Ignored);
    assert_eq!(count_revealed(&game), 0);
}

#[test]
fn chord_with_the_wrong_number_of_flags_flashes() {
    let mut game = laid(3, 3, &[(0, 0), (2, 0)]);
    game.reveal_cell(1, 1);
    assert_eq!(game.cell(1, 1).adj, 2);
    assert_eq!(game.chord(1, 1), ChordResult::Flash);
    game.toggle_flag(0, 0, false);
    assert_eq!(game.chord(1, 1), ChordResult::Flash);
    assert_eq!(count_revealed(&game), 1);
    assert_eq!(game.outcome(), Outcome::Ongoing);
    game.toggle_flag(2, 0, false);
    game.toggle_flag(0, 2, false);
    assert_eq!(game.chord(1, 1), ChordResult::Flash);
    assert_eq!(count_revealed(&game), 1);
    assert_eq!(game.mark(0, 2), Mark::Flag);
}

#[test]
fn chord_with_a_wrong_flag_loses() {
    let mut game = laid(3, 3, &[(0, 0), (2, 0)]);
    game.reveal_cell(1, 1);
    game.toggle_flag(0, 0, false);
    game.toggle_flag(2, 2, false);
    assert_eq!(game.chord(1, 1), ChordResult::Misflag);
    assert_eq!(game.outcome(), Outcome::Lost);
    assert!(!game.is_started());
    assert!(game.is_revealed(0, 0));
    assert!(game.is_revealed(2, 0));
    assert!(!game.is_revealed(2, 2));
    assert!(!game.is_revealed(1, 0));
}

#[test]
fn chord_with_the_right_flags_opens_the_rest() {
    let mut game = laid(4, 4, &[(0, 0), (2, 0)]);
    game.reveal_cell(1, 1);
    game.toggle_flag(0, 0, false);
    game.toggle_flag(2, 0, false);
    assert_eq!(game.chord(1, 1), ChordResult::Opened);
    for &(x, y) in &[(1, 0), (0, 1), (2, 1), (0, 2), (1, 2), (2, 2)] {
        assert!(game.is_revealed(x, y), "cell {} {}", x, y);
    }
    assert!(!game.is_revealed(0, 0));
    assert!(!game.is_revealed(2, 0));
    // The cells below have no mine around them: the flood went on to the last row.
    // The upper right corner touches numbered cells only and stays covered.
    assert!(game.is_revealed(3, 3));
    assert!(game.is_revealed(3, 1));
    assert!(!game.is_revealed(3, 0));
    assert_eq!(game.outcome(), Outcome::Ongoing);
    game.reveal_cell(3, 0);
    assert_eq!(game.outcome(), Outcome::Won);
}

#[test]
fn chord_question_marks_do_not_count_as_flags() {
    let mut game = laid(3, 3, &[(0, 0)]);
    game.reveal_cell(1, 1);
    game.toggle_flag(0, 0, true);
    game.toggle_flag(0, 0, true);
    assert_eq!(game.mark(0, 0), Mark::Question);
    assert_eq!(game.chord(1, 1), ChordResult::Flash);
}

#[test]
fn clock_runs_from_the_first_reveal() {
    let mut game = Game::new(9, 9, 10);
    assert_eq!(game.elapsed_secs(), 0);
    game.reveal_cell(4, 4);
    if game.outcome() == Outcome::Ongoing {
        assert!(game.is_started());
        assert!(game.elapsed_secs() < 5);
    }
}

#[test]
fn a_copy_of_a_board_goes_its_own_way() {
    let mut game = laid(3, 3, &[(0, 0)]);
    let copy = game.clone();
    game.reveal_cell(2, 2);
    assert!(game.is_revealed(2, 2));
    assert!(!copy.is_revealed(2, 2));
    assert!(copy.cell(0, 0).mine);
    assert_eq!(copy.outcome(), Outcome::Ongoing);
}

#[test]
fn a_layout_must_fit_the_board() {
    let game = Game::new(3, 2, 2);
    assert!(game.takes(&vec![true, false, false, false, true, false]));
    assert!(!game.takes(&vec![true, false, false, false, false, false]));
    assert!(!game.takes(&vec![true, true, true, false, false, false]));
    assert!(!game.takes(&vec![true, true]));
    assert!(!game.takes(&vec![]));
    let crowded = Game::new(2, 2, 9);
    assert!(crowded.takes(&vec![true, true, true, true]));
    assert!(crowded.takes(&vec![true, false, true, true]));
    assert!(!crowded.takes(&vec![true, false, false, true]));
    let exact = Game::new(2, 2, 3);
    assert!(exact.takes(&vec![true, true, false, true]));
    assert!(!exact.takes(&vec![true, true, true, true]));
    let empty = Game::new(2, 2, 0);
    assert!(empty.takes(&vec![false, false, false, false]));
}
