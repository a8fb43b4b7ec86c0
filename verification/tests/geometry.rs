use xtswpr::geometry::{bottom_centered_block, cell_at, cell_in, center_rect, centered_block, Rect};
use xtswpr::layout::{
    board_block, close_button, columns_of, exit_label, exit_label_hit, form_field, hits,
    menu_hit, menu_item_at, menu_item_width, menu_key, menu_name, option_label, option_rect,
    overlay_rect, Layout,
};
use xtswpr::modal::Overlay;

fn rect(x: u16, y: u16, width: u16, height: u16) -> Rect {
    Rect { x, y, width, height }
}

#[test]
fn rect_new_keeps_a_small_extent() {
    assert_eq!(Rect::new(3, 4, 10, 20), rect(3, 4, 10, 20));
    assert_eq!(Rect::new(0, 0, 255, 257), rect(0, 0, 255, 257));
    assert_eq!(Rect::new(7, 9, 0, 0), rect(7, 9, 0, 0));
}

#[test]
fn rect_new_clips_a_large_extent() {
    let r = Rect::new(1, 2, 300, 300);
    assert_eq!(r, rect(1, 2, 255, 255));
    let wide = Rect::new(0, 0, 1000, 100);
    assert!(wide.width as u32 * wide.height as u32 <= 65535);
    assert!(wide.width < 1000 && wide.height < 100);
}

#[test]
fn hit_covers_the_rectangle_and_its_corner() {
    let r = rect(10, 5, 4, 2);
    assert!(r.hit(10, 5));
    assert!(r.hit(13, 6));
    assert!(!r.hit(14, 5));
    assert!(!r.hit(10, 7));
    assert!(!r.hit(9, 5));
    assert!(!r.hit(10, 4));
    // A rectangle of no extent is hit at its corner.
    let empty = rect(3, 3, 0, 0);
    assert!(empty.hit(3, 3));
    assert!(!empty.hit(4, 3));
    // At the edge of the coordinates.
    let far = rect(65535, 65535, 10, 10);
    assert!(far.hit(65535, 65535));
    assert!(!far.hit(0, 0));
}

#[test]
fn plain_rectangles_are_told_apart() {
    assert!(rect(0, 0, 80, 24).is_plain());
    assert!(!rect(65000, 0, 1000, 1).is_plain());
    assert!(!rect(0, 0, 300, 300).is_plain());
    assert!(rect(0, 0, 255, 257).is_plain());
}

#[test]
fn inset_takes_one_cell_from_each_side() {
    assert_eq!(rect(2, 3, 10, 6).inset(), rect(3, 4, 8, 4));
    assert_eq!(rect(2, 3, 1, 0).inset(), rect(3, 4, 0, 0));
}

#[test]
fn center_rect_centres_or_keeps_the_corner() {
    let screen = rect(0, 0, 80, 24);
    assert_eq!(center_rect(42, 10, screen), rect(19, 7, 42, 10));
    assert_eq!(centered_block(30, 8, screen), rect(25, 8, 30, 8));
    assert_eq!(center_rect(41, 9, screen), rect(19, 7, 41, 9));
    assert_eq!(center_rect(100, 30, rect(5, 6, 80, 24)), rect(5, 6, 100, 30));
    assert_eq!(bottom_centered_block(40, 8, screen), rect(20, 16, 40, 8));
    assert_eq!(bottom_centered_block(44, 30, screen), rect(18, 0, 44, 30));
}

#[test]
fn cell_at_maps_two_columns_to_a_cell() {
    // A 9 by 9 board: 21 columns and 11 rows with the border.
    let area = rect(10, 3, 21, 11);
    assert_eq!(cell_at(area, 11, 4, 9, 9), Some((0, 0)));
    assert_eq!(cell_at(area, 12, 4, 9, 9), Some((0, 0)));
    assert_eq!(cell_at(area, 13, 4, 9, 9), Some((1, 0)));
    assert_eq!(cell_at(area, 17, 7, 9, 9), Some((3, 3)));
    assert_eq!(cell_at(area, 18, 7, 9, 9), Some((3, 3)));
    assert_eq!(cell_at(area, 28, 12, 9, 9), Some((8, 8)));
    // The padding column behind the last cell is no cell.
    assert_eq!(cell_at(area, 29, 12, 9, 9), None);
    // The border and beyond.
    assert_eq!(cell_at(area, 10, 4, 9, 9), None);
    assert_eq!(cell_at(area, 11, 3, 9, 9), None);
    assert_eq!(cell_at(area, 11, 13, 9, 9), None);
    assert_eq!(cell_at(area, 30, 4, 9, 9), None);
    // A board smaller than its area.
    assert_eq!(cell_at(area, 17, 7, 3, 9), None);
    assert_eq!(cell_at(area, 17, 7, 9, 3), None);
    assert_eq!(cell_at(rect(65535, 0, 5, 5), 65535, 1, 9, 9), None);
    assert_eq!(cell_in(rect(11, 4, 19, 9), 17, 7, 9, 9), Some((3, 3)));
    assert_eq!(cell_in(rect(11, 4, 19, 9), 10, 7, 9, 9), None);
}

#[test]
fn overlays_stand_where_they_are_drawn() {
    let screen = rect(0, 0, 80, 24);
    assert_eq!(overlay_rect(Overlay::Difficulty, screen), rect(19, 7, 42, 10));
    assert_eq!(overlay_rect(Overlay::CustomInput, screen), rect(19, 7, 42, 10));
    assert_eq!(overlay_rect(Overlay::Options, screen), rect(25, 8, 30, 8));
    assert_eq!(overlay_rect(Overlay::About, screen), rect(16, 7, 48, 9));
    assert_eq!(overlay_rect(Overlay::Help, screen), rect(15, 6, 50, 11));
    assert_eq!(overlay_rect(Overlay::Records, screen), rect(20, 7, 40, 10));
    assert_eq!(overlay_rect(Overlay::Win, screen), rect(20, 16, 40, 8));
    assert_eq!(overlay_rect(Overlay::Loss, screen), rect(18, 16, 44, 8));
}

#[test]
fn buttons_fields_and_options_stand_inside_their_overlay() {
    let modal = rect(19, 7, 42, 10);
    assert_eq!(close_button(Overlay::Difficulty, modal), rect(35, 15, 9, 1));
    assert_eq!(close_button(Overlay::CustomInput, modal), rect(37, 15, 5, 1));
    assert_eq!(close_button(Overlay::Records, rect(20, 7, 40, 10)), rect(35, 15, 9, 1));
    assert_eq!(close_button(Overlay::Options, rect(25, 8, 30, 8)), rect(37, 14, 5, 1));
    assert_eq!(close_button(Overlay::Help, rect(15, 6, 50, 11)), rect(35, 15, 9, 1));
    assert_eq!(close_button(Overlay::Win, rect(20, 16, 40, 8)), rect(35, 22, 9, 1));
    // On an overlay too narrow for it the button starts at the edge it is placed on.
    assert_eq!(close_button(Overlay::Difficulty, rect(4, 4, 10, 4)), rect(4, 6, 9, 1));
    assert_eq!(close_button(Overlay::About, rect(4, 4, 10, 4)), rect(5, 6, 9, 1));
    assert_eq!(form_field(modal, 0), rect(41, 9, 3, 1));
    assert_eq!(form_field(modal, 1), rect(41, 11, 3, 1));
    assert_eq!(form_field(modal, 2), rect(41, 13, 3, 1));
    assert_eq!(option_rect(rect(25, 8, 30, 8), 0, 18), rect(27, 10, 18, 1));
    assert_eq!(option_rect(rect(25, 8, 30, 8), 2, 15), rect(27, 12, 15, 1));
    assert_eq!(board_block(9, 9, rect(0, 3, 80, 18)), rect(29, 6, 21, 11));
    assert_eq!(board_block(30, 16, rect(0, 3, 80, 18)), rect(8, 3, 63, 18));
}

#[test]
fn labels_have_their_width_in_columns() {
    assert_eq!(columns_of(""), 0);
    assert_eq!(columns_of("Esc: Exit"), 9);
    assert_eq!(columns_of(exit_label()), 9);
    assert_eq!(columns_of("中文"), 4);
    assert_eq!(columns_of("⚑"), 1);
    assert_eq!(option_label(0, true), "[x] Show indicator");
    assert_eq!(option_label(0, false), "[ ] Show indicator");
    assert_eq!(option_label(1, true), "[x] Use ? marks");
    assert_eq!(option_label(2, false), "[ ] ASCII icons");
    assert_eq!(columns_of(option_label(0, true)), 18);
    assert_eq!(columns_of(option_label(1, false)), 15);
}

#[test]
fn menu_items_lie_side_by_side() {
    let keys = ["F1", "F2", "F4", "F5", "F7", "F9", "Esc"];
    let names = ["Help", "New", "Records", "Difficulty", "Options", "About", "Exit"];
    for i in 0..7 {
        assert_eq!(menu_key(i), keys[i]);
        assert_eq!(menu_name(i), names[i]);
    }
    assert_eq!(menu_item_width(0), 8);
    assert_eq!(menu_item_width(1), 7);
    assert_eq!(menu_item_width(2), 11);
    assert_eq!(menu_item_width(3), 14);
    assert_eq!(menu_item_width(4), 11);
    assert_eq!(menu_item_width(5), 9);
    let menu = rect(0, 0, 80, 3);
    // "F1: Help" takes the columns 2 to 9, then three columns of space.
    assert_eq!(menu_hit(menu, 1, 1), None);
    assert_eq!(menu_hit(menu, 2, 1), Some(0));
    assert_eq!(menu_hit(menu, 9, 1), Some(0));
    assert_eq!(menu_hit(menu, 10, 1), None);
    assert_eq!(menu_hit(menu, 12, 1), None);
    assert_eq!(menu_hit(menu, 13, 1), Some(1));
    assert_eq!(menu_hit(menu, 19, 1), Some(1));
    assert_eq!(menu_hit(menu, 23, 1), Some(2));
    assert_eq!(menu_hit(menu, 37, 1), Some(3));
    assert_eq!(menu_hit(menu, 54, 1), Some(4));
    assert_eq!(menu_hit(menu, 68, 1), Some(5));
    assert_eq!(menu_hit(menu, 76, 1), Some(5));
    assert_eq!(menu_hit(menu, 77, 1), None);
    assert_eq!(menu_hit(menu, 2, 0), None);
    assert_eq!(menu_hit(menu, 2, 2), None);
    let widths = [3u16, 0, 2, 1, 1, 1];
    assert_eq!(menu_item_at(12, 10, &widths), Some(0));
    assert_eq!(menu_item_at(14, 10, &widths), Some(0));
    assert_eq!(menu_item_at(15, 10, &widths), None);
    assert_eq!(menu_item_at(18, 10, &widths), None);
    assert_eq!(menu_item_at(21, 10, &widths), Some(2));
    assert_eq!(menu_item_at(22, 10, &widths), Some(2));
    assert_eq!(menu_item_at(26, 10, &widths), Some(3));
    assert_eq!(menu_item_at(11, 10, &widths), None);
}

#[test]
fn exit_label_stands_at_the_right_of_the_status_bar() {
    let status = rect(0, 21, 80, 3);
    // 78 columns inside: the label of 9 columns ends one column before the border.
    assert!(!exit_label_hit(status, 30, 9, 68, 22));
    assert!(exit_label_hit(status, 30, 9, 69, 22));
    assert!(exit_label_hit(status, 30, 9, 77, 22));
    assert!(!exit_label_hit(status, 30, 9, 78, 22));
    assert!(!exit_label_hit(status, 30, 9, 70, 21));
    assert!(!exit_label_hit(status, 30, 9, 70, 23));
    // On a bar too narrow the label follows the text after one space.
    let narrow = rect(0, 21, 30, 3);
    assert!(exit_label_hit(narrow, 30, 9, 32, 22));
    assert!(exit_label_hit(narrow, 30, 9, 40, 22));
    assert!(!exit_label_hit(narrow, 30, 9, 31, 22));
    assert!(!exit_label_hit(narrow, 30, 9, 41, 22));
}

#[test]
fn a_rectangle_that_is_not_there_is_never_hit() {
    assert!(!hits(None, 0, 0));
    assert!(hits(Some(rect(1, 1, 2, 2)), 2, 2));
    assert!(!hits(Some(rect(1, 1, 2, 2)), 3, 3));
    let layout = Layout::empty();
    assert!(layout.menu.is_none() && layout.board.is_none() && layout.modal.is_none());
    assert_eq!(layout.status_text_width, 0);
}
