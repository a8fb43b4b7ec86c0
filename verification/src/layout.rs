//! Where things stand on the terminal: the rectangles of the overlays and of what
//! lies on them, the places of the menu's items, and the rectangles of the last
//! frame drawn, against which the next input is read.

use vstd::prelude::*;
use crate::geometry::{bottom_centered_block, centered_block, less, Rect};
use crate::modal::Overlay;
use crate::text::{display_width, width_of};

verus! {

/// The rectangles of the last frame drawn. What was not drawn is not there.
#[derive(Clone, Copy, Debug)]
pub struct Layout {
    /// The menu bar, with its border.
    pub menu: Option<Rect>,
    /// The board, with its border.
    pub board: Option<Rect>,
    /// The status bar, with its border.
    pub status: Option<Rect>,
    /// The columns that the text on the left of the status bar takes.
    pub status_text_width: u16,
    /// The overlay, with its border.
    pub modal: Option<Rect>,
    /// The button that closes the overlay or accepts what is on it.
    pub close_button: Option<Rect>,
    /// The three options, by the text of each.
    pub indicator_option: Option<Rect>,
    pub question_option: Option<Rect>,
    pub ascii_option: Option<Rect>,
    /// The three fields of the custom board form.
    pub width_field: Option<Rect>,
    pub height_field: Option<Rect>,
    pub mines_field: Option<Rect>,
}

/// Whether a terminal position lies on a rectangle that may not be there.
pub open spec fn on(rect: Option<Rect>, col: int, row: int) -> bool {
    match rect {
        Some(r) => r.covers(col, row),
        None => false,
    }
}

/// Hit test against a rectangle that may not be there.
pub fn hits(rect: Option<Rect>, col: u16, row: u16) -> (inside: bool)
    ensures
        inside == on(rect, col as int, row as int),
{
    match rect {
        Some(r) => r.hit(col, row),
        None => false,
    }
}

impl Layout {
    /// A layout with nothing drawn.
    pub fn empty() -> (layout: Layout)
        ensures
            layout.menu.is_none(),
            layout.board.is_none(),
            layout.status.is_none(),
            layout.status_text_width == 0,
            layout.modal.is_none(),
            layout.close_button.is_none(),
            layout.indicator_option.is_none(),
            layout.question_option.is_none(),
            layout.ascii_option.is_none(),
            layout.width_field.is_none(),
            layout.height_field.is_none(),
            layout.mines_field.is_none(),
    {
        Layout {
            menu: None,
            board: None,
            status: None,
            status_text_width: 0,
            modal: None,
            close_button: None,
            indicator_option: None,
            question_option: None,
            ascii_option: None,
            width_field: None,
            height_field: None,
            mines_field: None,
        }
    }

    /// The option whose text lies at a terminal position: the last of the three
    /// that does.
    pub open spec fn option_on(self, col: int, row: int) -> Option<u8> {
        if on(self.ascii_option, col, row) {
            Some(2u8)
        } else if on(self.question_option, col, row) {
            Some(1u8)
        } else if on(self.indicator_option, col, row) {
            Some(0u8)
        } else {
            None
        }
    }

    /// The option whose text lies at a terminal position: the first of the three
    /// that does.
    pub open spec fn option_picked(self, col: int, row: int) -> Option<u8> {
        if on(self.indicator_option, col, row) {
            Some(0u8)
        } else if on(self.question_option, col, row) {
            Some(1u8)
        } else if on(self.ascii_option, col, row) {
            Some(2u8)
        } else {
            None
        }
    }

    /// The field of the custom board form that lies at a terminal position: the
    /// first of the three that does.
    pub open spec fn field_on(self, col: int, row: int) -> Option<u8> {
        if on(self.width_field, col, row) {
            Some(0u8)
        } else if on(self.height_field, col, row) {
            Some(1u8)
        } else if on(self.mines_field, col, row) {
            Some(2u8)
        } else {
            None
        }
    }
}

/// The rectangle of an overlay on a screen: in the middle of it, but for the
/// banners at the end of a game, which stand on its lower edge.
pub fn overlay_rect(overlay: Overlay, screen: Rect) -> (r: Rect)
    requires
        screen.x + screen.width <= u16::MAX,
        screen.y + screen.height <= u16::MAX,
    ensures
        r.width == overlay_extent(overlay).0,
        r.height == overlay_extent(overlay).1,
        r.x == screen.x + less(screen.width as int, r.width as int) / 2,
        r.y == match overlay {
            Overlay::Win => screen.y + less(screen.height as int, r.height as int),
            Overlay::Loss => screen.y + less(screen.height as int, r.height as int),
            _ => screen.y + less(screen.height as int, r.height as int) / 2,
        },
{
    match overlay {
        Overlay::Difficulty => centered_block(42, 10, screen),
        Overlay::CustomInput => centered_block(42, 10, screen),
        Overlay::Options => centered_block(30, 8, screen),
        Overlay::About => centered_block(48, 9, screen),
        Overlay::Help => centered_block(50, 11, screen),
        Overlay::Records => centered_block(40, 10, screen),
        Overlay::Win => bottom_centered_block(40, 8, screen),
        Overlay::Loss => bottom_centered_block(44, 8, screen),
    }
}

/// The width and the height of an overlay.
pub open spec fn overlay_extent(overlay: Overlay) -> (u16, u16) {
    match overlay {
        Overlay::Difficulty => (42, 10),
        Overlay::CustomInput => (42, 10),
        Overlay::Options => (30, 8),
        Overlay::About => (48, 9),
        Overlay::Help => (50, 11),
        Overlay::Records => (40, 10),
        Overlay::Win => (40, 8),
        Overlay::Loss => (44, 8),
    }
}

/// The width of the button on an overlay: five columns for the one that accepts,
/// nine for the one that closes.
pub open spec fn button_width(overlay: Overlay) -> u16 {
    match overlay {
        Overlay::CustomInput => 5,
        Overlay::Options => 5,
        _ => 9,
    }
}

/// Whether the button of an overlay is placed on the overlay itself; on the
/// others it is placed on what the border leaves.
pub open spec fn button_on_frame(overlay: Overlay) -> bool {
    overlay == Overlay::Difficulty || overlay == Overlay::CustomInput || overlay == Overlay::Records
}

/// The button on an overlay: one row high, centred, on the last row inside the
/// border of the overlay.
pub open spec fn close_button_spec(overlay: Overlay, modal: Rect) -> Rect {
    let width = button_width(overlay);
    if button_on_frame(overlay) {
        Rect {
            x: (modal.x + less(modal.width as int, width as int) / 2) as u16,
            y: (modal.y + less(modal.height as int, 2)) as u16,
            width,
            height: 1,
        }
    } else {
        Rect {
            x: (modal.x + 1 + less(less(modal.width as int, 2), width as int) / 2) as u16,
            y: (modal.y + 1 + less(less(modal.height as int, 2), 1)) as u16,
            width,
            height: 1,
        }
    }
}

/// On an overlay that its button fits on, the button stands at the same place
/// whichever way it is placed: centred, on the row above the lower border.
pub proof fn lemma_close_button_place(overlay: Overlay, modal: Rect)
    requires
        modal.plain(),
        modal.width >= button_width(overlay) + 2,
        modal.height >= 3,
    ensures
        close_button_spec(overlay, modal).x == modal.x + (modal.width - button_width(overlay)) / 2,
        close_button_spec(overlay, modal).y == modal.y + modal.height - 2,
{
}

/// The button on an overlay.
pub fn close_button(overlay: Overlay, modal: Rect) -> (button: Rect)
    requires
        modal.plain(),
        modal.x < u16::MAX,
        modal.y < u16::MAX,
    ensures
        button == close_button_spec(overlay, modal),
{
    let width: u16 = match overlay {
        Overlay::CustomInput => 5,
        Overlay::Options => 5,
        _ => 9,
    };
    assert(width * 1 <= u16::MAX);
    match overlay {
        Overlay::Difficulty | Overlay::CustomInput | Overlay::Records => {
            let x = modal.x + (if modal.width >= width { modal.width - width } else { 0 }) / 2;
            let y = modal.y + (if modal.height >= 2 { modal.height - 2 } else { 0 });
            Rect::new(x, y, width, 1)
        },
        _ => {
            let inner = modal.inset();
            let x = inner.x + (if inner.width >= width { inner.width - width } else { 0 }) / 2;
            let y = inner.y + (if inner.height >= 1 { inner.height - 1 } else { 0 });
            Rect::new(x, y, width, 1)
        },
    }
}

/// A field of the custom board form: three columns wide, after the label of its
/// line, on every second line inside the overlay.
pub fn form_field(modal: Rect, field: u8) -> (r: Rect)
    requires
        field <= 2,
        modal.x + 22 <= u16::MAX,
        modal.y + 7 <= u16::MAX,
    ensures
        r == (Rect {
            x: (modal.x + 22) as u16,
            y: (modal.y + 2 + 2 * field) as u16,
            width: 3,
            height: 1,
        }),
{
    Rect::new(modal.x + 22, modal.y + 2 + 2 * (field as u16), 3, 1)
}

/// An option on the options overlay: as wide as its text, one to a line inside
/// the overlay.
pub fn option_rect(modal: Rect, index: u8, label_width: u16) -> (r: Rect)
    requires
        index <= 2,
        modal.x + 2 <= u16::MAX,
        modal.y + 4 <= u16::MAX,
    ensures
        r == (Rect {
            x: (modal.x + 2) as u16,
            y: (modal.y + 2 + index) as u16,
            width: label_width,
            height: 1,
        }),
{
    Rect::new(modal.x + 2, modal.y + 2 + index as u16, label_width, 1)
}

/// The text of an option, with its box ticked or not.
pub fn option_label(index: u8, checked: bool) -> (label: &'static str)
    ensures
        label@ == option_text(index, checked),
{
    if index == 0 {
        if checked {
            "[x] Show indicator"
        } else {
            "[ ] Show indicator"
        }
    } else if index == 1 {
        if checked {
            "[x] Use ? marks"
        } else {
            "[ ] Use ? marks"
        }
    } else {
        if checked {
            "[x] ASCII icons"
        } else {
            "[ ] ASCII icons"
        }
    }
}

/// The text of an option, with its box ticked or not.
pub open spec fn option_text(index: u8, checked: bool) -> Seq<char> {
    if index == 0 {
        if checked {
            "[x] Show indicator"@
        } else {
            "[ ] Show indicator"@
        }
    } else if index == 1 {
        if checked {
            "[x] Use ? marks"@
        } else {
            "[ ] Use ? marks"@
        }
    } else {
        if checked {
            "[x] ASCII icons"@
        } else {
            "[ ] ASCII icons"@
        }
    }
}

/// A width in columns as a coordinate of the terminal: what does not fit is
/// taken as the largest coordinate.
pub open spec fn as_columns(width: int) -> u16 {
    if width <= u16::MAX {
        width as u16
    } else {
        u16::MAX
    }
}

/// The columns that a string takes, as a coordinate of the terminal.
pub fn columns_of(s: &str) -> (columns: u16)
    ensures
        columns == as_columns(display_width(s@) as int),
{
    let width = width_of(s);
    if width <= 65535 {
        width as u16
    } else {
        65535
    }
}

/// The rectangle of a board of `w` by `h` cells with its border, centred on `area`:
/// two columns to a cell and one more, one row to a cell, and the border around.
pub fn board_block(w: usize, h: usize, area: Rect) -> (r: Rect)
    requires
        2 * w + 3 <= u16::MAX,
        h + 2 <= u16::MAX,
        area.x + area.width <= u16::MAX,
        area.y + area.height <= u16::MAX,
    ensures
        r == Rect::made(
            (area.x + less(area.width as int, 2 * w + 3) / 2) as u16,
            (area.y + less(area.height as int, h + 2) / 2) as u16,
            (2 * w + 3) as u16,
            (h + 2) as u16,
        ),
        (2 * w + 3) * (h + 2) <= u16::MAX ==> r.width == 2 * w + 3 && r.height == h + 2,
{
    centered_block((2 * w + 3) as u16, (h + 2) as u16, area)
}

/// The number of items on the menu bar.
pub const MENU_ITEMS: usize = 6;

/// The key of a menu item: what is shown before the colon.
pub fn menu_key(item: usize) -> (key: &'static str)
    ensures
        key@ == menu_key_text(item),
{
    match item {
        0 => "F1",
        1 => "F2",
        2 => "F4",
        3 => "F5",
        4 => "F7",
        5 => "F9",
        _ => "Esc",
    }
}

/// The name of a menu item: what is shown after the colon.
pub fn menu_name(item: usize) -> (name: &'static str)
    ensures
        name@ == menu_name_text(item),
{
    match item {
        0 => "Help",
        1 => "New",
        2 => "Records",
        3 => "Difficulty",
        4 => "Options",
        5 => "About",
        _ => "Exit",
    }
}

/// The key of a menu item.
pub open spec fn menu_key_text(item: usize) -> Seq<char> {
    match item {
        0 => "F1"@,
        1 => "F2"@,
        2 => "F4"@,
        3 => "F5"@,
        4 => "F7"@,
        5 => "F9"@,
        _ => "Esc"@,
    }
}

/// The name of a menu item.
pub open spec fn menu_name_text(item: usize) -> Seq<char> {
    match item {
        0 => "Help"@,
        1 => "New"@,
        2 => "Records"@,
        3 => "Difficulty"@,
        4 => "Options"@,
        5 => "About"@,
        _ => "Exit"@,
    }
}

/// The columns that a menu item takes: its key, a colon and a space, and its name.
pub open spec fn menu_item_columns(item: usize) -> u16 {
    as_columns(
        as_columns(display_width(menu_key_text(item)) as int) + 2 + as_columns(
            display_width(menu_name_text(item)) as int,
        ),
    )
}

/// The columns that a menu item takes.
pub fn menu_item_width(item: usize) -> (columns: u16)
    ensures
        columns == menu_item_columns(item),
{
    let total: u32 = columns_of(menu_key(item)) as u32 + 2 + columns_of(menu_name(item)) as u32;
    if total <= 65535 {
        total as u16
    } else {
        65535
    }
}

/// The column at which the `i`-th item of a menu bar at column `x` begins: the
/// first two columns in, each next one three columns after the end of the one
/// before.
pub open spec fn menu_start(x: int, widths: Seq<u16>, i: int) -> int
    decreases i,
{
    if i <= 0 {
        x + 2
    } else {
        menu_start(x, widths, i - 1) + widths[i - 1] + 3
    }
}

/// Whether the `i`-th item of the menu bar lies at the column `col`.
pub open spec fn menu_covers(x: int, widths: Seq<u16>, i: int, col: int) -> bool {
    menu_start(x, widths, i) <= col < menu_start(x, widths, i) + widths[i]
}

/// The item of the menu bar that lies at a column, where the bar begins at column
/// `x` and its items take the columns that `widths` gives.
pub open spec fn menu_item_on(x: int, widths: Seq<u16>, col: int, upto: int) -> Option<usize>
    decreases upto,
{
    if upto <= 0 {
        None
    } else {
        match menu_item_on(x, widths, col, upto - 1) {
            Some(i) => Some(i),
            None => if menu_covers(x, widths, upto - 1, col) {
                Some((upto - 1) as usize)
            } else {
                None
            },
        }
    }
}

/// An item found among the first of the bar is the item found on the whole bar.
pub proof fn lemma_menu_item_found(x: int, widths: Seq<u16>, col: int, i: int, upto: int)
    requires
        0 <= i < upto,
        menu_item_on(x, widths, col, i).is_none(),
        menu_covers(x, widths, i, col),
    ensures
        menu_item_on(x, widths, col, upto) == Some(i as usize),
    decreases upto,
{
    if upto > i + 1 {
        lemma_menu_item_found(x, widths, col, i, upto - 1);
    }
}

/// The item of the menu bar that lies at the column `col`.
pub fn menu_item_at(col: u16, x: u16, widths: &[u16; 6]) -> (item: Option<usize>)
    ensures
        item == menu_item_on(x as int, widths@, col as int, 6),
        match item {
            Some(i) => i < 6,
            None => true,
        },
{
    let mut start: u32 = x as u32 + 2;
    let mut i: usize = 0;
    while i < 6
        invariant
            i <= 6,
            start == menu_start(x as int, widths@, i as int),
            start <= x + 2 + i * 65538,
            menu_item_on(x as int, widths@, col as int, i as int).is_none(),
        decreases 6 - i,
    {
        let width = widths[i] as u32;
        if col as u32 >= start && (col as u32) < start + width {
            proof {
                lemma_menu_item_found(x as int, widths@, col as int, i as int, 6);
            }
            return Some(i);
        }
        start = start + width + 3;
        i = i + 1;
    }
    None
}

/// The columns that the six items of the menu bar take.
pub open spec fn menu_widths() -> Seq<u16> {
    Seq::new(6, |i: int| menu_item_columns(i as usize))
}

/// The item of the menu bar that lies at a terminal position: none off the one
/// row inside the border of the bar.
pub open spec fn menu_found(menu: Rect, col: int, row: int) -> Option<usize> {
    if row == menu.y + 1 {
        menu_item_on(menu.x as int, menu_widths(), col, 6)
    } else {
        None
    }
}

/// The item of the menu bar that lies at the terminal position `(col, row)`.
pub fn menu_hit(menu: Rect, col: u16, row: u16) -> (item: Option<usize>)
    ensures
        item == menu_found(menu, col as int, row as int),
        match item {
            Some(i) => i < 6,
            None => true,
        },
{
    if row as u32 != menu.y as u32 + 1 {
        return None;
    }
    let widths: [u16; 6] = [
        menu_item_width(0),
        menu_item_width(1),
        menu_item_width(2),
        menu_item_width(3),
        menu_item_width(4),
        menu_item_width(5),
    ];
    assert(widths@ =~= menu_widths());
    menu_item_at(col, menu.x, &widths)
}

/// The first and the last column of the exit label on the status bar: it stands
/// at the right of the bar, after the text on the left and at least one space.
pub open spec fn exit_span(status: Rect, left: int, right: int) -> (int, int) {
    let inner = less(status.width as int, 2);
    let gap = if inner > left + right + 1 {
        inner - left - right - 1
    } else {
        1
    };
    let first = status.x + 1 + left + gap;
    (first, first + less(right, 1))
}

/// Whether the exit label on the status bar lies at a terminal position, where the
/// text on the left takes `left` columns and the label `right`.
pub open spec fn on_exit_label(status: Rect, left: int, right: int, col: int, row: int) -> bool {
    &&& row == status.y + 1
    &&& exit_span(status, left, right).0 <= col <= exit_span(status, left, right).1
}

/// Whether the exit label on the status bar lies at the terminal position
/// `(col, row)`.
pub fn exit_label_hit(status: Rect, left: u16, right: u16, col: u16, row: u16) -> (inside: bool)
    ensures
        inside == on_exit_label(status, left as int, right as int, col as int, row as int),
{
    if row as u32 != status.y as u32 + 1 {
        return false;
    }
    let inner: u32 = if status.width >= 2 { (status.width - 2) as u32 } else { 0 };
    let gap: u32 = if inner > left as u32 + right as u32 + 1 {
        inner - left as u32 - right as u32 - 1
    } else {
        1
    };
    let first: u32 = status.x as u32 + 1 + left as u32 + gap;
    let last: u32 = first + (if right >= 1 { right - 1 } else { 0 }) as u32;
    col as u32 >= first && col as u32 <= last
}

/// The exit label of the status bar.
pub fn exit_label() -> (label: &'static str)
    ensures
        label@ == "Esc: Exit"@,
{
    "Esc: Exit"
}

} // verus!
