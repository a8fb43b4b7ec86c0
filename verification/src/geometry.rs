//! Terminal geometry: rectangles, hit tests and the mapping from terminal
//! coordinates to board cells.

use vstd::prelude::*;

verus! {

/// A rectangle of terminal cells: its top-left corner and its extent.
#[derive(Clone, Copy, Debug, PartialEq, Eq, Structural)]
pub struct Rect {
    pub x: u16,
    pub y: u16,
    pub width: u16,
    pub height: u16,
}

/// The extent that `ratatui::layout::Rect::new` gives a rectangle asked for with
/// this width and height: the two as they are while the area fits in a `u16`,
/// a clipped pair otherwise.
pub uninterp spec fn clipped_extent(width: u16, height: u16) -> (u16, u16);

/// Calls `ratatui::layout::Rect::new` and hands back the extent of the rectangle it
/// made. Trusted: the extent is a function of the requested width and height alone,
/// and is the requested one whenever `width * height` does not exceed `u16::MAX`.
#[verifier::external_body]
fn clip_extent(width: u16, height: u16) -> (r: (u16, u16))
    ensures
        r == clipped_extent(width, height),
        width * height <= u16::MAX ==> r == (width, height),
{
    let made = ratatui::layout::Rect::new(0, 0, width, height);
    (made.width, made.height)
}

/// One past the last column (or row) that a span starting at `start` covers, a span of
/// no extent counting as one cell.
pub open spec fn span_end(start: int, extent: int) -> int {
    if extent > 0 {
        start + extent
    } else {
        start + 1
    }
}

/// `a - b` where that is positive, else zero.
pub open spec fn less(a: int, b: int) -> int {
    if a >= b {
        a - b
    } else {
        0
    }
}

impl Rect {
    /// The rectangle that the terminal library makes of a corner and a requested
    /// extent.
    pub open spec fn made(x: u16, y: u16, width: u16, height: u16) -> Rect {
        Rect {
            x,
            y,
            width: clipped_extent(width, height).0,
            height: clipped_extent(width, height).1,
        }
    }

    /// A rectangle as the terminal library makes them: it ends within the range of
    /// the coordinates, and its area fits in a `u16`.
    pub open spec fn plain(self) -> bool {
        &&& self.x + self.width <= u16::MAX
        &&& self.y + self.height <= u16::MAX
        &&& self.width * self.height <= u16::MAX
    }

    /// The rectangle inside the border of this one: one cell in from each side.
    pub open spec fn spec_inset(self) -> Rect {
        Rect::made(
            (self.x + 1) as u16,
            (self.y + 1) as u16,
            less(self.width as int, 2) as u16,
            less(self.height as int, 2) as u16,
        )
    }

    /// A rectangle at `(x, y)` with the extent that the terminal library allows for
    /// the requested one.
    pub fn new(x: u16, y: u16, width: u16, height: u16) -> (r: Rect)
        ensures
            r == Rect::made(x, y, width, height),
            width * height <= u16::MAX ==> r == (Rect { x, y, width, height }),
    {
        let (w, h) = clip_extent(width, height);
        Rect { x, y, width: w, height: h }
    }

    /// Whether the terminal position `(col, row)` lies on this rectangle. The
    /// rectangle's own corner always counts, also where an extent is zero.
    pub open spec fn covers(self, col: int, row: int) -> bool {
        &&& self.x <= col < span_end(self.x as int, self.width as int)
        &&& self.y <= row < span_end(self.y as int, self.height as int)
    }

    /// Hit test of a terminal position against this rectangle.
    pub fn hit(&self, col: u16, row: u16) -> (inside: bool)
        ensures
            inside == self.covers(col as int, row as int),
    {
        let last_col: u32 = self.x as u32 + (if self.width > 0 { self.width - 1 } else { 0 }) as u32;
        let last_row: u32 = self.y as u32 + (if self.height > 0 { self.height - 1 } else { 0 }) as u32;
        col >= self.x && col as u32 <= last_col && row >= self.y && row as u32 <= last_row
    }
}


impl Rect {
    /// Whether this is a rectangle as the terminal library makes them.
    pub fn is_plain(&self) -> (plain: bool)
        ensures
            plain == self.plain(),
    {
        assert(self.width * self.height <= 65535 * 65535) by (nonlinear_arith)
            requires
                0 <= self.width <= 65535,
                0 <= self.height <= 65535,
        ;
        self.x as u32 + self.width as u32 <= 65535 && self.y as u32 + self.height as u32 <= 65535
            && self.width as u32 * self.height as u32 <= 65535
    }

    /// The rectangle inside the border of this one: one cell in from each side.
    pub fn inset(&self) -> (inner: Rect)
        requires
            self.x < u16::MAX,
            self.y < u16::MAX,
        ensures
            inner == self.spec_inset(),
            self.width * self.height <= u16::MAX ==> inner == (Rect {
                x: (self.x + 1) as u16,
                y: (self.y + 1) as u16,
                width: less(self.width as int, 2) as u16,
                height: less(self.height as int, 2) as u16,
            }),
    {
        let width: u16 = if self.width >= 2 { self.width - 2 } else { 0 };
        let height: u16 = if self.height >= 2 { self.height - 2 } else { 0 };
        proof {
            assert(width * height <= self.width * self.height) by (nonlinear_arith)
                requires
                    0 <= width <= self.width,
                    0 <= height <= self.height,
            ;
        }
        Rect::new(self.x + 1, self.y + 1, width, height)
    }
}

/// A rectangle of the extent asked for, centred on `r`, or with the corner of `r`
/// where `r` is the smaller.
pub fn center_rect(width: u16, height: u16, r: Rect) -> (c: Rect)
    requires
        r.x + r.width <= u16::MAX,
        r.y + r.height <= u16::MAX,
    ensures
        c == Rect::made(
            (r.x + less(r.width as int, width as int) / 2) as u16,
            (r.y + less(r.height as int, height as int) / 2) as u16,
            width,
            height,
        ),
        width * height <= u16::MAX ==> c.width == width && c.height == height,
{
    let x = r.x + (if r.width >= width { r.width - width } else { 0 }) / 2;
    let y = r.y + (if r.height >= height { r.height - height } else { 0 }) / 2;
    Rect::new(x, y, width, height)
}

/// A block of the extent asked for, centred on `r`.
pub fn centered_block(w: u16, h: u16, r: Rect) -> (c: Rect)
    requires
        r.x + r.width <= u16::MAX,
        r.y + r.height <= u16::MAX,
    ensures
        c == Rect::made(
            (r.x + less(r.width as int, w as int) / 2) as u16,
            (r.y + less(r.height as int, h as int) / 2) as u16,
            w,
            h,
        ),
        w * h <= u16::MAX ==> c.width == w && c.height == h,
{
    center_rect(w, h, r)
}

/// A block of the extent asked for, centred on `r` from left to right and set on
/// its lower edge.
pub fn bottom_centered_block(width: u16, height: u16, r: Rect) -> (c: Rect)
    requires
        r.x + r.width <= u16::MAX,
        r.y + r.height <= u16::MAX,
    ensures
        c == Rect::made(
            (r.x + less(r.width as int, width as int) / 2) as u16,
            (r.y + less(r.height as int, height as int)) as u16,
            width,
            height,
        ),
        width * height <= u16::MAX ==> c.width == width && c.height == height,
{
    let x = r.x + (if r.width >= width { r.width - width } else { 0 }) / 2;
    let y = r.y + (if r.height >= height { r.height - height } else { 0 });
    Rect::new(x, y, width, height)
}

/// The cell of a board of `w` by `h` cells that is drawn at the terminal position
/// `(col, row)`, where the cells are drawn in `inner`, each two columns wide and
/// one row high; none where the position is off `inner` or beyond the board.
pub open spec fn cell_in_spec(
    inner: Rect,
    col: int,
    row: int,
    w: int,
    h: int,
) -> Option<(usize, usize)> {
    if inner.covers(col, row) && (col - inner.x) / 2 < w && row - inner.y < h {
        Some((((col - inner.x) / 2) as usize, (row - inner.y) as usize))
    } else {
        None
    }
}

/// The cell of a board that is drawn at a terminal position, where the board is
/// drawn with a border in `area`: none where `area` leaves no room inside it.
pub open spec fn cell_at_spec(
    area: Rect,
    col: int,
    row: int,
    w: int,
    h: int,
) -> Option<(usize, usize)> {
    if area.x < u16::MAX && area.y < u16::MAX {
        cell_in_spec(area.spec_inset(), col, row, w, h)
    } else {
        None
    }
}

/// The cell that is drawn at the terminal position `(col, row)`, where the cells
/// of a board of `w` by `h` are drawn in `inner`.
pub fn cell_in(
    inner: Rect,
    col: u16,
    row: u16,
    w: usize,
    h: usize,
) -> (cell: Option<(usize, usize)>)
    ensures
        cell == cell_in_spec(inner, col as int, row as int, w as int, h as int),
        match cell {
            Some(c) => c.0 < w && c.1 < h,
            None => true,
        },
{
    if !inner.hit(col, row) {
        return None;
    }
    let cx: usize = ((col - inner.x) / 2) as usize;
    let cy: usize = (row - inner.y) as usize;
    if cx < w && cy < h {
        Some((cx, cy))
    } else {
        None
    }
}

/// The cell that is drawn at the terminal position `(col, row)`, where a board of
/// `w` by `h` cells is drawn with a border in `area`.
pub fn cell_at(area: Rect, col: u16, row: u16, w: usize, h: usize) -> (cell: Option<(usize, usize)>)
    ensures
        cell == cell_at_spec(area, col as int, row as int, w as int, h as int),
        match cell {
            Some(c) => c.0 < w && c.1 < h,
            None => true,
        },
{
    if area.x == u16::MAX || area.y == u16::MAX {
        return None;
    }
    cell_in(area.inset(), col, row, w, h)
}

} // verus!
