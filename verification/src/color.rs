//! The colours of the interface, matched to what the terminal can show: the
//! sixteen named colours are given the look they have in the Campbell scheme.

use vstd::prelude::*;

verus! {

/// A colour of the terminal: one of the sixteen named ones, one by its red, green
/// and blue, one by its index among 256, or the terminal's own.
#[derive(Clone, Copy, Debug, PartialEq, Eq, Structural)]
pub enum Color {
    Reset,
    Black,
    Red,
    Green,
    Yellow,
    Blue,
    Magenta,
    Cyan,
    Gray,
    DarkGray,
    LightRed,
    LightGreen,
    LightYellow,
    LightBlue,
    LightMagenta,
    LightCyan,
    White,
    Rgb(u8, u8, u8),
    Indexed(u8),
}

/// What colours a terminal can show beyond the sixteen named ones.
#[derive(Clone, Copy, Debug, PartialEq, Eq, Structural)]
pub struct ColorSupport {
    /// Whether it shows the 256 indexed colours.
    pub has_256: bool,
    /// Whether it shows any colour by its red, green and blue.
    pub has_16m: bool,
}

/// The look of a named colour in the Campbell scheme: its red, green and blue, and
/// the nearest of the 256 indexed colours. Other colours have none.
pub open spec fn campbell(c: Color) -> Option<((u8, u8, u8), u8)> {
    match c {
        Color::Black => Some(((12u8, 12u8, 12u8), 232u8)),
        Color::Red => Some(((197u8, 15u8, 31u8), 160u8)),
        Color::Green => Some(((19u8, 161u8, 14u8), 28u8)),
        Color::Yellow => Some(((193u8, 156u8, 0u8), 178u8)),
        Color::Blue => Some(((0u8, 55u8, 218u8), 20u8)),
        Color::Magenta => Some(((136u8, 23u8, 152u8), 90u8)),
        Color::Cyan => Some(((58u8, 150u8, 221u8), 38u8)),
        Color::Gray => Some(((204u8, 204u8, 204u8), 250u8)),
        Color::DarkGray => Some(((118u8, 118u8, 118u8), 243u8)),
        Color::LightRed => Some(((231u8, 72u8, 86u8), 203u8)),
        Color::LightGreen => Some(((22u8, 198u8, 12u8), 46u8)),
        Color::LightYellow => Some(((249u8, 241u8, 165u8), 229u8)),
        Color::LightBlue => Some(((59u8, 120u8, 255u8), 63u8)),
        Color::LightMagenta => Some(((180u8, 0u8, 158u8), 163u8)),
        Color::LightCyan => Some(((97u8, 214u8, 214u8), 116u8)),
        Color::White => Some(((242u8, 242u8, 242u8), 255u8)),
        _ => None,
    }
}

/// The colour to use for `c` on a terminal with this support: the Campbell look
/// of a named colour by its red, green and blue where the terminal shows those,
/// else by its index where the terminal shows the 256, else the colour itself. A
/// colour without a Campbell look stays as it is.
pub open spec fn matched(c: Color, support: ColorSupport) -> Color {
    match campbell(c) {
        Some(look) => if support.has_16m {
            Color::Rgb(look.0.0, look.0.1, look.0.2)
        } else if support.has_256 {
            Color::Indexed(look.1)
        } else {
            c
        },
        None => c,
    }
}

/// The Campbell look of a colour.
fn campbell_look(c: Color) -> (look: Option<((u8, u8, u8), u8)>)
    ensures
        look == campbell(c),
{
    match c {
        Color::Black => Some(((12, 12, 12), 232)),
        Color::Red => Some(((197, 15, 31), 160)),
        Color::Green => Some(((19, 161, 14), 28)),
        Color::Yellow => Some(((193, 156, 0), 178)),
        Color::Blue => Some(((0, 55, 218), 20)),
        Color::Magenta => Some(((136, 23, 152), 90)),
        Color::Cyan => Some(((58, 150, 221), 38)),
        Color::Gray => Some(((204, 204, 204), 250)),
        Color::DarkGray => Some(((118, 118, 118), 243)),
        Color::LightRed => Some(((231, 72, 86), 203)),
        Color::LightGreen => Some(((22, 198, 12), 46)),
        Color::LightYellow => Some(((249, 241, 165), 229)),
        Color::LightBlue => Some(((59, 120, 255), 63)),
        Color::LightMagenta => Some(((180, 0, 158), 163)),
        Color::LightCyan => Some(((97, 214, 214), 116)),
        Color::White => Some(((242, 242, 242), 255)),
        _ => None,
    }
}

/// The colour to use for `c` on a terminal with this support.
pub fn match_color(c: Color, support: ColorSupport) -> (m: Color)
    ensures
        m == matched(c, support),
{
    match campbell_look(c) {
        Some((rgb, index)) => {
            if support.has_16m {
                Color::Rgb(rgb.0, rgb.1, rgb.2)
            } else if support.has_256 {
                Color::Indexed(index)
            } else {
                c
            }
        },
        None => c,
    }
}

/// Asks `term_color_support::ColorSupport::stdout` what colours the terminal on the
/// standard output can show. Trusted as far as it goes: the answer depends on the
/// terminal and the environment, so nothing is promised of it.
#[verifier::external_body]
fn detect_support() -> (support: ColorSupport) {
    let info = term_color_support::ColorSupport::stdout();
    ColorSupport { has_256: info.has_256, has_16m: info.has_16m }
}

/// A colour that can be matched to the terminal.
pub trait WTMatch: Sized {
    /// The colour to use in its place on the terminal of this process.
    fn wtmatch(self) -> Color;
}

impl WTMatch for Color {
    /// The colour to use for this one on the terminal of this process, whatever
    /// that terminal turns out to show.
    fn wtmatch(self) -> (m: Color)
        ensures
            exists|support: ColorSupport| m == #[trigger] matched(self, support),
    {
        let support = detect_support();
        match_color(self, support)
    }
}

/// The sixteen named colours as they are to be used on a terminal.
#[derive(Debug, Clone, Copy)]
pub struct ColorPalette {
    pub black: Color,
    pub red: Color,
    pub green: Color,
    pub yellow: Color,
    pub blue: Color,
    pub magenta: Color,
    pub cyan: Color,
    pub gray: Color,
    pub dark_gray: Color,
    pub light_red: Color,
    pub light_green: Color,
    pub light_yellow: Color,
    pub light_blue: Color,
    pub light_magenta: Color,
    pub light_cyan: Color,
    pub white: Color,
}

impl ColorPalette {
    /// The sixteen named colours, each matched to a terminal with this support.
    pub open spec fn spec_for(support: ColorSupport) -> ColorPalette {
        ColorPalette {
            black: matched(Color::Black, support),
            red: matched(Color::Red, support),
            green: matched(Color::Green, support),
            yellow: matched(Color::Yellow, support),
            blue: matched(Color::Blue, support),
            magenta: matched(Color::Magenta, support),
            cyan: matched(Color::Cyan, support),
            gray: matched(Color::Gray, support),
            dark_gray: matched(Color::DarkGray, support),
            light_red: matched(Color::LightRed, support),
            light_green: matched(Color::LightGreen, support),
            light_yellow: matched(Color::LightYellow, support),
            light_blue: matched(Color::LightBlue, support),
            light_magenta: matched(Color::LightMagenta, support),
            light_cyan: matched(Color::LightCyan, support),
            white: matched(Color::White, support),
        }
    }

    /// The sixteen named colours, each matched to a terminal with this support.
    pub fn for_support(support: ColorSupport) -> (palette: ColorPalette)
        ensures
            palette == ColorPalette::spec_for(support),
    {
        ColorPalette {
            black: match_color(Color::Black, support),
            red: match_color(Color::Red, support),
            green: match_color(Color::Green, support),
            yellow: match_color(Color::Yellow, support),
            blue: match_color(Color::Blue, support),
            magenta: match_color(Color::Magenta, support),
            cyan: match_color(Color::Cyan, support),
            gray: match_color(Color::Gray, support),
            dark_gray: match_color(Color::DarkGray, support),
            light_red: match_color(Color::LightRed, support),
            light_green: match_color(Color::LightGreen, support),
            light_yellow: match_color(Color::LightYellow, support),
            light_blue: match_color(Color::LightBlue, support),
            light_magenta: match_color(Color::LightMagenta, support),
            light_cyan: match_color(Color::LightCyan, support),
            white: match_color(Color::White, support),
        }
    }

    /// The sixteen named colours, matched to the terminal of this process: it is
    /// asked once what it can show.
    pub fn new() -> (palette: ColorPalette)
        ensures
            exists|support: ColorSupport| palette == #[trigger] ColorPalette::spec_for(support),
    {
        ColorPalette::for_support(detect_support())
    }
}

impl Default for ColorPalette {
    fn default() -> (palette: ColorPalette)
        ensures
            exists|support: ColorSupport| palette == #[trigger] ColorPalette::spec_for(support),
    {
        ColorPalette::new()
    }
}

} // verus!
