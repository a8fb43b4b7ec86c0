//! The input that the session takes: keys and pointer events as plain values.

use vstd::prelude::*;

verus! {

/// A key of the keyboard, as far as the game tells keys apart.
#[derive(Clone, Copy, Debug, PartialEq, Eq)]
pub enum Key {
    Char(char),
    Backspace,
    Tab,
    BackTab,
    Enter,
    Esc,
    Up,
    Down,
    Left,
    Right,
    /// A function key, by its number.
    F(u8),
    /// Any other key.
    Other,
}

/// A button of the pointer.
#[derive(Clone, Copy, Debug, PartialEq, Eq, Structural)]
pub enum Button {
    /// The primary button.
    Left,
    /// The secondary button.
    Right,
    /// Any other button.
    Middle,
}

/// One event of the input: a key going down or up, or the pointer moving or one
/// of its buttons going down or up at a column and row of the terminal.
#[derive(Clone, Copy, Debug, PartialEq, Eq)]
pub enum InputEvent {
    KeyPress { key: Key, ctrl: bool },
    KeyRelease { key: Key },
    MouseMove { col: u16, row: u16 },
    MouseDown { button: Button, col: u16, row: u16 },
    MouseUp { button: Button, col: u16, row: u16 },
}

/// The digit that a character writes, for the ten decimal digits.
pub open spec fn digit_of(c: char) -> Option<u8> {
    if c == '0' {
        Some(0u8)
    } else if c == '1' {
        Some(1u8)
    } else if c == '2' {
        Some(2u8)
    } else if c == '3' {
        Some(3u8)
    } else if c == '4' {
        Some(4u8)
    } else if c == '5' {
        Some(5u8)
    } else if c == '6' {
        Some(6u8)
    } else if c == '7' {
        Some(7u8)
    } else if c == '8' {
        Some(8u8)
    } else if c == '9' {
        Some(9u8)
    } else {
        None
    }
}

/// The digit that a character writes, for the ten decimal digits.
pub fn as_digit(c: char) -> (digit: Option<u8>)
    ensures
        digit == digit_of(c),
        match digit {
            Some(d) => d <= 9,
            None => true,
        },
{
    if c == '0' {
        Some(0)
    } else if c == '1' {
        Some(1)
    } else if c == '2' {
        Some(2)
    } else if c == '3' {
        Some(3)
    } else if c == '4' {
        Some(4)
    } else if c == '5' {
        Some(5)
    } else if c == '6' {
        Some(6)
    } else if c == '7' {
        Some(7)
    } else if c == '8' {
        Some(8)
    } else if c == '9' {
        Some(9)
    } else {
        None
    }
}

} // verus!
