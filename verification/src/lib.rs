//! A mine-clearing puzzle for the terminal, as a library.
//!
//! The board engine lays the mines at the first reveal, opens cells with their
//! flood, cycles marks and detects the end of the game ([`game`], [`chord`]); it is
//! specified against a mathematical model of the board ([`board`], [`laws`]). The
//! interaction state machine turns key and pointer events into moves on the board
//! and steps through the overlays ([`gesture`], [`modal`], [`session`]), reading
//! each event against the rectangles of the last frame drawn ([`geometry`],
//! [`layout`]). Around them stand the difficulties and what is kept of the player
//! ([`difficulty`], [`config`]), the strings of the interface ([`lang`]) and its
//! colours ([`color`]).
//!
//! What the library takes on trust from outside of it: the clock ([`clock`]), the
//! random source, the day and the locale of the system, the width of a string on
//! the terminal ([`text`]), the colours that the terminal can show, and the extent
//! that the terminal library gives a rectangle.

pub mod grid;
pub mod board;
pub mod laws;
pub mod clock;
mod random;
pub mod game;
mod flood;
pub mod chord;
pub mod geometry;
pub mod layout;
pub mod text;
pub mod event;
pub mod gesture;
pub mod form;
pub mod modal;
pub mod session;
pub mod difficulty;
pub mod config;
pub mod lang;
pub mod color;
