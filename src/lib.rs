//! Core of a rapid counting game: a random board of white and black pieces,
//! a keyboard number entry, a countdown timer and the round controller that
//! judges answers against the board's white-minus-black differential.

pub mod board;
pub mod game;
pub mod input;
pub mod points;
pub mod text;
pub mod timer;
