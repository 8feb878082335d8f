//! Colour model shared by the board and the pieces.

pub mod colors;
