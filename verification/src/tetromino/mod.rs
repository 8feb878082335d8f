//! The seven pieces: their shapes, their colours and how they move.

pub mod data;
pub mod types;

pub use types::{Tetromino, TetrominoType};
