//! Rust Tetris game library: pieces, board, rotation, scoring and game rules.

pub mod audio;
pub mod board;
pub mod game;
pub mod graphics;
pub mod leaderboard;
pub mod menu;
pub mod rotation;
pub mod scoring;
pub mod tetromino;
pub mod text;

pub use board::Board;
pub use game::Game;
