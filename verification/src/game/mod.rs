//! Game module containing core game logic and state management

pub mod config;
pub mod controls;
pub mod frame_fit;
pub mod laws;
pub mod model;
pub mod scoring_laws;
pub mod state;

pub use state::{Game, GameState};
