//! Sounds of the game: which sound, and how loud a cue asks for it.

pub mod system;
