//! Super Rotation System (SRS) implementation
//!
//! This module implements the Super Rotation System used in modern Tetris games.
//! SRS includes wall kicks that allow pieces to rotate in tight spaces by trying
//! multiple offset positions when the basic rotation would collide.

pub mod kick_tables;
pub mod srs;

pub use kick_tables::{get_wall_kick_offsets, WallKickData};
pub use srs::{RotationResult, RotationState, RotationSystem, SRSRotationSystem};
