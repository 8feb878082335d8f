//! Game configuration constants and settings
//!
//! Durations are counted in whole microseconds.

use vstd::prelude::*;

verus! {

/// Game board dimensions
pub const BOARD_WIDTH: usize = 10;

pub const BOARD_HEIGHT: usize = 20;

pub const VISIBLE_HEIGHT: usize = 20;

/// Extra rows above visible area for piece spawning
pub const BUFFER_HEIGHT: usize = 4;

/// Rows of the grid: the buffer rows above the visible ones.
pub const TOTAL_HEIGHT: usize = 24;

/// Time per drop at level 1 (one second).
pub const INITIAL_DROP_TIME: u64 = 1_000_000;

/// Time before a grounded piece locks in place.
pub const LOCK_DELAY: u64 = 300_000;

/// Maximum number of times lock delay can be reset
pub const MAX_LOCK_RESETS: u32 = 15;

/// Longest time a piece may stay in play before it is locked by force.
pub const MAX_PIECE_LIFETIME: u64 = 10_000_000;

/// Time between soft drop steps when held
pub const SOFT_DROP_INTERVAL: u64 = 50_000;

/// Time between horizontal moves when held
pub const HORIZONTAL_MOVE_INTERVAL: u64 = 100_000;

/// Duration of line clearing animation
pub const LINE_CLEAR_ANIMATION_TIME: u64 = 500_000;

/// Duration of TETRIS celebration message
pub const TETRIS_CELEBRATION_TIME: u64 = 2_000_000;

/// Duration of the flight of a thrown ghost block.
pub const GHOST_THROW_ANIMATION_TIME: u64 = 600_000;

/// Scoring constants
pub const SCORE_SINGLE_LINE: u32 = 100;

pub const SCORE_DOUBLE_LINE: u32 = 300;

pub const SCORE_TRIPLE_LINE: u32 = 500;

pub const SCORE_TETRIS: u32 = 800;

pub const SCORE_SOFT_DROP: u32 = 1;

pub const SCORE_HARD_DROP: u32 = 2;

/// Level progression
pub const LINES_PER_LEVEL: u32 = 10;

/// Lines cleared that earn one ghost block.
pub const LINES_PER_GHOST_BLOCK: u32 = 4;

/// Time between auto-saves while playing (30 s), in microseconds.
pub const AUTO_SAVE_INTERVAL: u64 = 30_000_000;

} // verus!
