//! Perfect Clear (All Clear) detection for Tetris
//!
//! This module handles detection of Perfect Clears (when all blocks are cleared
//! from the board) and determines the appropriate bonus type.

use vstd::prelude::*;

use super::PerfectClearType;
use crate::board::Board;

verus! {

/// Perfect Clear detector
pub struct PerfectClearDetector;

/// The board is completely empty: no cell of any of its 24 rows, the four
/// buffer rows above the visible area included, is filled.
pub open spec fn board_empty(board: Board) -> bool {
    forall|x: int, y: int| 0 <= y < 24 && 0 <= x < 10 ==> !#[trigger] board.filled(x, y)
}

/// The perfect clear bonus kind for a number of lines: one per count from 1 to 4.
pub open spec fn spec_perfect_clear_type(lines_cleared: u32) -> Option<PerfectClearType> {
    if lines_cleared == 1 {
        Some(PerfectClearType::Single)
    } else if lines_cleared == 2 {
        Some(PerfectClearType::Double)
    } else if lines_cleared == 3 {
        Some(PerfectClearType::Triple)
    } else if lines_cleared == 4 {
        Some(PerfectClearType::Tetris)
    } else {
        None
    }
}

impl PerfectClearDetector {
    /// Check if the board is completely empty (Perfect Clear achieved)
    pub fn is_perfect_clear(board: &Board) -> (clear: bool)
        requires
            board.wf(),
        ensures
            clear == board_empty(*board),
    {
        // Check every row, the buffer rows above the visible area included
        for y in 0..24i32
            invariant
                board.wf(),
                forall|i: int, j: int| 0 <= j < y && 0 <= i < 10 ==> !#[trigger] board.filled(i, j),
        {
            for x in 0..10i32
                invariant
                    board.wf(),
                    0 <= y < 24,
                    forall|i: int, j: int|
                        0 <= j < y && 0 <= i < 10 ==> !#[trigger] board.filled(i, j),
                    forall|i: int| 0 <= i < x ==> !#[trigger] board.filled(i, y as int),
            {
                if let Some(cell) = board.get_cell(x, y) {
                    if cell.is_filled() {
                        assert(board.filled(x as int, y as int));
                        return false;
                    }
                }
            }
        }
        true
    }

    /// Determine the type of Perfect Clear based on the number of lines cleared
    pub fn determine_perfect_clear_type(lines_cleared: u32) -> (t: Option<PerfectClearType>)
        ensures
            t == spec_perfect_clear_type(lines_cleared),
    {
        match lines_cleared {
            0 => None,  // No lines cleared, can't be a perfect clear
            1 => Some(PerfectClearType::Single),
            2 => Some(PerfectClearType::Double),
            3 => Some(PerfectClearType::Triple),
            4 => Some(PerfectClearType::Tetris),
            _ => None,  // Invalid number of lines
        }
    }

    /// Check for Perfect Clear and return the type if achieved
    pub fn check_perfect_clear(board: &Board, lines_cleared: u32) -> (t: Option<PerfectClearType>)
        requires
            board.wf(),
        ensures
            t == (if board_empty(*board) && lines_cleared > 0 {
                spec_perfect_clear_type(lines_cleared)
            } else {
                None
            }),
    {
        if Self::is_perfect_clear(board) && lines_cleared > 0 {
            Self::determine_perfect_clear_type(lines_cleared)
        } else {
            None
        }
    }
}

} // verus!
