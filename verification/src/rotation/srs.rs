//! Super Rotation System (SRS) Implementation
//!
//! This module implements the core SRS rotation logic, including wall kicks
//! and T-spin detection following official Tetris guidelines.

use vstd::prelude::*;

use super::kick_tables::{
    get_wall_kick_offsets,
    kicks_small,
    lemma_wall_kicks_shape,
    wall_kicks,
    KickOffset,
};
use crate::board::{in_bounds, rows_fit, Board};
use crate::tetromino::data::{lemma_shape_four_blocks, offsets_small, shape};
use crate::tetromino::{Tetromino, TetrominoType};

verus! {

/// Rotation state representation (0°, 90° CW, 180°, 270° CW)
pub type RotationState = u8;

/// Result of a rotation attempt
#[derive(Debug, PartialEq)]
pub enum RotationResult {
    /// Rotation succeeded without kicks
    Success { new_piece: Tetromino },
    /// Rotation succeeded with wall kick
    SuccessWithKick { new_piece: Tetromino, kick_used: KickOffset },
    /// Rotation failed - no valid position found
    Failed,
}

/// A coordinate with room for a kick and a block offset on either side.
pub open spec fn kick_room(c: int) -> bool {
    i32::MIN + 4 <= c <= i32::MAX - 4
}

/// All blocks with the given offsets around `(cx, cy)` may stand on the board.
pub open spec fn blocks_fit(board: Board, blocks: Seq<(i32, i32)>, cx: int, cy: int) -> bool {
    rows_fit(board.rows(), blocks, cx, cy)
}

/// The piece, turned to `target` and shifted by `kick`, may stand on the board.
pub open spec fn kick_fits(
    board: Board,
    piece_type: TetrominoType,
    target: RotationState,
    position: (i32, i32),
    kick: KickOffset,
) -> bool {
    blocks_fit(board, shape(piece_type, target), position.0 + kick.0, position.1 + kick.1)
}

/// Kick `i` is the first of the list with which the turned piece fits.
pub open spec fn is_first_fit(
    board: Board,
    piece_type: TetrominoType,
    target: RotationState,
    position: (i32, i32),
    kicks: Seq<KickOffset>,
    i: int,
) -> bool {
    &&& 0 <= i < kicks.len()
    &&& kick_fits(board, piece_type, target, position, kicks[i])
    &&& forall|j: int|
        0 <= j < i ==> !kick_fits(board, piece_type, target, position, #[trigger] kicks[j])
}

/// `new_piece` is `piece` turned to `target` and standing at `position`.
pub open spec fn turned_to(
    new_piece: Tetromino,
    piece: Tetromino,
    target: RotationState,
    position: (int, int),
) -> bool {
    &&& new_piece.piece_type == piece.piece_type
    &&& new_piece.rotation == target
    &&& new_piece.shape_ok()
    &&& new_piece.position.0 == position.0
    &&& new_piece.position.1 == position.1
}

/// What an SRS turn of `piece` to `target` gives on `board`: the first kick of
/// the table with which the turned piece fits is used (the first kick being
/// the plain turn); a piece without a table (the O-piece) does not turn: it
/// stays as it is, where it fits; if nothing fits the turn fails.
pub open spec fn srs_outcome(
    board: Board,
    piece: Tetromino,
    target: RotationState,
    result: RotationResult,
) -> bool {
    let kicks = wall_kicks(piece.piece_type, piece.rotation, target);
    let t = piece.piece_type;
    let p = piece.position;
    if kicks.len() == 0 {
        if kick_fits(board, t, piece.rotation, p, (0i32, 0i32)) {
            result matches RotationResult::Success { new_piece } && turned_to(
                new_piece,
                piece,
                piece.rotation,
                (p.0 as int, p.1 as int),
            )
        } else {
            result is Failed
        }
    } else {
        match result {
            RotationResult::Success { new_piece } => {
                &&& is_first_fit(board, t, target, p, kicks, 0)
                &&& turned_to(new_piece, piece, target, (p.0 + kicks[0].0, p.1 + kicks[0].1))
            },
            RotationResult::SuccessWithKick { new_piece, kick_used } => {
                exists|i: int|
                    1 <= i && #[trigger] is_first_fit(board, t, target, p, kicks, i) && kick_used
                        == kicks[i] && turned_to(
                        new_piece,
                        piece,
                        target,
                        (p.0 + kicks[i].0, p.1 + kicks[i].1),
                    )
            },
            RotationResult::Failed => forall|i: int|
                0 <= i < kicks.len() ==> !kick_fits(board, t, target, p, #[trigger] kicks[i]),
        }
    }
}

/// The number of the four diagonal neighbours of `(cx, cy)` that count as
/// occupied: off the board, or a filled cell.
pub open spec fn occupied_corner_count(board: Board, cx: int, cy: int) -> nat {
    (if corner_occupied(board, cx - 1, cy - 1) {
        1nat
    } else {
        0nat
    }) + (if corner_occupied(board, cx + 1, cy - 1) {
        1nat
    } else {
        0nat
    }) + (if corner_occupied(board, cx - 1, cy + 1) {
        1nat
    } else {
        0nat
    }) + (if corner_occupied(board, cx + 1, cy + 1) {
        1nat
    } else {
        0nat
    })
}

/// A corner counts as occupied when no block could stand there, when it is
/// off the grid, or when its cell is filled.
pub open spec fn corner_occupied(board: Board, x: int, y: int) -> bool {
    !board.spec_position_valid(x, y) || !in_bounds(x, y) || board.cell(x, y) is Filled
}

/// The 3-corner rule: a T-piece with at least three occupied corners.
pub open spec fn three_corner_t(board: Board, piece: Tetromino) -> bool {
    &&& piece.piece_type == TetrominoType::T
    &&& occupied_corner_count(board, piece.position.0 as int, piece.position.1 as int) >= 3
}

/// Whether the corner at `(x, y)` is occupied, as the 3-corner rule counts it.
pub fn is_corner_occupied(board: &Board, x: i32, y: i32) -> (occupied: bool)
    requires
        board.wf(),
    ensures
        occupied == corner_occupied(*board, x as int, y as int),
{
    !board.is_position_valid(x, y) || match board.get_cell(x, y) {
        Some(cell) => cell.is_filled(),
        None => true,
    }
}

/// Counts the occupied corners around a T-piece centre.
pub fn count_occupied_corners(board: &Board, center_x: i32, center_y: i32) -> (count: u32)
    requires
        board.wf(),
        i32::MIN < center_x < i32::MAX,
        i32::MIN < center_y < i32::MAX,
    ensures
        count == occupied_corner_count(*board, center_x as int, center_y as int),
{
    let mut count: u32 = 0;
    if is_corner_occupied(board, center_x - 1, center_y - 1) {
        count = count + 1;
    }  // Top-left
    if is_corner_occupied(board, center_x + 1, center_y - 1) {
        count = count + 1;
    }  // Top-right
    if is_corner_occupied(board, center_x - 1, center_y + 1) {
        count = count + 1;
    }  // Bottom-left
    if is_corner_occupied(board, center_x + 1, center_y + 1) {
        count = count + 1;
    }  // Bottom-right
    count
}

/// Trait for rotation systems - allows for different rotation behaviors
pub trait RotationSystem {
    /// Attempt to rotate a piece clockwise
    fn rotate_clockwise(&self, piece: &Tetromino, board: &Board) -> RotationResult
        requires
            board.wf(),
            kick_room(piece.position.0 as int),
            kick_room(piece.position.1 as int),
    ;

    /// Attempt to rotate a piece counterclockwise
    fn rotate_counterclockwise(&self, piece: &Tetromino, board: &Board) -> RotationResult
        requires
            board.wf(),
            kick_room(piece.position.0 as int),
            kick_room(piece.position.1 as int),
    ;

    /// Check if the last rotation could result in a T-spin
    fn is_t_spin_position(
        &self,
        piece: &Tetromino,
        board: &Board,
        kick_used: Option<KickOffset>,
    ) -> bool
        requires
            board.wf(),
            i32::MIN < piece.position.0 < i32::MAX,
            i32::MIN < piece.position.1 < i32::MAX,
    ;
}

/// Super Rotation System implementation
#[derive(Debug, Clone, Copy, PartialEq, Eq, Structural)]
pub struct SRSRotationSystem {
    /// Whether to enable T-spin detection
    pub enable_t_spin_detection: bool,
}

impl Default for SRSRotationSystem {
    fn default() -> (srs: Self)
        ensures
            srs.enable_t_spin_detection,
    {
        Self { enable_t_spin_detection: true }
    }
}

impl SRSRotationSystem {
    /// Create a new SRS rotation system
    pub fn new() -> (srs: Self)
        ensures
            srs.enable_t_spin_detection,
    {
        Self::default()
    }

    /// Create SRS system with T-spin detection disabled
    pub fn without_t_spin_detection() -> (srs: Self)
        ensures
            !srs.enable_t_spin_detection,
    {
        Self { enable_t_spin_detection: false }
    }

    /// `piece` turned to `target` and shifted by a kick, with its blocks
    /// recomputed.
    fn turned_piece(piece: &Tetromino, target: RotationState, kick: KickOffset) -> (moved:
        Tetromino)
        requires
            kick_room(piece.position.0 as int),
            kick_room(piece.position.1 as int),
            -2 <= kick.0 <= 2,
            -2 <= kick.1 <= 2,
        ensures
            turned_to(
                moved,
                *piece,
                target,
                (piece.position.0 + kick.0, piece.position.1 + kick.1),
            ),
            moved.cells_fit(),
    {
        proof {
            lemma_shape_four_blocks(piece.piece_type, target);
        }
        let mut test_piece = piece.clone();
        // Apply rotation
        test_piece.rotation = target;
        test_piece.update_blocks();
        // Apply kick offset
        test_piece.position.0 = test_piece.position.0 + kick.0;
        test_piece.position.1 = test_piece.position.1 + kick.1;
        test_piece
    }

    /// Attempt rotation with wall kicks
    fn try_rotation_with_kicks(
        &self,
        piece: &Tetromino,
        board: &Board,
        target_rotation: RotationState,
    ) -> (result: RotationResult)
        requires
            board.wf(),
            kick_room(piece.position.0 as int),
            kick_room(piece.position.1 as int),
        ensures
            srs_outcome(*board, *piece, target_rotation, result),
    {
        let from_state = piece.rotation;
        let kick_offsets = get_wall_kick_offsets(piece.piece_type, from_state, target_rotation);
        proof {
            lemma_wall_kicks_shape(piece.piece_type, from_state, target_rotation);
        }
        // If no kicks are available (the O-piece does not rotate), the piece
        // keeps its rotation state
        if kick_offsets.len() == 0 {
            return self.try_basic_rotation(piece, board, from_state);
        }
        let ghost kicks = kick_offsets@;
        // Try each kick offset in order
        for kick_index in 0..kick_offsets.len()
            invariant
                board.wf(),
                kick_room(piece.position.0 as int),
                kick_room(piece.position.1 as int),
                kicks == kick_offsets@,
                kicks == wall_kicks(piece.piece_type, piece.rotation, target_rotation),
                kicks.len() > 0,
                kicks_small(kicks),
                forall|j: int|
                    0 <= j < kick_index ==> !kick_fits(
                        *board,
                        piece.piece_type,
                        target_rotation,
                        piece.position,
                        #[trigger] kicks[j],
                    ),
        {
            let kick = kick_offsets[kick_index];
            assert(kicks[kick_index as int] == kick);
            let test_piece = Self::turned_piece(piece, target_rotation, kick);
            // Test if the new position is valid
            if Self::is_position_valid(&test_piece, board) {
                assert(kick_fits(
                    *board,
                    piece.piece_type,
                    target_rotation,
                    piece.position,
                    kick,
                ));
                assert(is_first_fit(
                    *board,
                    piece.piece_type,
                    target_rotation,
                    piece.position,
                    kicks,
                    kick_index as int,
                ));
                return if kick_index == 0 {
                    // First kick (0, 0) is basic rotation
                    RotationResult::Success { new_piece: test_piece }
                } else {
                    // Successful wall kick
                    RotationResult::SuccessWithKick { new_piece: test_piece, kick_used: kick }
                };
            }
        }
        RotationResult::Failed
    }

    /// Try basic rotation without kicks
    fn try_basic_rotation(
        &self,
        piece: &Tetromino,
        board: &Board,
        target_rotation: RotationState,
    ) -> (result: RotationResult)
        requires
            board.wf(),
            kick_room(piece.position.0 as int),
            kick_room(piece.position.1 as int),
        ensures
            kick_fits(*board, piece.piece_type, target_rotation, piece.position, (0i32, 0i32))
                ==> (result matches RotationResult::Success { new_piece } && turned_to(
                new_piece,
                *piece,
                target_rotation,
                (piece.position.0 as int, piece.position.1 as int),
            )),
            !kick_fits(*board, piece.piece_type, target_rotation, piece.position, (0i32, 0i32))
                ==> result is Failed,
    {
        let test_piece = Self::turned_piece(piece, target_rotation, (0, 0));
        if Self::is_position_valid(&test_piece, board) {
            RotationResult::Success { new_piece: test_piece }
        } else {
            RotationResult::Failed
        }
    }

    /// Check if a piece position is valid on the board
    pub fn is_position_valid(piece: &Tetromino, board: &Board) -> (valid: bool)
        requires
            board.wf(),
            piece.cells_fit(),
        ensures
            valid == blocks_fit(
                *board,
                piece.blocks@,
                piece.position.0 as int,
                piece.position.1 as int,
            ),
    {
        reveal(rows_fit);
        let cells = piece.absolute_blocks();
        for k in 0..cells.len()
            invariant
                board.wf(),
                piece.cells_fit(),
                cells@.len() == piece.blocks@.len(),
                forall|i: int|
                    0 <= i < cells@.len() ==> (#[trigger] cells@[i].0 as int, cells@[i].1 as int)
                        == piece.cells()[i],
                forall|i: int|
                    0 <= i < k ==> board.spec_position_valid(
                        piece.position.0 + #[trigger] piece.blocks@[i].0,
                        piece.position.1 + piece.blocks@[i].1,
                    ),
        {
            let (x, y) = cells[k];
            assert(piece.cells()[k as int] == (x as int, y as int));
            if !board.is_position_valid(x, y) {
                proof {
                    reveal(rows_fit);
                    assert(!crate::board::rows_valid(
                        board.rows(),
                        piece.position.0 + piece.blocks@[k as int].0,
                        piece.position.1 + piece.blocks@[k as int].1,
                    ));
                }
                return false;
            }
        }
        true
    }

    /// Get the next rotation state clockwise
    pub fn next_rotation_cw(current: RotationState) -> (next: RotationState)
        ensures
            next == (current + 1) % 4,
    {
        (current % 4 + 1) % 4
    }

    /// Get the next rotation state counterclockwise
    pub fn next_rotation_ccw(current: RotationState) -> (next: RotationState)
        ensures
            next == (if current == 0 {
                3
            } else {
                current - 1
            }),
    {
        if current == 0 {
            3
        } else {
            current - 1
        }
    }
}

impl RotationSystem for SRSRotationSystem {
    fn rotate_clockwise(&self, piece: &Tetromino, board: &Board) -> (result: RotationResult)
        ensures
            srs_outcome(*board, *piece, ((piece.rotation + 1) % 4) as u8, result),
    {
        let target_rotation = Self::next_rotation_cw(piece.rotation);
        self.try_rotation_with_kicks(piece, board, target_rotation)
    }

    fn rotate_counterclockwise(&self, piece: &Tetromino, board: &Board) -> (result:
        RotationResult)
        ensures
            srs_outcome(
                *board,
                *piece,
                (if piece.rotation == 0 {
                    3
                } else {
                    piece.rotation - 1
                }) as u8,
                result,
            ),
    {
        let target_rotation = Self::next_rotation_ccw(piece.rotation);
        self.try_rotation_with_kicks(piece, board, target_rotation)
    }

    fn is_t_spin_position(
        &self,
        piece: &Tetromino,
        board: &Board,
        _kick_used: Option<KickOffset>,
    ) -> (t_spin: bool)
        ensures
            t_spin == (self.enable_t_spin_detection && three_corner_t(*board, *piece)),
    {
        if !self.enable_t_spin_detection {
            return false;
        }
        // Only T-pieces can T-spin
        if piece.piece_type != TetrominoType::T {
            return false;
        }
        // Check the "3-corner rule" - T-piece must have 3 of its 4 corners occupied
        let occupied_corners = count_occupied_corners(board, piece.position.0, piece.position.1);
        // T-spin requires at least 3 corners to be occupied
        occupied_corners >= 3
    }
}

/// Helper function to create the default SRS rotation system
pub fn create_srs_system() -> (system: Box<dyn RotationSystem>) {
    Box::new(SRSRotationSystem::new())
}

/// The cells diagonally next to `(cx, cy)` that count as occupied corners.
pub open spec fn occupied_diagonal_cells(board: Board, cx: int, cy: int) -> Set<(int, int)> {
    Set::new(
        |c: (int, int)|
            (c.0 == cx - 1 || c.0 == cx + 1) && (c.1 == cy - 1 || c.1 == cy + 1)
                && corner_occupied(board, c.0, c.1),
    )
}

/// The four occupied-or-not corners, added one by one.
spec fn corners_added(board: Board, cx: int, cy: int, n: int) -> Set<(int, int)>
    decreases n,
{
    if n <= 0 {
        Set::empty()
    } else {
        let c = corner_at(cx, cy, n - 1);
        let before = corners_added(board, cx, cy, n - 1);
        if corner_occupied(board, c.0, c.1) {
            before.insert(c)
        } else {
            before
        }
    }
}

/// The `k`-th diagonal neighbour of `(cx, cy)`: top-left, top-right,
/// bottom-left, bottom-right.
spec fn corner_at(cx: int, cy: int, k: int) -> (int, int) {
    if k == 0 {
        (cx - 1, cy - 1)
    } else if k == 1 {
        (cx + 1, cy - 1)
    } else if k == 2 {
        (cx - 1, cy + 1)
    } else {
        (cx + 1, cy + 1)
    }
}

/// The corner count of the 3-corner rule is the number of distinct diagonal
/// neighbours of the centre that are occupied: each of the four is counted
/// once, whichever side of the centre it lies on.
pub proof fn law_corner_count_counts_each_corner_once(board: Board, cx: int, cy: int)
    ensures
        occupied_diagonal_cells(board, cx, cy).finite(),
        occupied_corner_count(board, cx, cy) == occupied_diagonal_cells(board, cx, cy).len(),
{
    let s0 = corners_added(board, cx, cy, 0);
    let s1 = corners_added(board, cx, cy, 1);
    let s2 = corners_added(board, cx, cy, 2);
    let s3 = corners_added(board, cx, cy, 3);
    let s4 = corners_added(board, cx, cy, 4);
    assert(s0 == Set::<(int, int)>::empty());
    assert(!s0.contains(corner_at(cx, cy, 0)));
    assert(!s1.contains(corner_at(cx, cy, 1)));
    assert(!s2.contains(corner_at(cx, cy, 2)));
    assert(!s3.contains(corner_at(cx, cy, 3)));
    assert(s4 =~= occupied_diagonal_cells(board, cx, cy));
}

} // verus!
