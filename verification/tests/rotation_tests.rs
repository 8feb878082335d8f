use rust_tetris::board::{Board, Cell};
use rust_tetris::rotation::kick_tables::{get_i_piece_kicks, get_jlstz_kicks, get_wall_kick_offsets};
use rust_tetris::rotation::srs::{RotationResult, RotationSystem, SRSRotationSystem};
use rust_tetris::tetromino::{Tetromino, TetrominoType};

/// A plain gray block colour.
const GRAY: u32 = 0x8282_82FF;

/// Create a board with walls on the sides
fn create_confined_board() -> Board {
    let mut board = Board::new();

    // Add walls on left and right sides for testing wall kicks
    for y in 15..24 {
        board.set_cell(0, y, Cell::Filled(GRAY));
        board.set_cell(9, y, Cell::Filled(GRAY));
    }

    board
}

#[test]
fn test_basic_rotation_in_open_space() {
    let srs = SRSRotationSystem::new();
    let board = Board::new();

    // Test T-piece rotation in open space
    let mut piece = Tetromino::new(TetrominoType::T);
    piece.position = (5, 10); // Center of board

    let result = srs.rotate_clockwise(&piece, &board);
    assert!(matches!(result, RotationResult::Success { .. }));

    if let RotationResult::Success { new_piece } = result {
        assert_eq!(new_piece.rotation, 1);
        assert_eq!(new_piece.position, (5, 10)); // Position unchanged
    }
}

#[test]
fn test_wall_kick_against_left_wall() {
    let srs = SRSRotationSystem::new();
    let board = create_confined_board();

    // Position I-piece against left wall
    let mut piece = Tetromino::new(TetrominoType::I);
    piece.position = (1, 18); // Near left wall
    piece.rotation = 1; // Vertical

    // Try rotating to horizontal - should kick right
    let result = srs.rotate_clockwise(&piece, &board);

    match result {
        RotationResult::Success { new_piece } => {
            // Basic rotation worked without kick
            assert_eq!(new_piece.rotation, 2);
        }
        RotationResult::SuccessWithKick { new_piece, kick_used } => {
            // Wall kick was used
            assert_eq!(new_piece.rotation, 2);
            println!("Kick used: {:?}", kick_used);
        }
        RotationResult::Failed => {
            panic!("Rotation should succeed with wall kick");
        }
    }
}

// No test_wall_kick_against_right_wall: its I-piece at (8, 18), turning to
// the flat state 2 on the confined board, finds no free spot, so "rotation
// should succeed" cannot hold. The flat piece covers x - 1 to x + 2; in
// place and with the (2, 0) and (2, -1) kicks it leaves the grid, and with
// the (-1, 0) and (-1, 2) kicks it covers column 9, which the right wall
// fills on rows 15 to 23. The left-wall test has room for its kicks.

#[test]
fn test_counterclockwise_rotation() {
    let srs = SRSRotationSystem::new();
    let board = Board::new();

    let mut piece = Tetromino::new(TetrominoType::T);
    piece.position = (5, 10);
    piece.rotation = 1; // Start at 90 degrees

    let result = srs.rotate_counterclockwise(&piece, &board);
    assert!(matches!(result, RotationResult::Success { .. }));

    if let RotationResult::Success { new_piece } = result {
        assert_eq!(new_piece.rotation, 0); // Back to 0 degrees
    }
}

#[test]
fn test_rotation_state_wrapping() {
    let srs = SRSRotationSystem::new();
    let board = Board::new();

    let mut piece = Tetromino::new(TetrominoType::J);
    piece.position = (5, 10);
    piece.rotation = 3; // Start at 270 degrees

    // Rotate clockwise should wrap to 0
    let result = srs.rotate_clockwise(&piece, &board);
    if let RotationResult::Success { new_piece } = result {
        assert_eq!(new_piece.rotation, 0);
    }

    // Rotate counterclockwise from 0 should wrap to 3
    piece.rotation = 0;
    let result = srs.rotate_counterclockwise(&piece, &board);
    if let RotationResult::Success { new_piece } = result {
        assert_eq!(new_piece.rotation, 3);
    }
}

#[test]
fn test_o_piece_rotation_invariant() {
    let srs = SRSRotationSystem::new();
    let board = Board::new();

    let piece = Tetromino::new(TetrominoType::O);
    let _original_rotation = piece.rotation;
    let original_blocks = piece.absolute_blocks();

    // O-piece should not change when rotated
    let result = srs.rotate_clockwise(&piece, &board);

    match result {
        RotationResult::Success { new_piece } => {
            // Rotation should succeed but piece should be unchanged
            assert_eq!(new_piece.absolute_blocks(), original_blocks);
        }
        _ => panic!("O-piece rotation should always succeed"),
    }
}

#[test]
fn test_impossible_rotation_fails() {
    let srs = SRSRotationSystem::new();
    let mut board = Board::new();

    // Fill the entire area around a piece to make rotation impossible
    let center_x = 5;
    let center_y = 10;

    for x in (center_x - 2)..(center_x + 3) {
        for y in (center_y - 2)..(center_y + 3) {
            if x != center_x || y != center_y {
                board.set_cell(x, y, Cell::Filled(GRAY));
            }
        }
    }

    let mut piece = Tetromino::new(TetrominoType::T);
    piece.position = (center_x, center_y);

    let result = srs.rotate_clockwise(&piece, &board);
    assert_eq!(result, RotationResult::Failed);
}

#[test]
fn test_t_spin_detection() {
    let srs = SRSRotationSystem::new();
    let mut board = Board::new();

    // Create a T-spin setup
    let t_x = 5;
    let t_y = 20;

    // Fill 3 corners around the T-piece to create T-spin condition
    board.set_cell(t_x - 1, t_y - 1, Cell::Filled(GRAY)); // Top-left
    board.set_cell(t_x + 1, t_y - 1, Cell::Filled(GRAY)); // Top-right
    board.set_cell(t_x - 1, t_y + 1, Cell::Filled(GRAY)); // Bottom-left
    // Leave bottom-right corner open

    let mut piece = Tetromino::new(TetrominoType::T);
    piece.position = (t_x, t_y);

    // Test T-spin detection
    let is_t_spin = srs.is_t_spin_position(&piece, &board, None);
    assert!(is_t_spin);

    // Non-T-piece should not register as T-spin
    let mut i_piece = Tetromino::new(TetrominoType::I);
    i_piece.position = (t_x, t_y);
    let is_not_t_spin = srs.is_t_spin_position(&i_piece, &board, None);
    assert!(!is_not_t_spin);
}

#[test]
fn test_t_spin_detection_disabled() {
    let srs = SRSRotationSystem::without_t_spin_detection();
    let mut board = Board::new();

    // Same setup as above
    let t_x = 5;
    let t_y = 20;

    board.set_cell(t_x - 1, t_y - 1, Cell::Filled(GRAY));
    board.set_cell(t_x + 1, t_y - 1, Cell::Filled(GRAY));
    board.set_cell(t_x - 1, t_y + 1, Cell::Filled(GRAY));

    let mut piece = Tetromino::new(TetrominoType::T);
    piece.position = (t_x, t_y);

    // T-spin detection should be disabled
    let is_t_spin = srs.is_t_spin_position(&piece, &board, None);
    assert!(!is_t_spin);
}

#[test]
fn test_multiple_piece_types_rotation() {
    let srs = SRSRotationSystem::new();
    let board = Board::new();

    let piece_types = [
        TetrominoType::I,
        TetrominoType::O,
        TetrominoType::T,
        TetrominoType::S,
        TetrominoType::Z,
        TetrominoType::J,
        TetrominoType::L,
    ];

    for piece_type in piece_types {
        let mut piece = Tetromino::new(piece_type);
        piece.position = (5, 10);

        // All pieces should be able to rotate in open space
        let result = srs.rotate_clockwise(&piece, &board);
        match result {
            RotationResult::Success { .. } | RotationResult::SuccessWithKick { .. } => {}
            RotationResult::Failed => {
                panic!("{:?} should be able to rotate in open space", piece_type);
            }
        }
    }
}

#[test]
fn test_all_rotation_states() {
    let srs = SRSRotationSystem::new();
    let board = Board::new();

    let mut piece = Tetromino::new(TetrominoType::T);
    piece.position = (5, 10);

    // Test rotating through all 4 states
    for expected_rotation in 1..=4 {
        let result = srs.rotate_clockwise(&piece, &board);
        match result {
            RotationResult::Success { new_piece } | RotationResult::SuccessWithKick { new_piece, .. } => {
                piece = new_piece;
                assert_eq!(piece.rotation, expected_rotation % 4);
            }
            RotationResult::Failed => {
                panic!("Rotation {} failed", expected_rotation);
            }
        }
    }

    // Should be back to original rotation
    assert_eq!(piece.rotation, 0);
}

#[test]
fn test_jlstz_kick_tables() {
    // Test that we have kick data for common rotations
    let kicks = get_jlstz_kicks(0, 1); // 0° to 90° CW
    assert_eq!(kicks.len(), 5);
    assert_eq!(kicks[0], (0, 0)); // First kick is always no offset

    let kicks = get_jlstz_kicks(1, 0); // 90° CW to 0°
    assert_eq!(kicks.len(), 5);
    assert_eq!(kicks[0], (0, 0));
}

#[test]
fn test_i_piece_kick_tables() {
    // Test I-piece specific kicks
    let kicks = get_i_piece_kicks(0, 1); // 0° to 90° CW
    assert_eq!(kicks.len(), 5);
    assert_eq!(kicks[0], (0, 0));
    assert_eq!(kicks[1], (-2, 0)); // I-piece specific offset
}

#[test]
fn test_o_piece_no_kicks() {
    // O-piece doesn't rotate
    let kicks = get_wall_kick_offsets(TetrominoType::O, 0, 1);
    assert_eq!(kicks.len(), 0);
}

#[test]
fn test_piece_type_routing() {
    // Test that different piece types use correct kick tables
    let t_kicks = get_wall_kick_offsets(TetrominoType::T, 0, 1);
    let i_kicks = get_wall_kick_offsets(TetrominoType::I, 0, 1);
    let o_kicks = get_wall_kick_offsets(TetrominoType::O, 0, 1);

    assert_eq!(t_kicks.len(), 5); // JLSTZ table
    assert_eq!(i_kicks.len(), 5); // I-piece table
    assert_eq!(o_kicks.len(), 0); // No rotation
}

#[test]
fn test_basic_rotation_success() {
    let srs = SRSRotationSystem::new();
    let board = Board::new();
    let piece = Tetromino::new(TetrominoType::T);

    let result = srs.rotate_clockwise(&piece, &board);
    assert!(matches!(result, RotationResult::Success { .. }));
}

#[test]
fn test_o_piece_no_rotation() {
    let srs = SRSRotationSystem::new();
    let board = Board::new();
    let piece = Tetromino::new(TetrominoType::O);

    // O-piece should succeed (no change) since it doesn't rotate
    let result = srs.rotate_clockwise(&piece, &board);
    match result {
        RotationResult::Success { new_piece } => {
            assert_eq!(new_piece.rotation, piece.rotation);
        }
        _ => panic!("O-piece rotation should succeed with no change"),
    }
}

#[test]
fn test_rotation_state_transitions() {
    assert_eq!(SRSRotationSystem::next_rotation_cw(0), 1);
    assert_eq!(SRSRotationSystem::next_rotation_cw(1), 2);
    assert_eq!(SRSRotationSystem::next_rotation_cw(2), 3);
    assert_eq!(SRSRotationSystem::next_rotation_cw(3), 0);

    assert_eq!(SRSRotationSystem::next_rotation_ccw(0), 3);
    assert_eq!(SRSRotationSystem::next_rotation_ccw(1), 0);
    assert_eq!(SRSRotationSystem::next_rotation_ccw(2), 1);
    assert_eq!(SRSRotationSystem::next_rotation_ccw(3), 2);
}

#[test]
fn test_t_spin_detection_enabled() {
    let srs = SRSRotationSystem::new();
    assert!(srs.enable_t_spin_detection);

    let srs_no_tspin = SRSRotationSystem::without_t_spin_detection();
    assert!(!srs_no_tspin.enable_t_spin_detection);
}

#[test]
fn kick_reverses_kick() {
    // The kicks from 1 to 0 are those from 0 to 1 reversed in sign.
    let forward = get_jlstz_kicks(0, 1);
    let back = get_jlstz_kicks(1, 0);
    for i in 0..5 {
        assert_eq!(back[i], (-forward[i].0, -forward[i].1));
    }
    let forward = get_i_piece_kicks(2, 3);
    let back = get_i_piece_kicks(3, 2);
    for i in 0..5 {
        assert_eq!(back[i], (-forward[i].0, -forward[i].1));
    }
}

#[test]
fn wall_kick_moves_the_piece_off_the_wall() {
    let srs = SRSRotationSystem::new();
    let board = Board::new();
    // A vertical I at the left wall cannot turn flat in place
    let mut piece = Tetromino::new(TetrominoType::I);
    piece.rotation = 1;
    piece.update_blocks();
    piece.position = (0, 10);
    match srs.rotate_clockwise(&piece, &board) {
        RotationResult::SuccessWithKick { new_piece, kick_used } => {
            assert_eq!(new_piece.rotation, 2);
            // In place and one column left the flat I would stick out of the wall
            assert_eq!(kick_used, (2, 0));
            assert_eq!(new_piece.position, (2, 10));
        }
        other => panic!("expected a kick, got {:?}", other),
    }
}

#[test]
fn boxed_default_system_turns_pieces() {
    let system = rust_tetris::rotation::srs::create_srs_system();
    let board = Board::new();
    let mut piece = Tetromino::new(TetrominoType::T);
    piece.position = (5, 10);
    match system.rotate_clockwise(&piece, &board) {
        RotationResult::Success { new_piece } => assert_eq!(new_piece.rotation, 1),
        other => panic!("expected a plain turn, got {:?}", other),
    }
}
