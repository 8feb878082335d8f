use rust_tetris::board::Cell;
use rust_tetris::game::config::{
    AUTO_SAVE_INTERVAL, BOARD_HEIGHT, BOARD_WIDTH, BUFFER_HEIGHT, GHOST_THROW_ANIMATION_TIME,
    LINE_CLEAR_ANIMATION_TIME, LOCK_DELAY, MAX_LOCK_RESETS, MAX_PIECE_LIFETIME,
};
use rust_tetris::game::state::AutoSaveStep;
use rust_tetris::game::{Game, GameState};
use rust_tetris::tetromino::{Tetromino, TetrominoType};

/// A plain red block colour.
const RED: u32 = 0xE629_37FF;

/// Create a game with a specific piece type
fn create_game_with_piece(piece_type: TetrominoType) -> Game {
    let mut game = Game::new();
    game.current_piece = Some(Tetromino::new(piece_type));
    game.next_piece = TetrominoType::I; // Set predictable next piece
    game
}

/// Fill bottom rows to create a landing surface
fn create_landing_surface(game: &mut Game, height: usize) {
    let board_bottom = BOARD_HEIGHT + BUFFER_HEIGHT - 1;
    for y in 0..height {
        for x in 0..BOARD_WIDTH {
            game.board.set_cell(x as i32, (board_bottom - y) as i32, Cell::Filled(RED));
        }
    }
}

// No test_piece_continues_falling_after_line_clear: it sets a flat I-piece
// (cells x - 1 to x + 2) at x = 9, so three of its cells lie off the grid, the
// piece cannot drop, and locking it fills only (8, y) and (9, y) of a row
// far above the bottom row it was meant to complete; "line clearing should
// have been triggered" cannot hold. The same scenario, with a standing
// I-piece that does fit the last column, is piece_falls_on_after_a_line_clear.

#[test]
fn test_lock_delay_reset_works_correctly() {
    let mut game = create_game_with_piece(TetrominoType::T);

    // Create a surface for the piece to land on
    create_landing_surface(&mut game, 2);

    // Position piece just above the surface
    if let Some(ref mut piece) = game.current_piece {
        piece.position.1 = (BOARD_HEIGHT + BUFFER_HEIGHT - 4) as i32;
    }

    // Drop piece until it's grounded
    while game.drop_current_piece() {}

    // Piece should now be in locking state
    assert!(game.piece_is_locking, "Piece should be in locking state when grounded");

    // Test that rotation resets lock delay
    let initial_lock_timer = game.lock_delay_timer;
    game.update(100_000); // Advance lock timer
    assert!(game.lock_delay_timer > initial_lock_timer, "Lock timer should advance");

    // Rotate piece (should reset lock delay if successful)
    if game.rotate_piece_clockwise() {
        assert!(
            !game.piece_is_locking || game.lock_delay_timer == 0,
            "Successful rotation should reset lock delay"
        );
    }
}

#[test]
fn test_horizontal_movement_doesnt_cause_premature_lock() {
    let mut game = create_game_with_piece(TetrominoType::I);

    // Create a partial surface with a gap for the piece to fall into
    let board_bottom = BOARD_HEIGHT + BUFFER_HEIGHT - 1;
    for x in 0..(BOARD_WIDTH - 1) {
        game.board.set_cell(x as i32, board_bottom as i32, Cell::Filled(RED));
    }

    // Position piece above the gap
    if let Some(ref mut piece) = game.current_piece {
        piece.position = (2, (board_bottom - 8) as i32);
    }

    let initial_y = game.current_piece.as_ref().unwrap().position.1;

    // Move piece horizontally while falling
    for _ in 0..5 {
        game.move_piece(1, 0); // Move right
        game.update(100_000); // Allow some time to pass
    }

    // The piece should not be locked yet - it should still be able to fall
    assert!(game.current_piece.is_some(), "Piece should still exist after horizontal movement");

    // Verify piece can still move down
    let can_drop = game.drop_current_piece();
    if can_drop {
        let new_y = game.current_piece.as_ref().unwrap().position.1;
        assert!(new_y > initial_y, "Piece should be able to continue falling after horizontal movement");
    }
}

#[test]
fn test_ghost_block_interaction_doesnt_break_falling() {
    let mut game = create_game_with_piece(TetrominoType::L);
    game.ghost_blocks_available = 1;

    // Position piece in the middle of the board
    if let Some(ref mut piece) = game.current_piece {
        piece.position = (BOARD_WIDTH as i32 / 2, (BUFFER_HEIGHT + 5) as i32);
    }

    let initial_position = game.current_piece.as_ref().unwrap().position;

    // Activate ghost block placement mode
    game.toggle_ghost_block_mode();
    assert!(game.ghost_block_placement_mode, "Ghost block mode should be active");

    // Place a ghost block
    game.ghost_block_cursor = (1, (BUFFER_HEIGHT + 10) as i32);
    game.place_ghost_block();

    // Finish ghost block animation by updating game until completion
    while game.ghost_throw_active {
        game.update(GHOST_THROW_ANIMATION_TIME); // Force completion through normal update
    }

    // Verify current piece still exists and can move
    assert!(game.current_piece.is_some(), "Current piece should still exist after ghost block operation");

    // Verify piece is not stuck in invalid state
    let piece_valid = game.is_piece_valid(game.current_piece.as_ref().unwrap());
    assert!(piece_valid, "Current piece should be in valid position after ghost block operation");

    // Verify piece can continue falling
    let can_drop = game.drop_current_piece();
    if can_drop {
        let new_position = game.current_piece.as_ref().unwrap().position;
        assert!(
            new_position.1 > initial_position.1,
            "Piece should continue falling after ghost block interaction"
        );
    }
}

#[test]
fn test_hard_drop_locks_immediately() {
    let mut game = create_game_with_piece(TetrominoType::O);

    // Create landing surface
    create_landing_surface(&mut game, 3);

    // Position piece high up
    if let Some(ref mut piece) = game.current_piece {
        piece.position = (BOARD_WIDTH as i32 / 2, (BUFFER_HEIGHT + 2) as i32);
    }

    let initial_score = game.score;

    // Perform hard drop
    game.hard_drop();

    // Verify piece was locked (current_piece should be None after hard drop)
    assert!(game.current_piece.is_none(), "Piece should be locked immediately after hard drop");

    // Verify score was awarded for hard drop
    assert!(game.score > initial_score, "Score should increase after hard drop");

    // Allow spawn to happen
    game.update(100_000);
}

#[test]
fn test_input_spam_doesnt_break_locking() {
    let mut game = create_game_with_piece(TetrominoType::T);

    // Create landing surface
    create_landing_surface(&mut game, 2);

    // Position piece just above surface
    if let Some(ref mut piece) = game.current_piece {
        piece.position = (BOARD_WIDTH as i32 / 2, (BOARD_HEIGHT + BUFFER_HEIGHT - 4) as i32);
    }

    // Drop piece until grounded
    while game.drop_current_piece() {}

    // Spam inputs while piece is in lock delay
    for _ in 0..50 {
        game.move_piece(-1, 0); // Left
        game.move_piece(1, 0); // Right
        game.rotate_piece_clockwise();
        game.rotate_piece_counterclockwise();
        game.update(10_000); // Small time step
    }

    // Force time passage to exceed max lock resets and lifetime
    game.piece_lifetime_timer = MAX_PIECE_LIFETIME + 1_000_000;
    game.update(100_000);

    // Piece should be locked due to lifetime limit
    assert!(game.current_piece.is_none(), "Piece should eventually lock even with input spam");
}

// No test_max_lock_resets_prevents_infinite_floating: its last assertion
// (no current piece, or one at least MAX_PIECE_LIFETIME old) cannot hold.
// A lock that completes no row spawns the next piece at once, and a piece
// that reaches MAX_PIECE_LIFETIME is locked in that same update, so after
// any update there is a piece younger than MAX_PIECE_LIFETIME whatever the
// limit is. What the scenario is about, the reset limit, is checked by
// test_lock_delay_reset_works_correctly and the lock-reset bound of `wf`.

#[test]
fn test_piece_respects_natural_physics_after_operations() {
    let mut game = create_game_with_piece(TetrominoType::J);

    // Create a surface with gaps
    let board_bottom = BOARD_HEIGHT + BUFFER_HEIGHT - 1;
    for x in (0..BOARD_WIDTH).step_by(2) {
        game.board.set_cell(x as i32, board_bottom as i32, Cell::Filled(RED));
    }

    // Position piece above a gap
    if let Some(ref mut piece) = game.current_piece {
        piece.position = (1, (board_bottom - 3) as i32);
    }

    let _initial_y = game.current_piece.as_ref().unwrap().position.1;

    // Perform various operations
    game.move_piece(1, 0);
    game.rotate_piece_clockwise();
    game.hold_piece(); // This swaps the piece

    // Verify piece (now held piece replacement) still follows physics
    if let Some(ref _piece) = game.current_piece {
        // Should be able to fall into the gap
        let mut fall_count = 0;
        let mut test_game = game.clone(); // Clone to test without modifying

        while test_game.drop_current_piece() && fall_count < 10 {
            fall_count += 1;
        }

        assert!(fall_count > 0, "Piece should be able to fall after operations");
    }
}

#[test]
fn test_side_collision_doesnt_start_lock_delay() {
    let mut game = create_game_with_piece(TetrominoType::I);

    // Create a vertical wall on the right side
    let board_bottom = BOARD_HEIGHT + BUFFER_HEIGHT - 1;
    for y in 0..10 {
        game.board.set_cell((BOARD_WIDTH - 1) as i32, (board_bottom - y) as i32, Cell::Filled(RED));
    }

    // Position I-piece next to the wall but with space below
    if let Some(ref mut piece) = game.current_piece {
        piece.position = ((BOARD_WIDTH - 3) as i32, (BUFFER_HEIGHT + 5) as i32);
    }

    // Verify piece can initially fall
    let mut test_piece = game.current_piece.as_ref().unwrap().clone();
    test_piece.move_by(0, 1);
    assert!(game.is_piece_valid(&test_piece), "Piece should be able to fall initially");

    // Try to move right into the wall (should fail but not trigger lock delay)
    let initial_locking_state = game.piece_is_locking;
    let move_success = game.move_piece(1, 0); // Try to move into wall

    // Movement should fail
    assert!(!move_success, "Movement into wall should fail");

    // But lock delay should NOT be triggered because piece can still fall
    assert_eq!(
        game.piece_is_locking, initial_locking_state,
        "Lock delay state should not change when hitting side wall while piece can still fall"
    );

    // Verify piece can still move down
    assert!(game.drop_current_piece(), "Piece should still be able to drop after side collision");

    // Lock delay should still not be active (piece can continue falling)
    assert!(!game.piece_is_locking, "Lock delay should not be active while piece can fall");
}

#[test]
fn test_successful_side_movement_doesnt_trigger_lock_delay() {
    let mut game = create_game_with_piece(TetrominoType::O);

    // Create obstacles on sides but leave space for the piece to fall
    let board_bottom = BOARD_HEIGHT + BUFFER_HEIGHT - 1;

    // Create walls with gap in middle
    for y in 0..5 {
        // Left wall
        game.board.set_cell(1, (board_bottom - y) as i32, Cell::Filled(RED));
        // Right wall
        game.board.set_cell((BOARD_WIDTH - 2) as i32, (board_bottom - y) as i32, Cell::Filled(RED));
    }

    // Position piece in the middle, high up
    if let Some(ref mut piece) = game.current_piece {
        piece.position = ((BOARD_WIDTH / 2) as i32, (board_bottom - 15) as i32);
    }

    // Perform sliding movement (like T-spins or wall kicks)
    for _ in 0..3 {
        // Move left
        game.move_piece(-1, 0);
        // Should not trigger lock delay since piece can still fall
        assert!(
            !game.piece_is_locking,
            "Side movement should not trigger lock delay when piece can still fall"
        );

        // Move right
        game.move_piece(1, 0);
        // Should not trigger lock delay since piece can still fall
        assert!(
            !game.piece_is_locking,
            "Side movement should not trigger lock delay when piece can still fall"
        );
    }

    // Verify piece can still drop
    assert!(game.drop_current_piece(), "Piece should still be able to drop after side movements");
}

#[test]
fn test_hold_piece_basic_functionality() {
    let mut game = Game::new();
    let original_piece_type = game.current_piece.as_ref().unwrap().piece_type;

    // Initially should be able to hold
    assert!(game.can_hold());
    assert!(game.held_piece.is_none());

    // Hold the current piece
    assert!(game.hold_piece());

    // Should now have a held piece and new current piece
    assert!(game.held_piece.is_some());
    assert_eq!(game.held_piece.unwrap(), original_piece_type);
    assert!(game.current_piece.is_some());

    // Should not be able to hold again for the same piece
    assert!(!game.can_hold());
    assert!(!game.hold_piece());
}

#[test]
fn test_hold_piece_swap_functionality() {
    let mut game = Game::new();
    let first_piece_type = game.current_piece.as_ref().unwrap().piece_type;

    // Hold the first piece
    assert!(game.hold_piece());
    let _second_piece_type = game.current_piece.as_ref().unwrap().piece_type;

    // Spawn next piece to reset hold availability
    game.spawn_next_piece();

    // Now hold again - should swap
    let third_piece_type = game.current_piece.as_ref().unwrap().piece_type;
    assert!(game.can_hold());
    assert!(game.hold_piece());

    // The current piece should now be the first piece we held
    assert_eq!(game.current_piece.as_ref().unwrap().piece_type, first_piece_type);
    // The held piece should be the piece we just swapped out
    assert_eq!(game.held_piece.unwrap(), third_piece_type);
}

#[test]
fn test_hold_availability_reset_on_spawn() {
    let mut game = Game::new();

    // Hold a piece
    assert!(game.hold_piece());
    assert!(!game.can_hold());

    // Spawn next piece should reset hold availability
    game.spawn_next_piece();
    assert!(game.can_hold());
}

#[test]
fn test_cannot_hold_without_current_piece() {
    let mut game = Game::new();

    // Remove current piece
    game.current_piece = None;

    // Should not be able to hold
    assert!(!game.can_hold());
    assert!(!game.hold_piece());
}

#[test]
fn new_game_starts_at_the_spawn_point() {
    let game = Game::new();
    assert_eq!(game.state, GameState::Playing);
    let piece = game.current_piece.as_ref().unwrap();
    assert_eq!(piece.position, (4, 2));
    assert_eq!(piece.rotation, 0);
    assert_eq!(game.score, 0);
    assert_eq!(game.level(), 1);
    assert_eq!(game.drop_interval, 1_000_000);
    assert_eq!(game.ghost_block_cursor, (5, 14));
    assert!(!game.is_clearing_lines());
}

#[test]
fn hard_drop_scores_two_points_per_row() {
    let mut game = create_game_with_piece(TetrominoType::O);
    // The O piece at (4, 2) covers rows 2 and 3; on an empty board it falls to rows 22 and 23.
    game.hard_drop();
    assert_eq!(game.score, 2 * 20);
    assert!(game.board.get_cell(4, 23).unwrap().is_filled());
    assert!(game.board.get_cell(5, 22).unwrap().is_filled());
    // The next piece (an I) entered
    assert_eq!(game.current_piece.as_ref().unwrap().piece_type, TetrominoType::I);
}

#[test]
fn ghost_piece_lands_where_hard_drop_locks() {
    let mut game = create_game_with_piece(TetrominoType::T);
    let landing = game.calculate_ghost_piece().unwrap();
    // The T points up: its flat side rests on the floor row
    assert_eq!(landing.position, (4, 23));
    game.hard_drop();
    assert!(game.board.get_cell(4, 23).unwrap().is_filled());
    assert!(game.board.get_cell(3, 23).unwrap().is_filled());
    assert!(game.board.get_cell(5, 23).unwrap().is_filled());
    assert!(game.board.get_cell(4, 22).unwrap().is_filled());
}

#[test]
fn ghost_piece_is_none_for_a_grounded_piece() {
    let mut game = create_game_with_piece(TetrominoType::O);
    game.current_piece.as_mut().unwrap().position = (4, 22);
    assert!(game.calculate_ghost_piece().is_none());
}

#[test]
fn clearing_a_line_scores_and_finishes_after_the_animation() {
    let mut game = create_game_with_piece(TetrominoType::I);
    let bottom = (BOARD_HEIGHT + BUFFER_HEIGHT - 1) as i32;
    for x in 0..6 {
        game.board.set_cell(x, bottom, Cell::Filled(RED));
    }
    // Horizontal I covers columns x-1..x+2; at x = 7 it fills columns 6..9.
    game.current_piece.as_mut().unwrap().position = (7, 2);
    game.hard_drop();
    assert_eq!(game.get_clearing_lines(), &[23usize]);
    let score_before = game.score;
    game.update(499_999);
    assert!(game.is_clearing_lines());
    game.update(1);
    assert!(!game.is_clearing_lines());
    assert_eq!(game.score, score_before + 100);
    assert_eq!(game.lines_cleared(), 1);
    assert_eq!(game.board.filled_cells_count(), 0);
}

#[test]
fn four_lines_earn_a_ghost_block_and_the_celebration() {
    let mut game = create_game_with_piece(TetrominoType::I);
    let bottom = (BOARD_HEIGHT + BUFFER_HEIGHT - 1) as i32;
    for y in 0..4 {
        for x in 0..9 {
            game.board.set_cell(x, bottom - y, Cell::Filled(RED));
        }
    }
    // A vertical I in the last column
    {
        let piece = game.current_piece.as_mut().unwrap();
        piece.rotation = 1;
        piece.update_blocks();
        piece.position = (9, 2);
    }
    game.hard_drop();
    assert_eq!(game.get_clearing_lines().len(), 4);
    game.finish_line_clear();
    assert_eq!(game.lines_cleared(), 4);
    assert_eq!(game.ghost_blocks_available, 1);
    assert!(game.is_tetris_celebration_active());
    // Nineteen rows of hard drop, then a Tetris at level 1
    assert_eq!(game.score, 2 * 19 + 800);
}

#[test]
fn piece_falls_on_after_a_line_clear() {
    let mut game = create_game_with_piece(TetrominoType::I);
    let bottom = (BOARD_HEIGHT + BUFFER_HEIGHT - 1) as i32;
    for x in 0..9 {
        game.board.set_cell(x, bottom, Cell::Filled(RED));
    }
    // A standing I above the gap in the last column
    {
        let piece = game.current_piece.as_mut().unwrap();
        piece.rotation = 1;
        piece.update_blocks();
        piece.position = (9, bottom - 5);
    }
    while game.drop_current_piece() {}
    game.lock_current_piece();
    assert!(!game.clearing_lines.is_empty(), "Line clearing should have been triggered");
    game.finish_line_clear();
    assert!(game.current_piece.is_some(), "Should have a current piece after line clear");
    assert!(!game.piece_is_locking, "Piece should not be in locking state after line clear");
    assert_eq!(game.lock_delay_timer, 0, "Lock delay timer should be reset after line clear");
    let initial_y = game.current_piece.as_ref().unwrap().position.1;
    assert!(game.drop_current_piece(), "Piece should be able to drop after line clear");
    let new_y = game.current_piece.as_ref().unwrap().position.1;
    assert_eq!(new_y, initial_y + 1, "Piece should have moved down after line clear");
}

#[test]
fn paused_game_does_not_advance() {
    let mut game = Game::new();
    game.toggle_pause();
    assert_eq!(game.state, GameState::Paused);
    let y = game.current_piece.as_ref().unwrap().position.1;
    game.update(5_000_000);
    assert_eq!(game.current_piece.as_ref().unwrap().position.1, y);
    assert_eq!(game.game_time, 0);
    game.toggle_pause();
    assert_eq!(game.state, GameState::Playing);
}

#[test]
fn piece_drops_once_per_interval() {
    let mut game = Game::new();
    let y = game.current_piece.as_ref().unwrap().position.1;
    game.update(999_999);
    assert_eq!(game.current_piece.as_ref().unwrap().position.1, y);
    game.update(1);
    assert_eq!(game.current_piece.as_ref().unwrap().position.1, y + 1);
    assert_eq!(game.drop_timer, 0);
}

#[test]
fn soft_drop_scores_a_point_per_row() {
    let mut game = Game::new();
    let y = game.current_piece.as_ref().unwrap().position.1;
    game.update_soft_drop(false); // released: ready at once
    game.update_soft_drop(true);
    assert_eq!(game.current_piece.as_ref().unwrap().position.1, y + 1);
    assert_eq!(game.score, 1);
    // Held, it waits for its interval before the next row
    game.update_soft_drop(true);
    assert_eq!(game.current_piece.as_ref().unwrap().position.1, y + 1);
}

#[test]
fn side_move_and_back_returns_the_piece() {
    let mut game = create_game_with_piece(TetrominoType::T);
    let start = game.current_piece.as_ref().unwrap().position;
    assert!(game.move_piece(-1, 0));
    assert!(game.move_piece(1, 0));
    assert_eq!(game.current_piece.as_ref().unwrap().position, start);
}

#[test]
fn turn_and_turn_back_returns_the_piece() {
    let mut game = create_game_with_piece(TetrominoType::L);
    game.current_piece.as_mut().unwrap().position = (4, 10);
    let blocks = game.current_piece.as_ref().unwrap().blocks.clone();
    assert!(game.rotate_piece_clockwise());
    assert_eq!(game.current_piece.as_ref().unwrap().rotation, 1);
    assert!(game.rotate_piece_counterclockwise());
    assert_eq!(game.current_piece.as_ref().unwrap().rotation, 0);
    assert_eq!(game.current_piece.as_ref().unwrap().blocks, blocks);
}

#[test]
fn t_spin_needs_a_turn_and_three_corners() {
    let mut game = create_game_with_piece(TetrominoType::T);
    game.current_piece.as_mut().unwrap().position = (5, 20);
    game.board.set_cell(4, 19, Cell::Filled(RED));
    game.board.set_cell(6, 19, Cell::Filled(RED));
    game.board.set_cell(4, 21, Cell::Filled(RED));
    game.last_action_was_rotation = false;
    assert!(!game.is_t_spin());
    game.last_action_was_rotation = true;
    assert!(game.is_t_spin());
    game.board.set_cell(4, 21, Cell::Empty);
    assert!(!game.is_t_spin());
}

#[test]
fn ghost_block_mode_needs_a_block_and_auto_fires_single_gaps() {
    let mut game = create_game_with_piece(TetrominoType::T);
    // Without a ghost block nothing happens
    game.toggle_ghost_block_mode();
    assert!(!game.ghost_block_placement_mode);
    // A bottom row missing one block
    let bottom = (BOARD_HEIGHT + BUFFER_HEIGHT - 1) as i32;
    for x in 0..10 {
        if x != 3 {
            game.board.set_cell(x, bottom, Cell::Filled(RED));
        }
    }
    game.ghost_blocks_available = 1;
    game.toggle_ghost_block_mode();
    // The best target needs one block: the block is thrown at once
    assert!(!game.ghost_block_placement_mode);
    assert!(game.is_ghost_throw_active());
    assert_eq!(game.ghost_throw_target, (3, bottom));
    game.update(GHOST_THROW_ANIMATION_TIME);
    assert!(!game.is_ghost_throw_active());
    assert_eq!(game.ghost_blocks_available, 0);
    assert_eq!(game.get_clearing_lines(), &[23usize]);
}

#[test]
fn smart_positions_are_ranked_and_cycled() {
    let mut game = create_game_with_piece(TetrominoType::T);
    let bottom = (BOARD_HEIGHT + BUFFER_HEIGHT - 1) as i32;
    // Bottom row: two gaps (columns 0 and 9); the row above: one block at column 5.
    for x in 1..9 {
        game.board.set_cell(x, bottom, Cell::Filled(RED));
    }
    game.board.set_cell(5, bottom - 1, Cell::Filled(RED));
    game.ghost_blocks_available = 2;
    game.toggle_ghost_block_mode();
    assert!(game.ghost_block_placement_mode);
    let targets = game.ghost_smart_positions.clone();
    assert_eq!(targets.len(), 2 + 9);
    // Fewest blocks needed first, then nearer the centre
    assert_eq!(targets[0], (9, bottom, 2));
    assert_eq!(targets[1], (0, bottom, 2));
    assert_eq!(targets[2], (4, bottom - 1, 9));
    assert_eq!(targets[3], (6, bottom - 1, 9));
    assert_eq!(game.ghost_block_cursor, (9, bottom));
    assert_eq!(game.get_current_position_info(), Some((1, 11, 2)));
    game.next_smart_position();
    assert_eq!(game.ghost_block_cursor, (0, bottom));
    game.previous_smart_position();
    game.previous_smart_position();
    assert_eq!(game.ghost_cursor_index, 10);
    // Moving the cursor by hand onto a target selects it
    game.move_ghost_block_cursor(-20, 100);
    assert_eq!(game.ghost_block_cursor, (0, bottom));
    assert_eq!(game.ghost_cursor_index, 1);
    // Throwing at the cursor
    assert!(game.place_ghost_block());
    assert!(!game.ghost_block_placement_mode);
    assert!(!game.place_ghost_block());
}

#[test]
fn state_hash_follows_the_saved_state() {
    let game = Game::new();
    let copy = game.clone();
    assert_eq!(game.get_state_hash(), copy.get_state_hash());
    let mut moved = game.clone();
    assert!(moved.move_piece(1, 0));
    assert_ne!(game.get_state_hash(), moved.get_state_hash());
}

#[test]
fn reset_starts_a_new_game() {
    let mut game = Game::new();
    game.score = 1234;
    game.hard_drop();
    game.reset();
    assert_eq!(game.score, 0);
    assert_eq!(game.board.filled_cells_count(), 0);
    assert!(game.current_piece.is_some());
}

#[test]
fn lock_delay_resets_are_capped() {
    let mut game = create_game_with_piece(TetrominoType::O);
    game.current_piece.as_mut().unwrap().position = (4, 22);
    // Grounded: the drop fails and the piece starts locking
    assert!(!game.drop_current_piece());
    assert!(game.piece_is_locking);
    for _ in 0..(MAX_LOCK_RESETS + 5) {
        game.reset_lock_delay();
    }
    assert_eq!(game.lock_resets, MAX_LOCK_RESETS);
    assert!(game.piece_is_locking);
    // Once the lock delay runs out the piece locks and the next one enters
    game.update(LOCK_DELAY);
    assert!(game.board.get_cell(4, 23).unwrap().is_filled());
    assert_eq!(game.current_piece.as_ref().unwrap().piece_type, TetrominoType::I);
    assert_eq!(game.lock_resets, 0);
}

#[test]
fn a_piece_past_its_lifetime_locks() {
    let mut game = create_game_with_piece(TetrominoType::T);
    game.current_piece.as_mut().unwrap().position = (4, 12);
    game.piece_lifetime_timer = MAX_PIECE_LIFETIME - 1;
    game.update(1);
    assert!(game.board.get_cell(4, 12).unwrap().is_filled());
    assert_eq!(game.current_piece.as_ref().unwrap().piece_type, TetrominoType::I);
}

#[test]
fn locking_in_the_buffer_rows_ends_the_game() {
    let mut game = create_game_with_piece(TetrominoType::T);
    game.lock_current_piece();
    assert_eq!(game.state, GameState::GameOver);
    assert!(game.current_piece.is_none());
}

#[test]
fn higher_levels_drop_faster() {
    let mut game = create_game_with_piece(TetrominoType::T);
    let grid = game.board.grid_rows();
    game.board = rust_tetris::board::Board::from_parts(grid, 10, 2).unwrap();
    game.spawn_next_piece();
    assert_eq!(game.level(), 2);
    assert_eq!(game.drop_interval, 850_000);
    let grid = game.board.grid_rows();
    game.board = rust_tetris::board::Board::from_parts(grid, 200, 21).unwrap();
    game.spawn_next_piece();
    assert_eq!(game.drop_interval, 80_000);
}

#[test]
fn analysis_is_deterministic() {
    let mut game = create_game_with_piece(TetrominoType::T);
    let bottom = (BOARD_HEIGHT + BUFFER_HEIGHT - 1) as i32;
    for x in [0, 2, 3, 7] {
        game.board.set_cell(x, bottom, Cell::Filled(RED));
    }
    game.board.set_cell(4, bottom - 2, Cell::Filled(RED));
    game.analyze_smart_positions();
    let first = game.ghost_smart_positions.clone();
    game.analyze_smart_positions();
    assert_eq!(game.ghost_smart_positions, first);
    // Every empty cell of the two rows holding blocks is a target
    assert_eq!(first.len(), 6 + 9);
    assert_eq!(first[0].2, 6);
}

#[test]
fn consistency_check_spots_broken_games() {
    let mut game = Game::new();
    assert!(game.is_consistent());
    game.ghost_block_cursor = (12, 3);
    assert!(!game.is_consistent());
    game.ghost_block_cursor = (5, 14);
    game.current_piece.as_mut().unwrap().blocks.pop();
    assert!(!game.is_consistent());
}

#[test]
fn checked_update_refuses_a_clear_whose_points_do_not_fit() {
    let mut game = create_game_with_piece(TetrominoType::T);
    game.clearing_lines = vec![23];
    game.clear_animation_timer = 0;
    game.score = u32::MAX - 50;
    assert!(!game.finish_clear_fits_now());
    // Not finishing yet: time passes as usual
    assert!(game.checked_update(1));
    assert_eq!(game.clear_animation_timer, 1);
    // Finishing would add 100 points past the limit: nothing changes
    assert!(!game.checked_update(LINE_CLEAR_ANIMATION_TIME));
    assert_eq!(game.clearing_lines, vec![23]);
    assert_eq!(game.score, u32::MAX - 50);
    assert_eq!(game.clear_animation_timer, 1);
    // With room, the clear finishes and pays 100 points at level 1
    game.score = 0;
    assert!(game.finish_clear_fits_now());
    assert!(game.checked_update(LINE_CLEAR_ANIMATION_TIME));
    assert!(game.clearing_lines.is_empty());
    assert_eq!(game.score, 100);
    assert_eq!(game.lines_cleared(), 1);
}

#[test]
fn auto_save_runs_every_thirty_seconds_when_the_game_changed() {
    let mut game = create_game_with_piece(TetrominoType::T);
    let hash = game.get_state_hash();
    let other = hash.wrapping_add(1);
    assert_eq!(game.auto_save_step(AUTO_SAVE_INTERVAL - 1, 0, other), AutoSaveStep::Wait);
    assert_eq!(game.auto_save_step(AUTO_SAVE_INTERVAL, 0, other), AutoSaveStep::Save { hash });
    assert_eq!(game.auto_save_step(AUTO_SAVE_INTERVAL, 0, hash), AutoSaveStep::Unchanged);
    assert_eq!(game.auto_save_step(5, 10, other), AutoSaveStep::Wait);
    game.state = GameState::Paused;
    assert_eq!(game.auto_save_step(AUTO_SAVE_INTERVAL, 0, other), AutoSaveStep::Wait);
}

#[test]
fn move_far_off_the_board_is_refused() {
    let mut game = create_game_with_piece(TetrominoType::T);
    let before = game.current_piece.as_ref().unwrap().position;
    // The T's cells reach one column right of its centre: the moved cells
    // still fit in an i32, and the move simply fails
    let dx = i32::MAX - 1 - before.0;
    assert!(!game.move_piece(dx, 0));
    assert_eq!(game.current_piece.as_ref().unwrap().position, before);
}
