use rust_tetris::board::{Board, Cell};
use rust_tetris::game::config::{BOARD_HEIGHT, BUFFER_HEIGHT};
use rust_tetris::graphics::colors::{
    TETROMINO_I, TETROMINO_J, TETROMINO_L, TETROMINO_O, TETROMINO_S, TETROMINO_T, TETROMINO_Z,
};

#[test]
fn test_new_board() {
    let board = Board::new();
    assert_eq!(board.level(), 1);
    assert_eq!(board.lines_cleared(), 0);
    assert_eq!(board.filled_cells_count(), 0);
    assert!(!board.is_game_over());
}

#[test]
fn test_cell_operations() {
    let mut board = Board::new();
    let test_color = TETROMINO_I;

    // Test setting and getting cells
    assert!(board.set_cell(5, 10, Cell::Filled(test_color)));

    let cell = board.get_cell(5, 10).unwrap();
    assert_eq!(cell, Cell::Filled(test_color));
    assert!(cell.is_filled());
    assert!(!cell.is_empty());
    assert_eq!(cell.color(), Some(test_color));

    // Test bounds checking
    assert!(!board.set_cell(-1, 10, Cell::Filled(test_color)));
    assert!(!board.set_cell(10, 10, Cell::Filled(test_color)));
    assert_eq!(board.get_cell(-1, 10), None);
    assert_eq!(board.get_cell(10, 10), None);
}

#[test]
fn test_position_validation() {
    let mut board = Board::new();
    let test_color = TETROMINO_T;

    // Empty position should be valid
    assert!(board.is_position_valid(5, 10));

    // Fill a cell
    board.set_cell(5, 10, Cell::Filled(test_color));

    // Filled position should not be valid
    assert!(!board.is_position_valid(5, 10));

    // Out of bounds positions should not be valid
    assert!(!board.is_position_valid(-1, 10));
    assert!(!board.is_position_valid(10, 10));

    // Above visible area should be valid (spawn area)
    assert!(board.is_position_valid(5, -1));
}

#[test]
fn test_line_operations() {
    let mut board = Board::new();
    let test_color = TETROMINO_S;

    // Empty line tests
    assert!(board.is_line_empty(23));
    assert!(!board.is_line_full(23));

    // Fill some cells in line 23
    for x in 0..5 {
        board.set_cell(x, 23, Cell::Filled(test_color));
    }

    // Partially filled line
    assert!(!board.is_line_empty(23));
    assert!(!board.is_line_full(23));

    // Fill the entire line
    for x in 5..10 {
        board.set_cell(x, 23, Cell::Filled(test_color));
    }

    // Full line
    assert!(!board.is_line_empty(23));
    assert!(board.is_line_full(23));
}

#[test]
fn test_line_clearing() {
    let mut board = Board::new();
    let test_color = TETROMINO_Z;

    // Fill two complete lines
    for x in 0..10 {
        board.set_cell(x, 22, Cell::Filled(test_color));
        board.set_cell(x, 23, Cell::Filled(test_color));
    }

    // Add a block above the complete lines
    board.set_cell(0, 21, Cell::Filled(test_color));

    assert_eq!(board.filled_cells_count(), 21); // 20 + 1

    // Find and clear complete lines
    let complete_lines = board.find_complete_lines();
    assert_eq!(complete_lines.len(), 2);
    assert!(complete_lines.contains(&22));
    assert!(complete_lines.contains(&23));

    let lines_cleared = board.clear_lines(&complete_lines);
    assert_eq!(lines_cleared, 2);
    assert_eq!(board.lines_cleared(), 2);
    assert_eq!(board.level(), 1); // Still level 1 (need 10 lines for level 2)

    // The block that was at (0, 21) should now be at (0, 23)
    assert_eq!(board.get_cell(0, 23).unwrap(), Cell::Filled(test_color));

    // After clearing 2 complete lines (20 blocks), we should have 1 block remaining
    assert_eq!(board.filled_cells_count(), 1);
}

#[test]
fn test_column_height() {
    let mut board = Board::new();
    let test_color = TETROMINO_J;

    // Empty column should have height 0
    assert_eq!(board.column_height(5), 0);

    // Add blocks to column 5
    board.set_cell(5, 23, Cell::Filled(test_color)); // Bottom
    board.set_cell(5, 22, Cell::Filled(test_color)); // Middle
    board.set_cell(5, 20, Cell::Filled(test_color)); // Top (with gap)

    // Height should be from top filled cell to bottom
    let expected_height = (BOARD_HEIGHT + BUFFER_HEIGHT) - 20; // 24 - 20 = 4
    assert_eq!(board.column_height(5), expected_height);
}

#[test]
fn test_game_over() {
    let mut board = Board::new();
    let test_color = TETROMINO_L;

    // Game should not be over initially
    assert!(!board.is_game_over());

    // Fill a cell in the buffer area (spawn area)
    board.set_cell(5, 2, Cell::Filled(test_color)); // Buffer area

    // Game should now be over
    assert!(board.is_game_over());
}

#[test]
fn test_board_clear() {
    let mut board = Board::new();
    let test_color = TETROMINO_O;

    // Add some blocks and statistics
    board.set_cell(0, 23, Cell::Filled(test_color));
    board.set_cell(1, 23, Cell::Filled(test_color));

    // Simulate some lines cleared
    for x in 0..10 {
        board.set_cell(x, 22, Cell::Filled(test_color));
    }
    let complete_lines = board.find_complete_lines();
    board.clear_lines(&complete_lines);

    // Verify state before clear
    assert!(board.filled_cells_count() > 0);
    assert!(board.lines_cleared() > 0);

    // Clear the board
    board.clear();

    // Verify everything is reset
    assert_eq!(board.filled_cells_count(), 0);
    assert_eq!(board.lines_cleared(), 0);
    assert_eq!(board.level(), 1);
    assert!(!board.is_game_over());
}

#[test]
fn level_rises_every_ten_lines() {
    let mut board = Board::new();
    for _ in 0..10 {
        for x in 0..10 {
            board.set_cell(x, 23, Cell::Filled(TETROMINO_I));
        }
        let lines = board.find_complete_lines();
        assert_eq!(board.clear_lines(&lines), 1);
    }
    assert_eq!(board.lines_cleared(), 10);
    assert_eq!(board.level(), 2);
}

#[test]
fn clearing_no_lines_changes_nothing() {
    let mut board = Board::new();
    board.set_cell(3, 23, Cell::Filled(TETROMINO_T));
    assert_eq!(board.clear_lines(&[]), 0);
    assert_eq!(board.filled_cells_count(), 1);
    assert_eq!(board.lines_cleared(), 0);
}

#[test]
fn debug_string_shows_the_visible_rows_and_a_border() {
    let mut board = Board::new();
    board.set_cell(0, 23, Cell::Filled(TETROMINO_T));
    board.set_cell(9, 4, Cell::Filled(TETROMINO_T));
    // A buffer-row block does not show
    board.set_cell(5, 0, Cell::Filled(TETROMINO_T));
    let text = board.debug_string();
    let lines: Vec<&str> = text.split('\n').collect();
    assert_eq!(lines.len(), 21);
    assert_eq!(lines[0], "|         #|");
    assert_eq!(lines[1], "|          |");
    assert_eq!(lines[19], "|#         |");
    assert_eq!(lines[20], "+----------+");
}

#[test]
fn board_parts_round_trip() {
    let mut board = Board::new();
    board.set_cell(2, 20, Cell::Filled(TETROMINO_S));
    let rows = board.grid_rows();
    assert_eq!(rows.len(), 24);
    let copy = Board::from_parts(rows.clone(), 0, 1).unwrap();
    assert_eq!(copy.get_cell(2, 20), Some(Cell::Filled(TETROMINO_S)));
    // A level that does not follow from the lines is refused
    assert!(Board::from_parts(rows.clone(), 25, 1).is_none());
    assert!(Board::from_parts(rows[..23].to_vec(), 0, 1).is_none());
}

#[test]
fn clearing_distinct_rows_keeps_the_others_in_order() {
    let mut board = Board::new();
    board.set_cell(0, 10, Cell::Filled(TETROMINO_I));
    board.set_cell(3, 20, Cell::Filled(TETROMINO_I));
    assert_eq!(board.clear_lines(&[23, 5]), 2);
    // Row 10 lies above one cleared row and below the other; row 20 too
    assert_eq!(board.get_cell(0, 11), Some(Cell::Filled(TETROMINO_I)));
    assert_eq!(board.get_cell(0, 10), Some(Cell::Empty));
    assert_eq!(board.get_cell(3, 21), Some(Cell::Filled(TETROMINO_I)));
    assert_eq!(board.get_cell(3, 20), Some(Cell::Empty));
    assert_eq!(board.filled_cells_count(), 2);
}
