use rust_tetris::board::{Board, Cell};
use rust_tetris::scoring::perfect_clear::PerfectClearDetector;
use rust_tetris::scoring::{
    determine_line_clear_type, LineClearType, PerfectClearType, ScoringAction, TetrisScoring,
};

/// Plain block colours.
const RED: u32 = 0xE629_37FF;
const BLUE: u32 = 0x0079_F1FF;

#[test]
fn test_basic_line_clear_scoring() {
    let mut scoring = TetrisScoring::new();
    let level = 5;

    // Test single line clear
    let action = ScoringAction {
        line_clear_type: LineClearType::Single,
        perfect_clear: None,
        level,
        combo: 0,
        back_to_back: false,
    };

    let result = scoring.process_line_clear(action);
    assert_eq!(result.base_score, 100 * level); // 500 points
    assert_eq!(result.combo_bonus, 0); // No combo yet
    assert_eq!(result.total_score, 500);
    assert_eq!(scoring.current_combo(), 1);
}

#[test]
fn test_combo_system() {
    let mut scoring = TetrisScoring::new();
    let level = 2;

    // First line clear - establishes combo
    let action1 = ScoringAction {
        line_clear_type: LineClearType::Single,
        perfect_clear: None,
        level,
        combo: 0,
        back_to_back: false,
    };
    scoring.process_line_clear(action1);

    // Second line clear - combo bonus should apply
    let action2 = ScoringAction {
        line_clear_type: LineClearType::Double,
        perfect_clear: None,
        level,
        combo: scoring.current_combo(),
        back_to_back: false,
    };

    let result = scoring.process_line_clear(action2);
    assert_eq!(result.base_score, 300 * level); // 600 points base
    assert_eq!(result.combo_bonus, 50 * 1 * level); // 100 points combo bonus
    assert_eq!(result.total_score, 700);
    assert_eq!(scoring.current_combo(), 2);
}

#[test]
fn test_back_to_back_tetris() {
    let mut scoring = TetrisScoring::new();
    let level = 3;

    // First Tetris - establishes back-to-back readiness
    let action1 = ScoringAction {
        line_clear_type: LineClearType::Tetris,
        perfect_clear: None,
        level,
        combo: 0,
        back_to_back: false,
    };
    scoring.process_line_clear(action1);
    assert!(scoring.is_back_to_back_ready());

    // Second Tetris - should get back-to-back bonus
    let action2 = ScoringAction {
        line_clear_type: LineClearType::Tetris,
        perfect_clear: None,
        level,
        combo: scoring.current_combo(),
        back_to_back: true,
    };

    let result = scoring.process_line_clear(action2);
    let expected_base = 800 * level; // 2400 points
    let expected_combo = 50 * 1 * level; // 150 points
    let expected_b2b = expected_base / 2; // 1200 points (50% bonus)

    assert_eq!(result.base_score, expected_base);
    assert_eq!(result.combo_bonus, expected_combo);
    assert_eq!(result.back_to_back_bonus, expected_b2b);
    assert_eq!(result.total_score, expected_base + expected_combo + expected_b2b);
}

#[test]
fn test_t_spin_scoring() {
    let _level = 4;

    let t_spin_double = LineClearType::TSpinDouble;
    assert_eq!(t_spin_double.base_score(), 1200);
    assert_eq!(t_spin_double.lines_cleared(), 2);
    assert!(t_spin_double.is_difficult());
    assert!(t_spin_double.is_t_spin());
}

#[test]
fn test_perfect_clear_bonus() {
    let mut scoring = TetrisScoring::new();
    let level = 2;

    let action = ScoringAction {
        line_clear_type: LineClearType::Single,
        perfect_clear: Some(PerfectClearType::Single),
        level,
        combo: 0,
        back_to_back: false,
    };

    let result = scoring.process_line_clear(action);
    assert_eq!(result.base_score, 100 * level); // 200 points
    assert_eq!(result.perfect_clear_bonus, 800 * level); // 1600 points
    assert_eq!(result.total_score, 1800);
}

#[test]
fn test_line_clear_type_determination() {
    assert_eq!(determine_line_clear_type(1, false, false), Some(LineClearType::Single));
    assert_eq!(determine_line_clear_type(4, false, false), Some(LineClearType::Tetris));
    assert_eq!(determine_line_clear_type(2, true, false), Some(LineClearType::TSpinDouble));
    assert_eq!(determine_line_clear_type(1, true, true), Some(LineClearType::TSpinMiniSingle));
    assert_eq!(determine_line_clear_type(0, false, false), None);
}

#[test]
fn test_empty_board_is_perfect_clear() {
    let board = Board::new();
    assert!(PerfectClearDetector::is_perfect_clear(&board));
}

#[test]
fn test_board_with_blocks_is_not_perfect_clear() {
    let mut board = Board::new();
    // Add a single block
    board.set_cell(5, 19, Cell::Filled(RED));
    assert!(!PerfectClearDetector::is_perfect_clear(&board));
}

#[test]
fn block_in_buffer_row_is_not_perfect_clear() {
    let mut board = Board::new();
    board.set_cell(0, 0, Cell::Filled(RED));
    assert!(!PerfectClearDetector::is_perfect_clear(&board));
    assert_eq!(PerfectClearDetector::check_perfect_clear(&board, 4), None);
}

#[test]
fn test_perfect_clear_type_determination() {
    assert_eq!(PerfectClearDetector::determine_perfect_clear_type(1), Some(PerfectClearType::Single));
    assert_eq!(PerfectClearDetector::determine_perfect_clear_type(2), Some(PerfectClearType::Double));
    assert_eq!(PerfectClearDetector::determine_perfect_clear_type(3), Some(PerfectClearType::Triple));
    assert_eq!(PerfectClearDetector::determine_perfect_clear_type(4), Some(PerfectClearType::Tetris));
    assert_eq!(PerfectClearDetector::determine_perfect_clear_type(0), None);
    assert_eq!(PerfectClearDetector::determine_perfect_clear_type(5), None);
}

#[test]
fn test_check_perfect_clear() {
    let empty_board = Board::new();

    // Perfect clear with 4 lines should return Tetris
    assert_eq!(
        PerfectClearDetector::check_perfect_clear(&empty_board, 4),
        Some(PerfectClearType::Tetris)
    );

    // No lines cleared should return None even if board is empty
    assert_eq!(PerfectClearDetector::check_perfect_clear(&empty_board, 0), None);

    // Board with blocks should return None
    let mut filled_board = Board::new();
    filled_board.set_cell(0, 23, Cell::Filled(BLUE));
    assert_eq!(PerfectClearDetector::check_perfect_clear(&filled_board, 1), None);
}

#[test]
fn every_line_clear_type_round_trips_through_its_parts() {
    let all = [
        LineClearType::Single,
        LineClearType::Double,
        LineClearType::Triple,
        LineClearType::Tetris,
        LineClearType::TSpinMiniSingle,
        LineClearType::TSpinSingle,
        LineClearType::TSpinMiniDouble,
        LineClearType::TSpinDouble,
        LineClearType::TSpinTriple,
    ];
    for t in all {
        let mini = matches!(t, LineClearType::TSpinMiniSingle | LineClearType::TSpinMiniDouble);
        assert_eq!(determine_line_clear_type(t.lines_cleared(), t.is_t_spin(), mini), Some(t));
    }
    assert_eq!(determine_line_clear_type(3, true, true), Some(LineClearType::TSpinTriple));
    assert_eq!(determine_line_clear_type(4, true, false), None);
}

#[test]
fn no_line_clear_breaks_the_combo() {
    let mut scoring = TetrisScoring::new();
    let action = ScoringAction {
        line_clear_type: LineClearType::Single,
        perfect_clear: None,
        level: 1,
        combo: 0,
        back_to_back: false,
    };
    scoring.process_line_clear(action);
    assert_eq!(scoring.current_combo(), 1);
    scoring.process_no_line_clear();
    assert_eq!(scoring.current_combo(), 0);
    scoring.add_drop_points(7);
    assert_eq!(scoring.total_score(), 100 + 7);
    scoring.reset();
    assert_eq!(scoring.total_score(), 0);
}
