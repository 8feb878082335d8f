use rust_tetris::graphics::colors::{get_tetromino_color, TETROMINO_I, TETROMINO_T};
use rust_tetris::tetromino::data::get_tetromino_blocks;
use rust_tetris::tetromino::{Tetromino, TetrominoType};

#[test]
fn test_all_pieces_have_four_blocks() {
    for piece_type in TetrominoType::all() {
        for rotation in 0..4 {
            let blocks = get_tetromino_blocks(piece_type, rotation);
            assert_eq!(
                blocks.len(),
                4,
                "Piece {:?} rotation {} should have 4 blocks, got {}",
                piece_type,
                rotation,
                blocks.len()
            );
        }
    }
}

#[test]
fn test_o_piece_same_all_rotations() {
    let blocks_0 = get_tetromino_blocks(TetrominoType::O, 0);
    for rotation in 1..4 {
        let blocks = get_tetromino_blocks(TetrominoType::O, rotation);
        assert_eq!(blocks_0, blocks, "O-piece should be same for all rotations");
    }
}

#[test]
fn test_i_piece_rotations() {
    let horizontal = get_tetromino_blocks(TetrominoType::I, 0);
    let vertical = get_tetromino_blocks(TetrominoType::I, 1);

    // Should be different
    assert_ne!(horizontal, vertical);

    // Rotation 2 should match rotation 0
    assert_eq!(horizontal, get_tetromino_blocks(TetrominoType::I, 2));

    // Rotation 3 should match rotation 1
    assert_eq!(vertical, get_tetromino_blocks(TetrominoType::I, 3));
}

#[test]
fn test_rotation_bounds() {
    // Test that rotation values > 3 are handled correctly
    let blocks_0 = get_tetromino_blocks(TetrominoType::T, 0);
    let blocks_4 = get_tetromino_blocks(TetrominoType::T, 4);
    let blocks_8 = get_tetromino_blocks(TetrominoType::T, 8);

    assert_eq!(blocks_0, blocks_4);
    assert_eq!(blocks_0, blocks_8);
}

#[test]
fn new_piece_sits_at_the_spawn_point() {
    let piece = Tetromino::new(TetrominoType::S);
    assert_eq!(piece.position, (4, 2));
    assert_eq!(piece.rotation, 0);
    assert_eq!(piece.absolute_blocks(), vec![(4, 2), (5, 2), (3, 3), (4, 3)]);
    assert_eq!(piece.bounding_box(), (3, 2, 5, 3));
}

#[test]
fn four_clockwise_turns_make_a_full_turn() {
    let mut piece = Tetromino::new(TetrominoType::J);
    let start = piece.blocks.clone();
    for _ in 0..4 {
        piece.rotate_clockwise();
    }
    assert_eq!(piece.rotation, 0);
    assert_eq!(piece.blocks, start);
    piece.rotate_counterclockwise();
    assert_eq!(piece.rotation, 3);
    piece.rotate_clockwise();
    assert_eq!(piece.blocks, start);
}

#[test]
fn pieces_have_their_colours_and_names() {
    assert_eq!(TetrominoType::I.color(), TETROMINO_I);
    assert_eq!(get_tetromino_color(&TetrominoType::T), TETROMINO_T);
    assert_eq!(TetrominoType::Z.name(), "Z-piece");
    let mut piece = Tetromino::new(TetrominoType::T);
    piece.move_by(2, 3);
    assert_eq!(piece.position, (6, 5));
    piece.reset_position();
    assert_eq!(piece.position, (4, 2));
    assert_eq!(piece.color(), TETROMINO_T);
}

#[test]
fn random_pieces_are_pieces() {
    for _ in 0..50 {
        let t = TetrominoType::random();
        assert!(TetrominoType::all().contains(&t));
        let piece = Tetromino::random();
        assert_eq!(piece.position, (4, 2));
        assert_eq!(piece.blocks.len(), 4);
    }
}

fn sorted(mut cells: Vec<(i32, i32)>) -> Vec<(i32, i32)> {
    cells.sort();
    cells
}

#[test]
fn j_and_l_turn_as_quarter_turns() {
    let mut j = Tetromino::new(TetrominoType::J);
    j.rotate_clockwise();
    assert_eq!(sorted(j.blocks.clone()), sorted(vec![(1, -1), (0, -1), (0, 0), (0, 1)]));
    j.rotate_clockwise();
    j.rotate_clockwise();
    assert_eq!(sorted(j.blocks.clone()), sorted(vec![(-1, 1), (0, 1), (0, 0), (0, -1)]));

    let mut l = Tetromino::new(TetrominoType::L);
    l.rotate_clockwise();
    assert_eq!(sorted(l.blocks.clone()), sorted(vec![(1, 1), (0, -1), (0, 0), (0, 1)]));
    l.rotate_clockwise();
    l.rotate_clockwise();
    assert_eq!(sorted(l.blocks.clone()), sorted(vec![(-1, -1), (0, 1), (0, 0), (0, -1)]));
}

#[test]
fn every_clockwise_turn_maps_x_y_to_minus_y_x_up_to_a_shift() {
    for piece_type in TetrominoType::all() {
        for rotation in 0..4u8 {
            let now = get_tetromino_blocks(piece_type, rotation);
            let next = sorted(get_tetromino_blocks(piece_type, (rotation + 1) % 4));
            let turned: Vec<(i32, i32)> = now.iter().map(|&(x, y)| (-y, x)).collect();
            let found = (-3..=3).any(|tx| {
                (-3..=3).any(|ty| sorted(turned.iter().map(|&(x, y)| (x + tx, y + ty)).collect()) == next)
            });
            assert!(found, "{:?} from rotation {}", piece_type, rotation);
        }
    }
}
