//! Tetromino shape data and definitions

use vstd::prelude::*;

use super::types::TetrominoType;

verus! {

/// Shape of the I-piece (a line of four) in a rotation state.
pub open spec fn i_piece_shape(rotation: u8) -> Seq<(i32, i32)> {
    if rotation == 0 || rotation == 2 {
        seq![(-1i32, 0i32), (0i32, 0i32), (1i32, 0i32), (2i32, 0i32)]
    } else if rotation == 1 || rotation == 3 {
        seq![(0i32, -1i32), (0i32, 0i32), (0i32, 1i32), (0i32, 2i32)]
    } else {
        seq![]
    }
}

/// Shape of the O-piece (a 2x2 square), the same in every rotation state.
pub open spec fn o_piece_shape(rotation: u8) -> Seq<(i32, i32)> {
    seq![(0i32, 0i32), (1i32, 0i32), (0i32, 1i32), (1i32, 1i32)]
}

/// Shape of the T-piece in a rotation state.
pub open spec fn t_piece_shape(rotation: u8) -> Seq<(i32, i32)> {
    if rotation == 0 {
        seq![(-1i32, 0i32), (0i32, 0i32), (1i32, 0i32), (0i32, -1i32)]
    } else if rotation == 1 {
        seq![(0i32, -1i32), (0i32, 0i32), (0i32, 1i32), (1i32, 0i32)]
    } else if rotation == 2 {
        seq![(-1i32, 0i32), (0i32, 0i32), (1i32, 0i32), (0i32, 1i32)]
    } else if rotation == 3 {
        seq![(0i32, -1i32), (0i32, 0i32), (0i32, 1i32), (-1i32, 0i32)]
    } else {
        seq![]
    }
}

/// Shape of the S-piece in a rotation state.
pub open spec fn s_piece_shape(rotation: u8) -> Seq<(i32, i32)> {
    if rotation == 0 || rotation == 2 {
        seq![(0i32, 0i32), (1i32, 0i32), (-1i32, 1i32), (0i32, 1i32)]
    } else if rotation == 1 || rotation == 3 {
        seq![(0i32, -1i32), (0i32, 0i32), (1i32, 0i32), (1i32, 1i32)]
    } else {
        seq![]
    }
}

/// Shape of the Z-piece in a rotation state.
pub open spec fn z_piece_shape(rotation: u8) -> Seq<(i32, i32)> {
    if rotation == 0 || rotation == 2 {
        seq![(-1i32, 0i32), (0i32, 0i32), (0i32, 1i32), (1i32, 1i32)]
    } else if rotation == 1 || rotation == 3 {
        seq![(0i32, 0i32), (0i32, 1i32), (-1i32, 1i32), (-1i32, 2i32)]
    } else {
        seq![]
    }
}

/// Shape of the J-piece in a rotation state.
pub open spec fn j_piece_shape(rotation: u8) -> Seq<(i32, i32)> {
    if rotation == 0 {
        seq![(-1i32, -1i32), (-1i32, 0i32), (0i32, 0i32), (1i32, 0i32)]
    } else if rotation == 1 {
        seq![(0i32, -1i32), (0i32, 0i32), (0i32, 1i32), (1i32, -1i32)]
    } else if rotation == 2 {
        seq![(-1i32, 0i32), (0i32, 0i32), (1i32, 0i32), (1i32, 1i32)]
    } else if rotation == 3 {
        seq![(0i32, -1i32), (0i32, 0i32), (0i32, 1i32), (-1i32, 1i32)]
    } else {
        seq![]
    }
}

/// Shape of the L-piece in a rotation state.
pub open spec fn l_piece_shape(rotation: u8) -> Seq<(i32, i32)> {
    if rotation == 0 {
        seq![(1i32, -1i32), (-1i32, 0i32), (0i32, 0i32), (1i32, 0i32)]
    } else if rotation == 1 {
        seq![(0i32, -1i32), (0i32, 0i32), (0i32, 1i32), (1i32, 1i32)]
    } else if rotation == 2 {
        seq![(-1i32, 0i32), (0i32, 0i32), (1i32, 0i32), (-1i32, 1i32)]
    } else if rotation == 3 {
        seq![(0i32, -1i32), (0i32, 0i32), (0i32, 1i32), (-1i32, -1i32)]
    } else {
        seq![]
    }
}

/// The block offsets, relative to the piece's centre, of a piece type in a
/// rotation state; the rotation is taken modulo 4.
#[verifier::opaque]
pub open spec fn shape(piece_type: TetrominoType, rotation: u8) -> Seq<(i32, i32)> {
    let r = (rotation % 4) as u8;
    match piece_type {
        TetrominoType::I => i_piece_shape(r),
        TetrominoType::O => o_piece_shape(r),
        TetrominoType::T => t_piece_shape(r),
        TetrominoType::S => s_piece_shape(r),
        TetrominoType::Z => z_piece_shape(r),
        TetrominoType::J => j_piece_shape(r),
        TetrominoType::L => l_piece_shape(r),
    }
}

/// Every offset of a shape lies in -1..=2 on both axes.
pub open spec fn offsets_small(blocks: Seq<(i32, i32)>) -> bool {
    forall|i: int|
        0 <= i < blocks.len() ==> -1 <= #[trigger] blocks[i].0 <= 2 && -1 <= blocks[i].1 <= 2
}

/// Get the block positions for a tetromino type and rotation
/// Returns relative positions from the piece center
pub fn get_tetromino_blocks(piece_type: TetrominoType, rotation: u8) -> (blocks: Vec<(i32, i32)>)
    ensures
        blocks@ == shape(piece_type, rotation),
{
    reveal(shape);
    let rotation = rotation % 4;  // Ensure rotation is 0-3
    match piece_type {
        TetrominoType::I => get_i_piece_blocks(rotation),
        TetrominoType::O => get_o_piece_blocks(rotation),
        TetrominoType::T => get_t_piece_blocks(rotation),
        TetrominoType::S => get_s_piece_blocks(rotation),
        TetrominoType::Z => get_z_piece_blocks(rotation),
        TetrominoType::J => get_j_piece_blocks(rotation),
        TetrominoType::L => get_l_piece_blocks(rotation),
    }
}

/// I-piece (line) - 4 blocks in a line
pub fn get_i_piece_blocks(rotation: u8) -> (blocks: Vec<(i32, i32)>)
    ensures
        blocks@ == i_piece_shape(rotation),
{
    match rotation {
        0 | 2 => vec![(-1, 0), (0, 0), (1, 0), (2, 0)],  // Horizontal
        1 | 3 => vec![(0, -1), (0, 0), (0, 1), (0, 2)],  // Vertical
        _ => vec![],
    }
}

/// O-piece (square) - 2x2 square, no rotation
pub fn get_o_piece_blocks(rotation: u8) -> (blocks: Vec<(i32, i32)>)
    ensures
        blocks@ == o_piece_shape(rotation),
{
    vec![(0, 0), (1, 0), (0, 1), (1, 1)]
}

/// T-piece - T-shaped piece
pub fn get_t_piece_blocks(rotation: u8) -> (blocks: Vec<(i32, i32)>)
    ensures
        blocks@ == t_piece_shape(rotation),
{
    match rotation {
        0 => vec![(-1, 0), (0, 0), (1, 0), (0, -1)],  // T pointing up
        1 => vec![(0, -1), (0, 0), (0, 1), (1, 0)],  // T pointing right
        2 => vec![(-1, 0), (0, 0), (1, 0), (0, 1)],  // T pointing down
        3 => vec![(0, -1), (0, 0), (0, 1), (-1, 0)],  // T pointing left
        _ => vec![],
    }
}

/// S-piece - S-shaped piece
pub fn get_s_piece_blocks(rotation: u8) -> (blocks: Vec<(i32, i32)>)
    ensures
        blocks@ == s_piece_shape(rotation),
{
    match rotation {
        0 | 2 => vec![(0, 0), (1, 0), (-1, 1), (0, 1)],  // Horizontal S
        1 | 3 => vec![(0, -1), (0, 0), (1, 0), (1, 1)],  // Vertical S
        _ => vec![],
    }
}

/// Z-piece - Z-shaped piece
pub fn get_z_piece_blocks(rotation: u8) -> (blocks: Vec<(i32, i32)>)
    ensures
        blocks@ == z_piece_shape(rotation),
{
    match rotation {
        0 | 2 => vec![(-1, 0), (0, 0), (0, 1), (1, 1)],  // Horizontal Z
        1 | 3 => vec![(0, 0), (0, 1), (-1, 1), (-1, 2)],  // Vertical Z
        _ => vec![],
    }
}

/// J-piece - J-shaped piece
pub fn get_j_piece_blocks(rotation: u8) -> (blocks: Vec<(i32, i32)>)
    ensures
        blocks@ == j_piece_shape(rotation),
{
    match rotation {
        0 => vec![(-1, -1), (-1, 0), (0, 0), (1, 0)],  // J pointing right
        1 => vec![(0, -1), (0, 0), (0, 1), (1, -1)],  // J pointing down
        2 => vec![(-1, 0), (0, 0), (1, 0), (1, 1)],  // J pointing left
        3 => vec![(0, -1), (0, 0), (0, 1), (-1, 1)],  // J pointing up
        _ => vec![],
    }
}

/// L-piece - L-shaped piece
pub fn get_l_piece_blocks(rotation: u8) -> (blocks: Vec<(i32, i32)>)
    ensures
        blocks@ == l_piece_shape(rotation),
{
    match rotation {
        0 => vec![(1, -1), (-1, 0), (0, 0), (1, 0)],  // L pointing right
        1 => vec![(0, -1), (0, 0), (0, 1), (1, 1)],  // L pointing down
        2 => vec![(-1, 0), (0, 0), (1, 0), (-1, 1)],  // L pointing left
        3 => vec![(0, -1), (0, 0), (0, 1), (-1, -1)],  // L pointing up
        _ => vec![],
    }
}

/// Every piece, in every rotation state, is made of exactly four blocks, each
/// at most two cells from its centre.
pub proof fn lemma_shape_four_blocks(piece_type: TetrominoType, rotation: u8)
    ensures
        shape(piece_type, rotation).len() == 4,
        offsets_small(shape(piece_type, rotation)),
{
    reveal(shape);
    let r = (rotation % 4) as u8;
    assert(r < 4);
}

/// Every shape holds the centre cell (0, 0).
pub proof fn lemma_shape_has_center(piece_type: TetrominoType, rotation: u8)
    ensures
        exists|i: int|
            0 <= i < shape(piece_type, rotation).len() && #[trigger] shape(piece_type, rotation)[i]
                == (0i32, 0i32),
{
    reveal(shape);
    let r = (rotation % 4) as u8;
    let s = shape(piece_type, rotation);
    assert(r < 4);
    if s[0] == (0i32, 0i32) {
    } else if s[1] == (0i32, 0i32) {
    } else if s[2] == (0i32, 0i32) {
    } else {
        assert(s[3] == (0i32, 0i32));
    }
}

/// A rotation state and the same state plus any number of full turns give
/// the same shape.
pub proof fn lemma_shape_full_turn(piece_type: TetrominoType, rotation: u8)
    requires
        rotation < 252,
    ensures
        shape(piece_type, rotation) == shape(piece_type, (rotation + 4) as u8),
{
    reveal(shape);
}

/// The O-piece looks the same in every rotation state.
pub proof fn lemma_o_piece_rotation_invariant(r1: u8, r2: u8)
    ensures
        shape(TetrominoType::O, r1) == shape(TetrominoType::O, r2),
{
    reveal(shape);
}

/// The I, S and Z pieces have two distinct states: a half turn gives the same
/// shape back, a quarter turn does not.
pub proof fn lemma_half_turn_symmetric(piece_type: TetrominoType, rotation: u8)
    requires
        piece_type == TetrominoType::I || piece_type == TetrominoType::S || piece_type
            == TetrominoType::Z,
        rotation < 254,
    ensures
        shape(piece_type, rotation) == shape(piece_type, (rotation + 2) as u8),
        shape(piece_type, rotation) != shape(piece_type, (rotation + 1) as u8),
{
    reveal(shape);
    let r = (rotation % 4) as u8;
    assert(r < 4);
    let a = shape(piece_type, rotation);
    let b = shape(piece_type, (rotation + 1) as u8);
    if piece_type == TetrominoType::I {
        assert(a[0] != b[0]);
    } else if piece_type == TetrominoType::S {
        assert(a[0] != b[0]);
    } else {
        assert(a[0] != b[0]);
    }
}

/// The cells of a list of block offsets, as a set of points.
pub open spec fn cell_set(blocks: Seq<(i32, i32)>) -> Set<(int, int)> {
    blocks.map_values(|b: (i32, i32)| (b.0 as int, b.1 as int)).to_set()
}

/// The cells of a list of block offsets turned a quarter turn clockwise on a
/// grid whose y axis points down, (x, y) to (-y, x), then shifted by
/// (`tx`, `ty`).
pub open spec fn turned_cell_set(blocks: Seq<(i32, i32)>, tx: int, ty: int) -> Set<(int, int)> {
    blocks.map_values(|b: (i32, i32)| (-(b.1 as int) + tx, b.0 as int + ty)).to_set()
}

/// The set of the points of a list of four points.
proof fn lemma_four_points_set(s: Seq<(int, int)>)
    requires
        s.len() == 4,
    ensures
        s.to_set() == set![s[0], s[1], s[2], s[3]],
{
    assert forall|c: (int, int)| #[trigger] s.to_set().contains(c) implies set![s[0], s[1], s[2], s[3]].contains(c) by {
        assert(s.contains(c));
        let i = choose|i: int| 0 <= i < s.len() && s[i] == c;
        assert(i == 0 || i == 1 || i == 2 || i == 3);
    }
    assert forall|c: (int, int)| #[trigger] set![s[0], s[1], s[2], s[3]].contains(c) implies s.to_set().contains(c) by {
        if c == s[0] {
            assert(s.contains(c));
        } else if c == s[1] {
            assert(s.contains(c));
        } else if c == s[2] {
            assert(s.contains(c));
        } else {
            assert(s[3] == c);
            assert(s.contains(c));
        }
    }
    assert(s.to_set() =~= set![s[0], s[1], s[2], s[3]]);
}

/// Both cell sets of a shape, written out point by point.
proof fn lemma_shape_cell_sets(blocks: Seq<(i32, i32)>, tx: int, ty: int)
    requires
        blocks.len() == 4,
    ensures
        cell_set(blocks) == set![
            (blocks[0].0 as int, blocks[0].1 as int),
            (blocks[1].0 as int, blocks[1].1 as int),
            (blocks[2].0 as int, blocks[2].1 as int),
            (blocks[3].0 as int, blocks[3].1 as int),
        ],
        turned_cell_set(blocks, tx, ty) == set![
            (-(blocks[0].1 as int) + tx, blocks[0].0 as int + ty),
            (-(blocks[1].1 as int) + tx, blocks[1].0 as int + ty),
            (-(blocks[2].1 as int) + tx, blocks[2].0 as int + ty),
            (-(blocks[3].1 as int) + tx, blocks[3].0 as int + ty),
        ],
{
    let a = blocks.map_values(|b: (i32, i32)| (b.0 as int, b.1 as int));
    let t = blocks.map_values(|b: (i32, i32)| (-(b.1 as int) + tx, b.0 as int + ty));
    lemma_four_points_set(a);
    lemma_four_points_set(t);
}

/// The shift that lines a piece, turned a quarter turn clockwise from a
/// rotation state, up with its shape in the next state.
pub open spec fn clockwise_shift(piece_type: TetrominoType, rotation: u8) -> (int, int) {
    let r = rotation % 4;
    match piece_type {
        TetrominoType::I => if r == 1 || r == 3 { (1, 0) } else { (0, 0) },
        TetrominoType::O => (1, 0),
        TetrominoType::S => if r == 0 || r == 2 { (1, 0) } else { (0, 0) },
        TetrominoType::Z => if r == 0 || r == 2 { (0, 1) } else { (1, 1) },
        _ => (0, 0),
    }
}

/// Two shapes of four blocks whose points, written out, agree after the
/// turn agree as cell sets.
proof fn lemma_turn_matches(now: Seq<(i32, i32)>, next: Seq<(i32, i32)>, tx: int, ty: int)
    requires
        now.len() == 4,
        next.len() == 4,
        set![
            (next[0].0 as int, next[0].1 as int),
            (next[1].0 as int, next[1].1 as int),
            (next[2].0 as int, next[2].1 as int),
            (next[3].0 as int, next[3].1 as int),
        ] =~= set![
            (-(now[0].1 as int) + tx, now[0].0 as int + ty),
            (-(now[1].1 as int) + tx, now[1].0 as int + ty),
            (-(now[2].1 as int) + tx, now[2].0 as int + ty),
            (-(now[3].1 as int) + tx, now[3].0 as int + ty),
        ],
    ensures
        cell_set(next) == turned_cell_set(now, tx, ty),
{
    lemma_shape_cell_sets(next, 0, 0);
    lemma_shape_cell_sets(now, tx, ty);
}

/// Every quarter turn of the I-piece's shape.
proof fn lemma_i_piece_turns(r: u8)
    requires
        r < 4,
    ensures
        cell_set(i_piece_shape(((r + 1) % 4) as u8)) == turned_cell_set(
            i_piece_shape(r),
            clockwise_shift(TetrominoType::I, r).0,
            clockwise_shift(TetrominoType::I, r).1,
        ),
{
    if r == 0 {
        lemma_turn_matches(i_piece_shape(0), i_piece_shape(1), 0, 0);
    } else if r == 1 {
        lemma_turn_matches(i_piece_shape(1), i_piece_shape(2), 1, 0);
    } else if r == 2 {
        lemma_turn_matches(i_piece_shape(2), i_piece_shape(3), 0, 0);
    } else {
        lemma_turn_matches(i_piece_shape(3), i_piece_shape(0), 1, 0);
    }
}

/// Every quarter turn of the O-piece's shape.
proof fn lemma_o_piece_turns(r: u8)
    requires
        r < 4,
    ensures
        cell_set(o_piece_shape(((r + 1) % 4) as u8)) == turned_cell_set(
            o_piece_shape(r),
            clockwise_shift(TetrominoType::O, r).0,
            clockwise_shift(TetrominoType::O, r).1,
        ),
{
    if r == 0 {
        lemma_turn_matches(o_piece_shape(0), o_piece_shape(1), 1, 0);
    } else if r == 1 {
        lemma_turn_matches(o_piece_shape(1), o_piece_shape(2), 1, 0);
    } else if r == 2 {
        lemma_turn_matches(o_piece_shape(2), o_piece_shape(3), 1, 0);
    } else {
        lemma_turn_matches(o_piece_shape(3), o_piece_shape(0), 1, 0);
    }
}

/// Every quarter turn of the T-piece's shape.
proof fn lemma_t_piece_turns(r: u8)
    requires
        r < 4,
    ensures
        cell_set(t_piece_shape(((r + 1) % 4) as u8)) == turned_cell_set(
            t_piece_shape(r),
            clockwise_shift(TetrominoType::T, r).0,
            clockwise_shift(TetrominoType::T, r).1,
        ),
{
    if r == 0 {
        lemma_turn_matches(t_piece_shape(0), t_piece_shape(1), 0, 0);
    } else if r == 1 {
        lemma_turn_matches(t_piece_shape(1), t_piece_shape(2), 0, 0);
    } else if r == 2 {
        lemma_turn_matches(t_piece_shape(2), t_piece_shape(3), 0, 0);
    } else {
        lemma_turn_matches(t_piece_shape(3), t_piece_shape(0), 0, 0);
    }
}

/// Every quarter turn of the S-piece's shape.
proof fn lemma_s_piece_turns(r: u8)
    requires
        r < 4,
    ensures
        cell_set(s_piece_shape(((r + 1) % 4) as u8)) == turned_cell_set(
            s_piece_shape(r),
            clockwise_shift(TetrominoType::S, r).0,
            clockwise_shift(TetrominoType::S, r).1,
        ),
{
    if r == 0 {
        lemma_turn_matches(s_piece_shape(0), s_piece_shape(1), 1, 0);
    } else if r == 1 {
        lemma_turn_matches(s_piece_shape(1), s_piece_shape(2), 0, 0);
    } else if r == 2 {
        lemma_turn_matches(s_piece_shape(2), s_piece_shape(3), 1, 0);
    } else {
        lemma_turn_matches(s_piece_shape(3), s_piece_shape(0), 0, 0);
    }
}

/// Every quarter turn of the Z-piece's shape.
proof fn lemma_z_piece_turns(r: u8)
    requires
        r < 4,
    ensures
        cell_set(z_piece_shape(((r + 1) % 4) as u8)) == turned_cell_set(
            z_piece_shape(r),
            clockwise_shift(TetrominoType::Z, r).0,
            clockwise_shift(TetrominoType::Z, r).1,
        ),
{
    if r == 0 {
        lemma_turn_matches(z_piece_shape(0), z_piece_shape(1), 0, 1);
    } else if r == 1 {
        lemma_turn_matches(z_piece_shape(1), z_piece_shape(2), 1, 1);
    } else if r == 2 {
        lemma_turn_matches(z_piece_shape(2), z_piece_shape(3), 0, 1);
    } else {
        lemma_turn_matches(z_piece_shape(3), z_piece_shape(0), 1, 1);
    }
}

/// Every quarter turn of the J-piece's shape.
proof fn lemma_j_piece_turns(r: u8)
    requires
        r < 4,
    ensures
        cell_set(j_piece_shape(((r + 1) % 4) as u8)) == turned_cell_set(
            j_piece_shape(r),
            clockwise_shift(TetrominoType::J, r).0,
            clockwise_shift(TetrominoType::J, r).1,
        ),
{
    if r == 0 {
        lemma_turn_matches(j_piece_shape(0), j_piece_shape(1), 0, 0);
    } else if r == 1 {
        lemma_turn_matches(j_piece_shape(1), j_piece_shape(2), 0, 0);
    } else if r == 2 {
        lemma_turn_matches(j_piece_shape(2), j_piece_shape(3), 0, 0);
    } else {
        lemma_turn_matches(j_piece_shape(3), j_piece_shape(0), 0, 0);
    }
}

/// Every quarter turn of the L-piece's shape.
proof fn lemma_l_piece_turns(r: u8)
    requires
        r < 4,
    ensures
        cell_set(l_piece_shape(((r + 1) % 4) as u8)) == turned_cell_set(
            l_piece_shape(r),
            clockwise_shift(TetrominoType::L, r).0,
            clockwise_shift(TetrominoType::L, r).1,
        ),
{
    if r == 0 {
        lemma_turn_matches(l_piece_shape(0), l_piece_shape(1), 0, 0);
    } else if r == 1 {
        lemma_turn_matches(l_piece_shape(1), l_piece_shape(2), 0, 0);
    } else if r == 2 {
        lemma_turn_matches(l_piece_shape(2), l_piece_shape(3), 0, 0);
    } else {
        lemma_turn_matches(l_piece_shape(3), l_piece_shape(0), 0, 0);
    }
}

/// The quarter turn from rotation state `r` (below 4) of one piece type.
proof fn lemma_quarter_turn_state(piece_type: TetrominoType, r: u8)
    requires
        r < 4,
    ensures
        cell_set(shape(piece_type, (r + 1) as u8)) == turned_cell_set(
            shape(piece_type, r),
            clockwise_shift(piece_type, r).0,
            clockwise_shift(piece_type, r).1,
        ),
{
    reveal(shape);
    assert(((r + 1) as u8) % 4 == ((r + 1) % 4) as u8);
    match piece_type {
        TetrominoType::I => lemma_i_piece_turns(r),
        TetrominoType::O => lemma_o_piece_turns(r),
        TetrominoType::T => lemma_t_piece_turns(r),
        TetrominoType::S => lemma_s_piece_turns(r),
        TetrominoType::Z => lemma_z_piece_turns(r),
        TetrominoType::J => lemma_j_piece_turns(r),
        TetrominoType::L => lemma_l_piece_turns(r),
    }
}

/// A clockwise turn is a true quarter turn: the shape of the next rotation
/// state is the shape of this one with every cell (x, y) moved to (-y, x)
/// (the y axis pointing down), shifted as a whole by `clockwise_shift`.
pub proof fn lemma_clockwise_turn_is_quarter_turn(piece_type: TetrominoType, rotation: u8)
    requires
        rotation < 255,
    ensures
        cell_set(shape(piece_type, (rotation + 1) as u8)) == turned_cell_set(
            shape(piece_type, rotation),
            clockwise_shift(piece_type, rotation).0,
            clockwise_shift(piece_type, rotation).1,
        ),
        exists|tx: int, ty: int|
            cell_set(shape(piece_type, (rotation + 1) as u8)) == #[trigger] turned_cell_set(
                shape(piece_type, rotation),
                tx,
                ty,
            ),
{
    let r = (rotation % 4) as u8;
    lemma_quarter_turn_state(piece_type, r);
    assert(shape(piece_type, rotation) == shape(piece_type, r)) by {
        reveal(shape);
    }
    assert(shape(piece_type, (rotation + 1) as u8) == shape(piece_type, (r + 1) as u8)) by {
        reveal(shape);
    }
    assert(clockwise_shift(piece_type, rotation) == clockwise_shift(piece_type, r));
    let (tx, ty) = clockwise_shift(piece_type, rotation);
    assert(cell_set(shape(piece_type, (rotation + 1) as u8)) == turned_cell_set(
        shape(piece_type, rotation),
        tx,
        ty,
    ));
}

} // verus!
