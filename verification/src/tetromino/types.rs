//! Tetromino type definitions

use rand::Rng;
use vstd::prelude::*;

use super::data::{get_tetromino_blocks, lemma_shape_four_blocks, offsets_small, shape};
use crate::graphics::colors::{get_tetromino_color, spec_tetromino_color, BlockColor};

verus! {

/// Seven standard Tetris pieces
#[derive(Debug, Clone, Copy, PartialEq, Eq, Hash, Structural)]
pub enum TetrominoType {
    I,  // Line piece (cyan)
    O,  // Square piece (yellow)
    T,  // T-piece (purple)
    S,  // S-piece (green)
    Z,  // Z-piece (red)
    J,  // J-piece (blue)
    L,  // L-piece (orange)
}

/// The seven piece types in their canonical order.
pub open spec fn all_types() -> Seq<TetrominoType> {
    seq![
        TetrominoType::I,
        TetrominoType::O,
        TetrominoType::T,
        TetrominoType::S,
        TetrominoType::Z,
        TetrominoType::J,
        TetrominoType::L,
    ]
}

/// Draws an index below `n` from the thread-local generator of `rand`
/// (`rand::thread_rng().gen_range(0..n)`). Claimed: the index is below `n`,
/// which is what `gen_range` documents for a non-empty range (it panics on an
/// empty one, hence `n > 0`). Which index comes back is left open.
#[verifier::external_body]
fn random_index_below(n: usize) -> (index: usize)
    requires
        n > 0,
    ensures
        index < n,
{
    rand::thread_rng().gen_range(0..n)
}

impl TetrominoType {
    /// Get all tetromino types as an array
    pub fn all() -> (types: [TetrominoType; 7])
        ensures
            types@ == all_types(),
    {
        let types = [
            TetrominoType::I,
            TetrominoType::O,
            TetrominoType::T,
            TetrominoType::S,
            TetrominoType::Z,
            TetrominoType::J,
            TetrominoType::L,
        ];
        assert(types@ =~= all_types());
        types
    }

    /// The piece type at a position of the canonical order.
    pub fn from_index(index: usize) -> (t: TetrominoType)
        requires
            index < 7,
        ensures
            t == all_types()[index as int],
    {
        let types = Self::all();
        types[index]
    }

    /// Generate a random tetromino type
    pub fn random() -> (t: TetrominoType)
        ensures
            all_types().contains(t),
    {
        let index = random_index_below(7);
        let t = Self::from_index(index);
        assert(all_types()[index as int] == t);
        t
    }

    /// Get the color associated with this tetromino type
    pub fn color(self) -> (c: BlockColor)
        ensures
            c == spec_tetromino_color(self),
    {
        get_tetromino_color(&self)
    }

    /// Get the name of the tetromino
    pub fn name(self) -> (name: &'static str)
        ensures
            name@ == spec_piece_name(self),
    {
        match self {
            TetrominoType::I => "I-piece",
            TetrominoType::O => "O-piece",
            TetrominoType::T => "T-piece",
            TetrominoType::S => "S-piece",
            TetrominoType::Z => "Z-piece",
            TetrominoType::J => "J-piece",
            TetrominoType::L => "L-piece",
        }
    }
}

/// The display name of a piece type.
pub open spec fn spec_piece_name(t: TetrominoType) -> Seq<char> {
    match t {
        TetrominoType::I => "I-piece"@,
        TetrominoType::O => "O-piece"@,
        TetrominoType::T => "T-piece"@,
        TetrominoType::S => "S-piece"@,
        TetrominoType::Z => "Z-piece"@,
        TetrominoType::J => "J-piece"@,
        TetrominoType::L => "L-piece"@,
    }
}

/// Spawn column of every new piece.
pub const SPAWN_X: i32 = 4;

/// Spawn row of every new piece (inside the buffer rows, so that it is visible).
pub const SPAWN_Y: i32 = 2;

/// Represents a tetromino piece in the game
#[derive(Debug, PartialEq)]
pub struct Tetromino {
    /// The type of tetromino
    pub piece_type: TetrominoType,
    /// Current position (x, y) of the piece center
    pub position: (i32, i32),
    /// Current rotation state (0-3)
    pub rotation: u8,
    /// The blocks that make up this piece (relative to position)
    pub blocks: Vec<(i32, i32)>,
}

/// What a piece is, as the game rules see it.
pub struct PieceView {
    pub piece_type: TetrominoType,
    pub position: (i32, i32),
    pub rotation: u8,
    pub blocks: Seq<(i32, i32)>,
}

impl View for Tetromino {
    type V = PieceView;

    open spec fn view(&self) -> PieceView {
        PieceView {
            piece_type: self.piece_type,
            position: self.position,
            rotation: self.rotation,
            blocks: self.blocks@,
        }
    }
}

/// A piece of the given type as it appears at the spawn point.
pub open spec fn spawn_view(piece_type: TetrominoType) -> PieceView {
    PieceView {
        piece_type,
        position: (SPAWN_X, SPAWN_Y),
        rotation: 0,
        blocks: shape(piece_type, 0),
    }
}

/// The piece moved by (dx, dy).
pub open spec fn shifted(p: PieceView, dx: int, dy: int) -> PieceView {
    PieceView { position: ((p.position.0 + dx) as i32, (p.position.1 + dy) as i32), ..p }
}

/// The piece turned to a rotation state, its blocks recomputed.
pub open spec fn turned(p: PieceView, rotation: u8) -> PieceView {
    PieceView { rotation, blocks: shape(p.piece_type, rotation), ..p }
}

/// The next state clockwise.
pub open spec fn cw(rotation: u8) -> u8 {
    ((rotation + 1) % 4) as u8
}

/// The next state counterclockwise.
pub open spec fn ccw(rotation: u8) -> u8 {
    if rotation == 0 {
        3
    } else {
        (rotation - 1) as u8
    }
}

/// A piece view with its proper shape, away from the ends of `i32`.
pub open spec fn piece_wf(p: PieceView) -> bool {
    &&& p.blocks == shape(p.piece_type, p.rotation)
    &&& coord_in_range(p.position.0 as int)
    &&& coord_in_range(p.position.1 as int)
}

/// A coordinate far enough from the ends of `i32` that a kick or a one-row
/// move and any block offset of a shape (each at most two cells) can be added
/// to it.
pub open spec fn coord_in_range(c: int) -> bool {
    i32::MIN + 4 <= c <= i32::MAX - 4
}

/// The cells that blocks with the given offsets cover around a centre.
pub open spec fn cells_at(blocks: Seq<(i32, i32)>, position: (i32, i32)) -> Seq<(int, int)> {
    blocks.map_values(|b: (i32, i32)| (position.0 + b.0, position.1 + b.1))
}

/// A copy of a list of block offsets.
pub fn copy_offsets(blocks: &Vec<(i32, i32)>) -> (copy: Vec<(i32, i32)>)
    ensures
        copy@ == blocks@,
{
    let mut copy: Vec<(i32, i32)> = Vec::new();
    for k in 0..blocks.len()
        invariant
            copy@ == blocks@.take(k as int),
    {
        copy.push(blocks[k]);
        assert(blocks@.take(k + 1) =~= blocks@.take(k as int).push(blocks@[k as int]));
    }
    assert(blocks@.take(blocks@.len() as int) =~= blocks@);
    copy
}

impl Clone for Tetromino {
    fn clone(&self) -> (copy: Self)
        ensures
            copy.piece_type == self.piece_type,
            copy.position == self.position,
            copy.rotation == self.rotation,
            copy.blocks@ == self.blocks@,
    {
        Tetromino {
            piece_type: self.piece_type,
            position: self.position,
            rotation: self.rotation,
            blocks: copy_offsets(&self.blocks),
        }
    }
}

impl Tetromino {
    /// The blocks agree with the piece's type and rotation state.
    pub open spec fn shape_ok(&self) -> bool {
        self.blocks@ == shape(self.piece_type, self.rotation)
    }

    /// The piece has its proper shape and sits where its cells can be computed.
    pub open spec fn wf(&self) -> bool {
        &&& self.shape_ok()
        &&& coord_in_range(self.position.0 as int)
        &&& coord_in_range(self.position.1 as int)
    }

    /// Every cell of the piece fits in an `i32`.
    pub open spec fn cells_fit(&self) -> bool {
        forall|i: int|
            0 <= i < self.blocks@.len() ==> i32::MIN <= self.position.0 + #[trigger] self.blocks@[i].0
                <= i32::MAX && i32::MIN <= self.position.1 + self.blocks@[i].1 <= i32::MAX
    }

    /// The board cells the piece covers.
    pub open spec fn cells(&self) -> Seq<(int, int)> {
        cells_at(self.blocks@, self.position)
    }

    /// Create a new tetromino at the spawn position
    pub fn new(piece_type: TetrominoType) -> (t: Tetromino)
        ensures
            t.piece_type == piece_type,
            t.position == (SPAWN_X, SPAWN_Y),
            t.rotation == 0,
            t.wf(),
    {
        let mut tetromino = Tetromino {
            piece_type,
            position: (SPAWN_X, SPAWN_Y),  // Start lower in buffer area for visibility
            rotation: 0,
            blocks: Vec::new(),
        };
        tetromino.update_blocks();
        tetromino
    }

    /// Create a random tetromino
    pub fn random() -> (t: Tetromino)
        ensures
            all_types().contains(t.piece_type),
            t.position == (SPAWN_X, SPAWN_Y),
            t.rotation == 0,
            t.wf(),
    {
        Self::new(TetrominoType::random())
    }

    /// Update the blocks array based on current type and rotation
    pub fn update_blocks(&mut self)
        ensures
            final(self).piece_type == old(self).piece_type,
            final(self).position == old(self).position,
            final(self).rotation == old(self).rotation,
            final(self).shape_ok(),
    {
        self.blocks = get_tetromino_blocks(self.piece_type, self.rotation);
    }

    /// Whether the piece has its proper shape and sits where its cells can be
    /// computed.
    pub fn is_well_formed(&self) -> (ok: bool)
        ensures
            ok == self.wf(),
    {
        if self.position.0 < i32::MIN + 4 || self.position.0 > i32::MAX - 4 || self.position.1
            < i32::MIN + 4 || self.position.1 > i32::MAX - 4 {
            return false;
        }
        let expected = get_tetromino_blocks(self.piece_type, self.rotation);
        if expected.len() != self.blocks.len() {
            return false;
        }
        for i in 0..expected.len()
            invariant
                expected@ == shape(self.piece_type, self.rotation),
                expected@.len() == self.blocks@.len(),
                forall|j: int| 0 <= j < i ==> expected@[j] == self.blocks@[j],
        {
            let (ex, ey) = expected[i];
            let (bx, by) = self.blocks[i];
            if ex != bx || ey != by {
                return false;
            }
        }
        assert(expected@ =~= self.blocks@);
        true
    }

    /// Get the absolute positions of all blocks
    pub fn absolute_blocks(&self) -> (cells: Vec<(i32, i32)>)
        requires
            self.cells_fit(),
        ensures
            cells@.len() == self.blocks@.len(),
            forall|i: int|
                0 <= i < cells@.len() ==> (#[trigger] cells@[i].0 as int, cells@[i].1 as int)
                    == self.cells()[i],
    {
        let mut cells: Vec<(i32, i32)> = Vec::new();
        let n = self.blocks.len();
        for k in 0..n
            invariant
                n == self.blocks@.len(),
                self.cells_fit(),
                cells@.len() == k,
                forall|i: int|
                    0 <= i < k ==> (#[trigger] cells@[i].0 as int, cells@[i].1 as int)
                        == self.cells()[i],
        {
            let (dx, dy) = self.blocks[k];
            assert(self.blocks@[k as int] == (dx, dy));
            cells.push((self.position.0 + dx, self.position.1 + dy));
        }
        cells
    }

    /// Move the tetromino by the specified offset
    pub fn move_by(&mut self, dx: i32, dy: i32)
        requires
            i32::MIN <= old(self).position.0 + dx <= i32::MAX,
            i32::MIN <= old(self).position.1 + dy <= i32::MAX,
        ensures
            final(self).position == (
                (old(self).position.0 + dx) as i32,
                (old(self).position.1 + dy) as i32,
            ),
            final(self).piece_type == old(self).piece_type,
            final(self).rotation == old(self).rotation,
            final(self).blocks == old(self).blocks,
    {
        self.position.0 = self.position.0 + dx;
        self.position.1 = self.position.1 + dy;
    }

    /// Rotate the tetromino clockwise
    pub fn rotate_clockwise(&mut self)
        ensures
            final(self).rotation == (old(self).rotation + 1) % 4,
            final(self).piece_type == old(self).piece_type,
            final(self).position == old(self).position,
            final(self).shape_ok(),
    {
        self.rotation = (self.rotation % 4 + 1) % 4;
        self.update_blocks();
    }

    /// Rotate the tetromino counterclockwise
    pub fn rotate_counterclockwise(&mut self)
        ensures
            final(self).rotation == (if old(self).rotation == 0 {
                3
            } else {
                old(self).rotation - 1
            }),
            final(self).piece_type == old(self).piece_type,
            final(self).position == old(self).position,
            final(self).shape_ok(),
    {
        self.rotation = if self.rotation == 0 {
            3
        } else {
            self.rotation - 1
        };
        self.update_blocks();
    }

    /// Get the color of this tetromino
    pub fn color(&self) -> (c: BlockColor)
        ensures
            c == spec_tetromino_color(self.piece_type),
    {
        self.piece_type.color()
    }

    /// Reset position to spawn point
    pub fn reset_position(&mut self)
        ensures
            final(self).position == (SPAWN_X, SPAWN_Y),
            final(self).piece_type == old(self).piece_type,
            final(self).rotation == old(self).rotation,
            final(self).blocks == old(self).blocks,
    {
        self.position = (SPAWN_X, SPAWN_Y);
    }

    /// Get the bounding box of the tetromino (min_x, min_y, max_x, max_y)
    pub fn bounding_box(&self) -> (bbox: (i32, i32, i32, i32))
        requires
            self.cells_fit(),
        ensures
            self.blocks@.len() == 0 ==> bbox == (0i32, 0i32, 0i32, 0i32),
            self.blocks@.len() > 0 ==> is_bounding_box(self.cells(), bbox),
    {
        let cells = self.absolute_blocks();
        if cells.len() == 0 {
            return (0, 0, 0, 0);
        }
        let mut min_x = cells[0].0;
        let mut min_y = cells[0].1;
        let mut max_x = cells[0].0;
        let mut max_y = cells[0].1;
        let ghost mut w_min_x: int = 0;
        let ghost mut w_min_y: int = 0;
        let ghost mut w_max_x: int = 0;
        let ghost mut w_max_y: int = 0;
        let n = cells.len();
        let ghost c = self.cells();
        assert(c[0] == (cells@[0].0 as int, cells@[0].1 as int));
        for k in 1..n
            invariant
                n == cells@.len(),
                n > 0,
                n == self.blocks@.len(),
                c == self.cells(),
                c.len() == n,
                forall|i: int|
                    0 <= i < n ==> (#[trigger] cells@[i].0 as int, cells@[i].1 as int) == c[i],
                forall|i: int|
                    0 <= i < k ==> min_x <= #[trigger] c[i].0 <= max_x && min_y <= c[i].1 <= max_y,
                0 <= w_min_x < k && c[w_min_x].0 == min_x,
                0 <= w_min_y < k && c[w_min_y].1 == min_y,
                0 <= w_max_x < k && c[w_max_x].0 == max_x,
                0 <= w_max_y < k && c[w_max_y].1 == max_y,
        {
            let (x, y) = cells[k];
            assert(c[k as int] == (x as int, y as int));
            if x < min_x {
                min_x = x;
                proof {
                    w_min_x = k as int;
                }
            }
            if y < min_y {
                min_y = y;
                proof {
                    w_min_y = k as int;
                }
            }
            if x > max_x {
                max_x = x;
                proof {
                    w_max_x = k as int;
                }
            }
            if y > max_y {
                max_y = y;
                proof {
                    w_max_y = k as int;
                }
            }
        }
        assert(c[w_min_x].0 == min_x);
        assert(c[w_min_y].1 == min_y);
        assert(c[w_max_x].0 == max_x);
        assert(c[w_max_y].1 == max_y);
        (min_x, min_y, max_x, max_y)
    }
}

impl Default for Tetromino {
    fn default() -> (t: Self)
        ensures
            t.piece_type == TetrominoType::T,
            t.position == (SPAWN_X, SPAWN_Y),
            t.rotation == 0,
            t.wf(),
    {
        Self::new(TetrominoType::T)
    }
}

/// `bbox` = (min x, min y, max x, max y) of a non-empty list of cells: every
/// cell lies inside it and each of its four sides is reached by some cell.
pub open spec fn is_bounding_box(cells: Seq<(int, int)>, bbox: (i32, i32, i32, i32)) -> bool {
    &&& forall|i: int|
        0 <= i < cells.len() ==> bbox.0 <= #[trigger] cells[i].0 <= bbox.2 && bbox.1 <= cells[i].1
            <= bbox.3
    &&& exists|i: int| 0 <= i < cells.len() && #[trigger] cells[i].0 == bbox.0
    &&& exists|i: int| 0 <= i < cells.len() && #[trigger] cells[i].1 == bbox.1
    &&& exists|i: int| 0 <= i < cells.len() && #[trigger] cells[i].0 == bbox.2
    &&& exists|i: int| 0 <= i < cells.len() && #[trigger] cells[i].1 == bbox.3
}

/// A piece with its proper shape and a position away from the ends of `i32`
/// has all its cells representable.
pub proof fn lemma_wf_cells_fit(t: Tetromino)
    requires
        t.wf(),
    ensures
        t.cells_fit(),
        t.blocks@.len() == 4,
        offsets_small(t.blocks@),
{
    lemma_shape_four_blocks(t.piece_type, t.rotation);
}

} // verus!
