//! Colours of the pieces and of the cells that they leave on the board.
//!
//! A colour is held as four 8-bit channels; the renderer turns them into
//! whatever colour type it draws with.

use vstd::prelude::*;

use crate::tetromino::TetrominoType;

verus! {

/// An RGBA colour packed into one word as `0xRRGGBBAA`.
pub type BlockColor = u32;

/// Packs four 8-bit channels into a colour.
pub fn rgba(r: u8, g: u8, b: u8, a: u8) -> (c: BlockColor)
    ensures
        c == r as int * 0x100_0000 + g as int * 0x1_0000 + b as int * 0x100 + a as int,
{
    (r as u32) * 0x100_0000 + (g as u32) * 0x1_0000 + (b as u32) * 0x100 + (a as u32)
}

/// Cyan, the colour of the I-piece.
pub const TETROMINO_I: BlockColor = 0x00FF_FFFF;

/// Yellow, the colour of the O-piece.
pub const TETROMINO_O: BlockColor = 0xFFFF_00FF;

/// Purple, the colour of the T-piece.
pub const TETROMINO_T: BlockColor = 0x8000_FFFF;

/// Green, the colour of the S-piece.
pub const TETROMINO_S: BlockColor = 0x00FF_00FF;

/// Red, the colour of the Z-piece.
pub const TETROMINO_Z: BlockColor = 0xFF00_00FF;

/// Blue, the colour of the J-piece.
pub const TETROMINO_J: BlockColor = 0x0000_FFFF;

/// Orange, the colour of the L-piece.
pub const TETROMINO_L: BlockColor = 0xFFA6_00FF;

/// Pale blue, the colour of a block placed by a ghost-block spell.
pub const GHOST_BLOCK_COLOR: BlockColor = 0xCCCC_FFFF;

/// The colour that belongs to each piece type.
pub open spec fn spec_tetromino_color(piece_type: TetrominoType) -> BlockColor {
    match piece_type {
        TetrominoType::I => TETROMINO_I,
        TetrominoType::O => TETROMINO_O,
        TetrominoType::T => TETROMINO_T,
        TetrominoType::S => TETROMINO_S,
        TetrominoType::Z => TETROMINO_Z,
        TetrominoType::J => TETROMINO_J,
        TetrominoType::L => TETROMINO_L,
    }
}

/// Get the color for a specific tetromino type
pub fn get_tetromino_color(piece_type: &TetrominoType) -> (c: BlockColor)
    ensures
        c == spec_tetromino_color(*piece_type),
{
    match piece_type {
        TetrominoType::I => TETROMINO_I,
        TetrominoType::O => TETROMINO_O,
        TetrominoType::T => TETROMINO_T,
        TetrominoType::S => TETROMINO_S,
        TetrominoType::Z => TETROMINO_Z,
        TetrominoType::J => TETROMINO_J,
        TetrominoType::L => TETROMINO_L,
    }
}

} // verus!
