//! SRS Wall Kick Tables
//!
//! Contains the official Super Rotation System wall kick offset tables.
//! These define the positions to try when a basic rotation fails.

use vstd::prelude::*;

use crate::tetromino::types::copy_offsets;
use crate::tetromino::TetrominoType;

verus! {

/// Rotation state (0° = 0, 90° CW = 1, 180° = 2, 270° CW = 3)
pub type RotationState = u8;

/// Wall kick offset data - (x_offset, y_offset)
pub type KickOffset = (i32, i32);

/// Wall kick data for a specific rotation transition
#[derive(Debug)]
pub struct WallKickData {
    /// From rotation state (0-3)
    pub from_state: RotationState,
    /// To rotation state (0-3)
    pub to_state: RotationState,
    /// List of kick offsets to try in order
    pub kicks: Vec<KickOffset>,
}

impl Clone for WallKickData {
    fn clone(&self) -> (copy: Self)
        ensures
            copy.from_state == self.from_state,
            copy.to_state == self.to_state,
            copy.kicks@ == self.kicks@,
    {
        WallKickData {
            from_state: self.from_state,
            to_state: self.to_state,
            kicks: copy_offsets(&self.kicks),
        }
    }
}

/// Kicks for the J, L, S, T and Z pieces, by transition.
pub open spec fn jlstz_kicks(from_state: RotationState, to_state: RotationState) -> Seq<KickOffset> {
    if from_state == 0 && to_state == 1 {
        seq![(0i32, 0i32), (-1i32, 0i32), (-1i32, 1i32), (0i32, -2i32), (-1i32, -2i32)]
    } else if from_state == 1 && to_state == 0 {
        seq![(0i32, 0i32), (1i32, 0i32), (1i32, -1i32), (0i32, 2i32), (1i32, 2i32)]
    } else if from_state == 1 && to_state == 2 {
        seq![(0i32, 0i32), (1i32, 0i32), (1i32, -1i32), (0i32, 2i32), (1i32, 2i32)]
    } else if from_state == 2 && to_state == 1 {
        seq![(0i32, 0i32), (-1i32, 0i32), (-1i32, 1i32), (0i32, -2i32), (-1i32, -2i32)]
    } else if from_state == 2 && to_state == 3 {
        seq![(0i32, 0i32), (1i32, 0i32), (1i32, 1i32), (0i32, -2i32), (1i32, -2i32)]
    } else if from_state == 3 && to_state == 2 {
        seq![(0i32, 0i32), (-1i32, 0i32), (-1i32, -1i32), (0i32, 2i32), (-1i32, 2i32)]
    } else if from_state == 3 && to_state == 0 {
        seq![(0i32, 0i32), (-1i32, 0i32), (-1i32, -1i32), (0i32, 2i32), (-1i32, 2i32)]
    } else if from_state == 0 && to_state == 3 {
        seq![(0i32, 0i32), (1i32, 0i32), (1i32, 1i32), (0i32, -2i32), (1i32, -2i32)]
    } else {
        seq![(0i32, 0i32)]
    }
}

/// Kicks for the I-piece, by transition.
pub open spec fn i_piece_kicks(from_state: RotationState, to_state: RotationState) -> Seq<KickOffset> {
    if from_state == 0 && to_state == 1 {
        seq![(0i32, 0i32), (-2i32, 0i32), (1i32, 0i32), (-2i32, -1i32), (1i32, 2i32)]
    } else if from_state == 1 && to_state == 0 {
        seq![(0i32, 0i32), (2i32, 0i32), (-1i32, 0i32), (2i32, 1i32), (-1i32, -2i32)]
    } else if from_state == 1 && to_state == 2 {
        seq![(0i32, 0i32), (-1i32, 0i32), (2i32, 0i32), (-1i32, 2i32), (2i32, -1i32)]
    } else if from_state == 2 && to_state == 1 {
        seq![(0i32, 0i32), (1i32, 0i32), (-2i32, 0i32), (1i32, -2i32), (-2i32, 1i32)]
    } else if from_state == 2 && to_state == 3 {
        seq![(0i32, 0i32), (2i32, 0i32), (-1i32, 0i32), (2i32, 1i32), (-1i32, -2i32)]
    } else if from_state == 3 && to_state == 2 {
        seq![(0i32, 0i32), (-2i32, 0i32), (1i32, 0i32), (-2i32, -1i32), (1i32, 2i32)]
    } else if from_state == 3 && to_state == 0 {
        seq![(0i32, 0i32), (1i32, 0i32), (-2i32, 0i32), (1i32, -2i32), (-2i32, 1i32)]
    } else if from_state == 0 && to_state == 3 {
        seq![(0i32, 0i32), (-1i32, 0i32), (2i32, 0i32), (-1i32, 2i32), (2i32, -1i32)]
    } else {
        seq![(0i32, 0i32)]
    }
}

/// The kicks tried, in order, when a piece turns from one state to another:
/// none for the O-piece, the I table for the I-piece, the shared table for
/// the other five.
pub open spec fn wall_kicks(
    piece_type: TetrominoType,
    from_state: RotationState,
    to_state: RotationState,
) -> Seq<KickOffset> {
    match piece_type {
        TetrominoType::O => seq![],
        TetrominoType::I => i_piece_kicks(from_state, to_state),
        _ => jlstz_kicks(from_state, to_state),
    }
}

/// Every kick moves a piece by at most two cells on each axis.
pub open spec fn kicks_small(kicks: Seq<KickOffset>) -> bool {
    forall|i: int|
        0 <= i < kicks.len() ==> -2 <= #[trigger] kicks[i].0 <= 2 && -2 <= kicks[i].1 <= 2
}

/// Get wall kick offsets for a piece type and rotation transition
pub fn get_wall_kick_offsets(
    piece_type: TetrominoType,
    from_state: RotationState,
    to_state: RotationState,
) -> (kicks: Vec<KickOffset>)
    ensures
        kicks@ == wall_kicks(piece_type, from_state, to_state),
{
    match piece_type {
        TetrominoType::O => {
            // O-piece doesn't rotate in SRS
            vec![]
        },
        TetrominoType::I => { get_i_piece_kicks(from_state, to_state) },
        _ => {
            // JLSTZ pieces use the same kick table
            get_jlstz_kicks(from_state, to_state)
        },
    }
}

/// Wall kick offsets for JLSTZ pieces (standard SRS table)
pub fn get_jlstz_kicks(from_state: RotationState, to_state: RotationState) -> (kicks: Vec<
    KickOffset,
>)
    ensures
        kicks@ == jlstz_kicks(from_state, to_state),
{
    match (from_state, to_state) {
        // 0 -> R (0° to 90° CW)
        (0, 1) => vec![(0, 0), (-1, 0), (-1, 1), (0, -2), (-1, -2)],
        // R -> 0 (90° CW to 0°)
        (1, 0) => vec![(0, 0), (1, 0), (1, -1), (0, 2), (1, 2)],
        // R -> 2 (90° CW to 180°)
        (1, 2) => vec![(0, 0), (1, 0), (1, -1), (0, 2), (1, 2)],
        // 2 -> R (180° to 90° CW)
        (2, 1) => vec![(0, 0), (-1, 0), (-1, 1), (0, -2), (-1, -2)],
        // 2 -> L (180° to 270° CW)
        (2, 3) => vec![(0, 0), (1, 0), (1, 1), (0, -2), (1, -2)],
        // L -> 2 (270° CW to 180°)
        (3, 2) => vec![(0, 0), (-1, 0), (-1, -1), (0, 2), (-1, 2)],
        // L -> 0 (270° CW to 0°)
        (3, 0) => vec![(0, 0), (-1, 0), (-1, -1), (0, 2), (-1, 2)],
        // 0 -> L (0° to 270° CW)
        (0, 3) => vec![(0, 0), (1, 0), (1, 1), (0, -2), (1, -2)],
        _ => vec![(0, 0)],  // Fallback to basic rotation only
    }
}

/// Wall kick offsets for I-piece (special SRS table)
pub fn get_i_piece_kicks(from_state: RotationState, to_state: RotationState) -> (kicks: Vec<
    KickOffset,
>)
    ensures
        kicks@ == i_piece_kicks(from_state, to_state),
{
    match (from_state, to_state) {
        // 0 -> R (0° to 90° CW)
        (0, 1) => vec![(0, 0), (-2, 0), (1, 0), (-2, -1), (1, 2)],
        // R -> 0 (90° CW to 0°)
        (1, 0) => vec![(0, 0), (2, 0), (-1, 0), (2, 1), (-1, -2)],
        // R -> 2 (90° CW to 180°)
        (1, 2) => vec![(0, 0), (-1, 0), (2, 0), (-1, 2), (2, -1)],
        // 2 -> R (180° to 90° CW)
        (2, 1) => vec![(0, 0), (1, 0), (-2, 0), (1, -2), (-2, 1)],
        // 2 -> L (180° to 270° CW)
        (2, 3) => vec![(0, 0), (2, 0), (-1, 0), (2, 1), (-1, -2)],
        // L -> 2 (270° CW to 180°)
        (3, 2) => vec![(0, 0), (-2, 0), (1, 0), (-2, -1), (1, 2)],
        // L -> 0 (270° CW to 0°)
        (3, 0) => vec![(0, 0), (1, 0), (-2, 0), (1, -2), (-2, 1)],
        // 0 -> L (0° to 270° CW)
        (0, 3) => vec![(0, 0), (-1, 0), (2, 0), (-1, 2), (2, -1)],
        _ => vec![(0, 0)],  // Fallback to basic rotation only
    }
}

/// Every table starts with the plain rotation (no offset), holds at most five
/// kicks, and moves a piece by at most two cells; the O-piece has no table.
pub proof fn lemma_wall_kicks_shape(
    piece_type: TetrominoType,
    from_state: RotationState,
    to_state: RotationState,
)
    ensures
        kicks_small(wall_kicks(piece_type, from_state, to_state)),
        wall_kicks(piece_type, from_state, to_state).len() <= 5,
        piece_type == TetrominoType::O <==> wall_kicks(piece_type, from_state, to_state).len()
            == 0,
        piece_type != TetrominoType::O ==> wall_kicks(piece_type, from_state, to_state)[0] == (
            0i32,
            0i32,
        ),
{
}

/// A quarter turn and the quarter turn back use opposite kicks, entry by
/// entry.
pub proof fn lemma_kicks_reverse(piece_type: TetrominoType, from_state: RotationState)
    requires
        piece_type != TetrominoType::O,
        from_state < 4,
    ensures
        ({
            let to_state = ((from_state + 1) % 4) as u8;
            let there = wall_kicks(piece_type, from_state, to_state);
            let back = wall_kicks(piece_type, to_state, from_state);
            there.len() == 5 && back.len() == 5 && forall|i: int|
                0 <= i < 5 ==> #[trigger] there[i].0 == -back[i].0 && there[i].1 == -back[i].1
        }),
{
}

/// A rotation state seen in a mirror: right and left swap, spawn and the
/// half turn stay.
pub open spec fn mirrored_state(r: RotationState) -> RotationState {
    ((4 - r % 4) % 4) as u8
}

/// The J, L, S, T and Z kicks are left-right symmetric: a quarter turn one
/// way and its mirror image the other way (0 -> R and 0 -> L, R -> 0 and
/// L -> 0, 2 -> R and 2 -> L, R -> 2 and L -> 2) try the same kicks in the
/// same order, each with its column offset negated.
pub proof fn law_jlstz_kicks_mirror(from_state: RotationState, clockwise: bool)
    requires
        from_state < 4,
    ensures
        ({
            let to_state = if clockwise {
                ((from_state + 1) % 4) as u8
            } else {
                ((from_state + 3) % 4) as u8
            };
            let kicks = jlstz_kicks(from_state, to_state);
            let mirrored = jlstz_kicks(mirrored_state(from_state), mirrored_state(to_state));
            &&& kicks.len() == 5
            &&& mirrored.len() == 5
            &&& forall|i: int|
                0 <= i < 5 ==> #[trigger] mirrored[i].0 == -kicks[i].0 && mirrored[i].1
                    == kicks[i].1
        }),
{
}

/// The offsets of the J, L, S, T and Z pieces in a rotation state, in the
/// Super Rotation System's offset form: none in the spawn and the half-turn
/// states, the kicks of R -> 0 in state R, and their mirror image in state L.
pub open spec fn jlstz_state_offset(state: RotationState, i: int) -> (int, int) {
    let r = jlstz_kicks(1, 0)[i];
    if state == 1 {
        (r.0 as int, r.1 as int)
    } else if state == 3 {
        (-r.0 as int, r.1 as int)
    } else {
        (0, 0)
    }
}

/// Every J, L, S, T and Z kick is the difference of the two states'
/// offsets: kick i of a -> b is offset i of a minus offset i of b. So the
/// whole table follows from the kicks of R -> 0, which try one column right
/// first, as the Super Rotation System has it (and so 0 -> R tries one
/// column left, and 0 -> L one column right).
pub proof fn law_jlstz_kicks_from_offsets(from_state: RotationState, clockwise: bool)
    requires
        from_state < 4,
    ensures
        ({
            let to_state = if clockwise {
                ((from_state + 1) % 4) as u8
            } else {
                ((from_state + 3) % 4) as u8
            };
            let kicks = jlstz_kicks(from_state, to_state);
            &&& kicks.len() == 5
            &&& forall|i: int|
                0 <= i < 5 ==> (#[trigger] kicks[i].0 as int, kicks[i].1 as int) == (
                    jlstz_state_offset(from_state, i).0 - jlstz_state_offset(to_state, i).0,
                    jlstz_state_offset(from_state, i).1 - jlstz_state_offset(to_state, i).1,
                )
        }),
        jlstz_kicks(1, 0)[1] == (1i32, 0i32),
        jlstz_kicks(0, 1)[1] == (-1i32, 0i32),
        jlstz_kicks(0, 3)[1] == (1i32, 0i32),
{
}

} // verus!
