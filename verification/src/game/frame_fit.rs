//! Whether the keys of a frame keep the score within a `u32`, checked before
//! they are applied.

use vstd::prelude::*;

use super::controls::{
    controls_fit,
    controls_outcome,
    enters_placement,
    handle_controls,
    m_ghost_controls,
    m_turns,
    play_controls_fit,
    reaches_play_keys,
    requested_action,
    ControlResponse,
    KeyInput,
};
use super::model::{
    fall_distance,
    m_left,
    m_move,
    m_reset_lock_delay,
    m_right,
    piece_fits,
    ranked_targets,
    GameView,
};
use super::state::Game;
use crate::board::Cell;
use crate::tetromino::data::{lemma_shape_has_center, shape};
use crate::tetromino::types::{shifted, PieceView};
use crate::tetromino::TetrominoType;

verus! {

/// The falling piece, if any, has the shape of its type and rotation state
/// and stands no lower than the bottom row.
pub open spec fn piece_shaped(v: GameView) -> bool {
    v.current matches Some(p) ==> p.blocks == shape(p.piece_type, p.rotation) && p.position.1
        <= 23
}

/// The keys of a frame can add points: a soft drop or a hard drop.
pub open spec fn keys_can_score(k: KeyInput) -> bool {
    k.soft_drop_held || k.hard_drop
}

/// The most points the keys of one frame can add to the game: a soft-drop
/// point, and two points for each row between the falling piece and the
/// bottom row (none without a falling piece).
pub open spec fn frame_points_bound(v: GameView) -> int {
    match v.current {
        None => 0,
        Some(p) => 1 + 2 * if p.position.1 < 23 {
            23 - p.position.1
        } else {
            0
        },
    }
}

/// A piece that fits stands no lower than the bottom row, since it holds its
/// centre block.
proof fn lemma_fitting_row(rows: Seq<Seq<Cell>>, p: PieceView)
    requires
        piece_fits(rows, p),
        p.blocks == shape(p.piece_type, p.rotation),
    ensures
        p.position.1 <= 23,
{
    reveal(crate::board::rows_fit);
    lemma_shape_has_center(p.piece_type, p.rotation);
    let i = choose|i: int|
        0 <= i < shape(p.piece_type, p.rotation).len() && #[trigger] shape(
            p.piece_type,
            p.rotation,
        )[i] == (0i32, 0i32);
    assert(p.blocks[i] == (0i32, 0i32));
    assert(crate::board::rows_valid(rows, p.position.0 + p.blocks[i].0, p.position.1 + p.blocks[i].1));
}

/// A piece that falls at all lands no lower than the bottom row.
proof fn lemma_landing_row(rows: Seq<Seq<Cell>>, p: PieceView)
    requires
        p.blocks == shape(p.piece_type, p.rotation),
    ensures
        fall_distance(rows, p) == 0 || p.position.1 + fall_distance(rows, p) <= 23,
    decreases 25 - p.position.1,
{
    let q = shifted(p, 0, 1);
    if p.position.1 < 25 && piece_fits(rows, q) {
        lemma_landing_row(rows, q);
        lemma_fitting_row(rows, q);
    }
}

/// A move keeps the score and the piece's shape, and moves it down by `dy`
/// at most.
proof fn lemma_move_keeps(v: GameView, dx: int, dy: int)
    requires
        piece_shaped(v),
        0 <= dy <= 1,
    ensures
        m_move(v, dx, dy).score == v.score,
        piece_shaped(m_move(v, dx, dy)),
        (v.current is None) == (m_move(v, dx, dy).current is None),
        v.current matches Some(p) ==> p.position.1 <= m_move(v, dx, dy).current->0.position.1,
{
    reveal(m_reset_lock_delay);
    if let Some(p) = v.current {
        let q = shifted(p, dx, dy);
        if piece_fits(v.rows, q) {
            lemma_fitting_row(v.rows, q);
        }
    }
}

/// The B key and the placement-mode keys keep the score and the falling
/// piece.
proof fn lemma_ghost_controls_keep(v: GameView, k: KeyInput, ps: Seq<(i32, i32, u32)>)
    ensures
        m_ghost_controls(v, k, ps).score == v.score,
        m_ghost_controls(v, k, ps).current == v.current,
{
    reveal(m_reset_lock_delay);
}

/// Side moves keep the score; turns keep the score and the row of the
/// piece; the soft drop adds at most a point and moves the piece down.
proof fn lemma_play_moves_score(v: GameView, k: KeyInput)
    requires
        piece_shaped(v),
    ensures
        m_right(m_left(v, k.left_held), k.right_held).score == v.score,
        piece_shaped(m_turns(v, k)),
        m_turns(v, k).score <= v.score + 1,
        (v.current is None) == (m_turns(v, k).current is None),
        v.current matches Some(p) ==> p.position.1 <= m_turns(v, k).current->0.position.1,
{
    reveal(m_reset_lock_delay);
    lemma_move_keeps(v, -1, 0);
    let v1 = m_left(v, k.left_held);
    lemma_move_keeps(v1, 1, 0);
    let v2 = m_right(v1, k.right_held);
    lemma_move_keeps(v2, 0, 1);
}

/// Keys that cannot score always keep the score within a `u32`; keys that
/// can do so while the score leaves room for `frame_points_bound`.
pub proof fn lemma_controls_fit(v: GameView, k: KeyInput)
    requires
        piece_shaped(v),
        !keys_can_score(k) || v.score + frame_points_bound(v) <= u32::MAX,
    ensures
        controls_fit(v, k),
{
    assert forall|ps: Seq<(i32, i32, u32)>|
        (enters_placement(v, k) ==> ranked_targets(v.rows, ps)) implies #[trigger] play_controls_fit(
        m_ghost_controls(v, k, ps),
        k,
    ) by {
        let g = m_ghost_controls(v, k, ps);
        lemma_ghost_controls_keep(v, k, ps);
        lemma_play_moves_score(g, k);
        let t = m_turns(g, k);
        if let Some(p) = t.current {
            lemma_landing_row(t.rows, p);
        }
    }
}

/// Whether the keys of a frame certainly keep the score within a `u32`:
/// always when they cannot score, and otherwise when the score leaves room
/// for the most points they can add.
pub fn controls_fit_now(game: &Game, keys: &KeyInput) -> (ok: bool)
    requires
        game.wf(),
    ensures
        ok == (!keys_can_score(*keys) || game@.score + frame_points_bound(game@) <= u32::MAX),
        ok ==> controls_fit(game@, *keys),
{
    let ok = if !(keys.soft_drop_held || keys.hard_drop) {
        true
    } else {
        match &game.current_piece {
            None => true,
            Some(piece) => {
                let y = piece.position.1 as i64;
                let rows: i64 = if y < 23 {
                    23 - y
                } else {
                    0
                };
                (game.score as i64) + 1 + 2 * rows <= u32::MAX as i64
            },
        }
    };
    proof {
        if ok {
            lemma_controls_fit(game@, *keys);
        }
    }
    ok
}

/// The keys of a frame, when `controls_fit_now` holds; otherwise nothing is
/// done and `None` comes back.
pub fn try_handle_controls(game: &mut Game, keys: &KeyInput) -> (response: Option<ControlResponse>)
    requires
        old(game).wf(),
    ensures
        final(game).wf(),
        response is None <==> !(!keys_can_score(*keys) || old(game)@.score + frame_points_bound(
            old(game)@,
        ) <= u32::MAX),
        response is None ==> *final(game) == *old(game),
        response matches Some(r) ==> r.action == requested_action(*keys) && exists|
            ps: Seq<(i32, i32, u32)>,
            drawn: TetrominoType,
            drawn_again: TetrominoType,
        |
            (reaches_play_keys(old(game)@, *keys) && enters_placement(old(game)@, *keys)
                ==> ranked_targets(old(game)@.rows, ps)) && (final(game)@, r.sounds@)
                == controls_outcome(old(game)@, *keys, ps, drawn, drawn_again),
{
    if controls_fit_now(game, keys) {
        Some(handle_controls(game, keys))
    } else {
        None
    }
}

} // verus!
