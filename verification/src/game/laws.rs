//! Properties of the game rules that span several operations or hold of
//! every state, stated over the model the operations are specified by.

use vstd::prelude::*;

use super::model::{
    drop_interval_for,
    fall_distance,
    hold_succeeds,
    level_for,
    line_points,
    m_clear_rows,
    m_hold,
    m_move,
    m_reset_lock_delay,
    m_rotate,
    m_spawn,
    m_update,
    move_succeeds,
    piece_fits,
    rotate_succeeds,
    GameView,
};
use super::state::lemma_fitting_piece_on_board;
use crate::board::Cell;
use crate::tetromino::data::{lemma_shape_has_center, shape};
use crate::tetromino::types::{ccw, coord_in_range, cw, piece_wf, shifted, turned, PieceView};
use crate::tetromino::TetrominoType;

verus! {

/// Hold works once per piece: after any hold, a second hold cannot succeed
/// and leaves the game as it is.
pub proof fn law_hold_once_per_piece(v: GameView, drawn: TetrominoType, drawn_again: TetrominoType)
    ensures
        !hold_succeeds(m_hold(v, drawn)),
        m_hold(m_hold(v, drawn), drawn_again) == m_hold(v, drawn),
{
    reveal(m_hold);
    reveal(m_reset_lock_delay);
}

/// A new piece makes hold available again.
pub proof fn law_spawn_frees_hold(v: GameView, drawn: TetrominoType)
    ensures
        !m_spawn(v, drawn).hold_used,
{
}

/// A side move that succeeded (by a distance that `Game::move_piece` accepts)
/// can be undone by the opposite move, which then succeeds and brings the
/// piece back where it was.
pub proof fn law_side_move_undone(v: GameView, dx: int)
    requires
        v.current matches Some(p) && piece_wf(p) && piece_fits(v.rows, p) && coord_in_range(
            p.position.0 + dx,
        ),
        move_succeeds(v, dx, 0),
    ensures
        move_succeeds(m_move(v, dx, 0), -dx, 0),
        m_move(m_move(v, dx, 0), -dx, 0).current == v.current,
{
    reveal(m_reset_lock_delay);
    let p = v.current->0;
    let q = shifted(p, dx, 0);
    lemma_fitting_piece_on_board(v.rows, q);
    lemma_fitting_piece_on_board(v.rows, p);
    assert(shifted(q, -dx, 0) == p);
}

/// A clockwise turn that succeeded is undone by a counterclockwise turn,
/// which then succeeds and gives back the piece as it was.
pub proof fn law_turn_undone(v: GameView)
    requires
        v.current matches Some(p) && p.blocks == shape(p.piece_type, p.rotation) && p.rotation < 4
            && piece_fits(v.rows, p),
        rotate_succeeds(v, true),
    ensures
        rotate_succeeds(m_rotate(v, true), false),
        m_rotate(m_rotate(v, true), false).current == v.current,
{
    reveal(m_reset_lock_delay);
    let p = v.current->0;
    let q = turned(p, cw(p.rotation));
    assert(ccw(cw(p.rotation)) == p.rotation);
    assert(turned(q, ccw(q.rotation)) == p);
}

/// The spot where a piece lands (the ghost piece, and where a hard drop puts
/// it) is the lowest it can reach: it fits there, and one row lower it does
/// not.
pub proof fn law_landing_spot(rows: Seq<Seq<Cell>>, p: PieceView)
    requires
        piece_wf(p),
        p.position.1 <= 23,
        piece_fits(rows, p),
    ensures
        piece_fits(rows, shifted(p, 0, fall_distance(rows, p) as int)),
        !piece_fits(rows, shifted(p, 0, fall_distance(rows, p) as int + 1)),
    decreases 25 - p.position.1,
{
    let q = shifted(p, 0, 1);
    if piece_fits(rows, q) {
        lemma_fitting_piece_on_board(rows, q);
        law_landing_spot(rows, q);
        let d = fall_distance(rows, q) as int;
        assert(shifted(q, 0, d) == shifted(p, 0, d + 1));
        assert(shifted(q, 0, d + 1) == shifted(p, 0, d + 2));
    } else {
        assert(shifted(p, 0, 0) == p);
    }
}

/// Time passing never lowers the score or the count of cleared lines.
pub proof fn law_update_keeps_score_and_lines(v: GameView, d: int, drawn: TetrominoType)
    requires
        v.lines_cleared >= 0,
    ensures
        m_update(v, d, drawn).score >= v.score,
        m_update(v, d, drawn).lines_cleared >= v.lines_cleared,
{
    reveal(m_reset_lock_delay);
    let n = v.clearing_lines.len() as int;
    assert(line_points(n) >= 0);
    assert(level_for(v.lines_cleared + n) >= 1);
    assert(line_points(n) * level_for(v.lines_cleared + n) >= 0) by (nonlinear_arith)
        requires
            line_points(n) >= 0,
            level_for(v.lines_cleared + n) >= 1,
    ;
}

/// A ghost block is earned for every fourth line cleared: clearing rows
/// keeps the blocks available, less a quarter of the lines cleared (rounded
/// down), as it was.
pub proof fn law_ghost_blocks_follow_lines(v: GameView)
    ensures
        m_clear_rows(v).ghost_available - m_clear_rows(v).lines_cleared / 4 == v.ghost_available
            - v.lines_cleared / 4,
{
}

/// The game speeds up as the level rises (levels start at 1): the time
/// between automatic drops never grows with the level, it shrinks strictly
/// with every level up from a level of at most 15, and it is never shorter
/// than 80 ms.
pub proof fn law_drop_interval_speeds_up(level: int, higher: int)
    requires
        1 <= level <= higher,
    ensures
        drop_interval_for(higher) <= drop_interval_for(level),
        level < higher && level <= 15 ==> drop_interval_for(higher) < drop_interval_for(level),
        drop_interval_for(higher) >= 80_000,
{
}

} // verus!
