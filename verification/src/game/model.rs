//! The game rules as functions on a mathematical view of the game.
//!
//! Every operation of `Game` is stated as one of these functions: the view of
//! the game after the operation is the function applied to the view before.
//! Where an operation draws a new "next piece" at random, the drawn piece is
//! a parameter.

use vstd::prelude::*;

use super::config::{
    GHOST_THROW_ANIMATION_TIME,
    HORIZONTAL_MOVE_INTERVAL,
    LINE_CLEAR_ANIMATION_TIME,
    LOCK_DELAY,
    MAX_LOCK_RESETS,
    MAX_PIECE_LIFETIME,
    SOFT_DROP_INTERVAL,
    TETRIS_CELEBRATION_TIME,
};
use super::state::GameState;
use crate::board::{
    count_filled_row,
    full_lines,
    rows_after_clear,
    rows_fit,
    rows_game_over,
    set_rows,
    Cell,
};
use crate::graphics::colors::{spec_tetromino_color, BlockColor, GHOST_BLOCK_COLOR};
use crate::tetromino::types::{cells_at, ccw, cw, shifted, spawn_view, turned, PieceView};
use crate::tetromino::TetrominoType;

verus! {

/// The whole state of a game, as the rules see it. Durations are in
/// microseconds.
pub struct GameView {
    pub state: GameState,
    pub rows: Seq<Seq<Cell>>,
    pub lines_cleared: int,
    pub current: Option<PieceView>,
    pub next_piece: TetrominoType,
    pub held_piece: Option<TetrominoType>,
    pub hold_used: bool,
    pub score: int,
    pub drop_timer: int,
    pub drop_interval: int,
    pub game_time: int,
    pub clearing_lines: Seq<usize>,
    pub clear_timer: int,
    pub soft_timer: int,
    pub left_timer: int,
    pub right_timer: int,
    pub ghost_available: int,
    pub ghost_mode: bool,
    pub ghost_cursor: (i32, i32),
    pub blink_timer: int,
    pub smart_positions: Seq<(i32, i32, u32)>,
    pub cursor_index: int,
    pub just_locked: bool,
    pub lock_timer: int,
    pub locking: bool,
    pub lock_resets: int,
    pub lifetime: int,
    pub celebration_active: bool,
    pub celebration_timer: int,
    pub throw_active: bool,
    pub throw_timer: int,
    pub throw_target: (i32, i32),
    pub legacy: bool,
    pub last_rotation: bool,
}

/// A timer advanced by `d`, stopping at the largest `u64`.
pub open spec fn sat_add(t: int, d: int) -> int {
    if t + d > u64::MAX {
        u64::MAX as int
    } else {
        t + d
    }
}

/// The level reached after a number of cleared lines.
pub open spec fn level_for(lines: int) -> int {
    lines / 10 + 1
}

/// Time between automatic drops at a level.
pub open spec fn drop_interval_for(level: int) -> int {
    if level == 1 {
        1_000_000
    } else if level == 2 {
        850_000
    } else if level == 3 {
        720_000
    } else if level == 4 {
        610_000
    } else if level == 5 {
        520_000
    } else if level == 6 {
        440_000
    } else if level == 7 {
        370_000
    } else if level == 8 {
        310_000
    } else if level == 9 {
        260_000
    } else if level == 10 {
        220_000
    } else if level == 11 {
        190_000
    } else if level == 12 {
        160_000
    } else if level == 13 {
        130_000
    } else if level == 14 {
        110_000
    } else if level == 15 {
        90_000
    } else {
        80_000
    }
}

/// Points for clearing a number of lines at once, before the level multiplier.
pub open spec fn line_points(lines: int) -> int {
    if lines == 1 {
        100
    } else if lines == 2 {
        300
    } else if lines == 3 {
        500
    } else if lines == 4 {
        800
    } else {
        0
    }
}

/// The piece may stand where it is.
pub open spec fn piece_fits(rows: Seq<Seq<Cell>>, p: PieceView) -> bool {
    rows_fit(rows, p.blocks, p.position.0 as int, p.position.1 as int)
}

/// The current piece could move one row down.
pub open spec fn can_fall(v: GameView) -> bool {
    match v.current {
        Some(p) => piece_fits(v.rows, shifted(p, 0, 1)),
        None => false,
    }
}

/// Some cell of the list is (x, y).
pub open spec fn covers(cells: Seq<(int, int)>, x: int, y: int) -> bool {
    exists|i: int| 0 <= i < cells.len() && #[trigger] cells[i] == (x, y)
}

/// The grid with every listed cell that lies on it filled with `color`.
pub open spec fn stamp_rows(rows: Seq<Seq<Cell>>, cells: Seq<(int, int)>, color: BlockColor) -> Seq<
    Seq<Cell>,
> {
    Seq::new(
        rows.len(),
        |y: int|
            Seq::new(
                rows[y].len(),
                |x: int|
                    if covers(cells, x, y) {
                        Cell::Filled(color)
                    } else {
                        rows[y][x]
                    },
            ),
    )
}

/// Stamping no cells leaves the grid as it is.
pub proof fn lemma_stamp_nothing(rows: Seq<Seq<Cell>>, color: BlockColor)
    ensures
        stamp_rows(rows, seq![], color) == rows,
{
    let a = stamp_rows(rows, seq![], color);
    assert forall|y: int| 0 <= y < rows.len() implies #[trigger] a[y] =~= rows[y] by {}
    assert(a =~= rows);
}

/// Stamping one more cell is setting that cell, when it lies on the grid.
pub proof fn lemma_stamp_step(rows: Seq<Seq<Cell>>, cells: Seq<(int, int)>, k: int, color: BlockColor)
    requires
        0 <= k < cells.len(),
        rows.len() == 24,
        forall|y: int| 0 <= y < 24 ==> #[trigger] rows[y].len() == 10,
    ensures
        stamp_rows(rows, cells.take(k + 1), color) == set_rows(
            stamp_rows(rows, cells.take(k), color),
            cells[k].0,
            cells[k].1,
            Cell::Filled(color),
        ),
{
    let a = stamp_rows(rows, cells.take(k + 1), color);
    let prev = stamp_rows(rows, cells.take(k), color);
    let b = set_rows(prev, cells[k].0, cells[k].1, Cell::Filled(color));
    assert forall|y: int| 0 <= y < 24 implies #[trigger] a[y] =~= b[y] by {
        assert forall|x: int| 0 <= x < 10 implies #[trigger] a[y][x] == b[y][x] by {
            if cells[k] == (x, y) {
                assert(cells.take(k + 1)[k] == (x, y));
            } else {
                if covers(cells.take(k + 1), x, y) {
                    let i = choose|i: int|
                        0 <= i < cells.take(k + 1).len() && #[trigger] cells.take(k + 1)[i] == (
                            x,
                            y,
                        );
                    assert(cells.take(k)[i] == (x, y));
                }
                if covers(cells.take(k), x, y) {
                    let i = choose|i: int|
                        0 <= i < cells.take(k).len() && #[trigger] cells.take(k)[i] == (x, y);
                    assert(cells.take(k + 1)[i] == (x, y));
                }
            }
        }
    }
    assert(a =~= b);
}

/// The points and lines of finishing the current clear fit in a `u32`.
pub open spec fn finish_clear_fits(v: GameView) -> bool {
    let n = v.clearing_lines.len() as int;
    &&& v.lines_cleared + n <= u32::MAX
    &&& v.score + line_points(n) * level_for(v.lines_cleared + n) <= u32::MAX
    &&& v.ghost_available + ((v.lines_cleared + n) / 4 - v.lines_cleared / 4) <= u32::MAX
}

/// The points of a hard drop fit in a `u32`.
pub open spec fn hard_drop_fits(v: GameView) -> bool {
    match v.current {
        Some(p) => v.score + 2 * fall_distance(v.rows, p) <= u32::MAX,
        None => true,
    }
}

/// Lock delay is reset: fully when the piece can still fall, once more (up to
/// the limit) when it is grounded, and past the limit the piece is put into
/// its locking state.
#[verifier::opaque]
pub open spec fn m_reset_lock_delay(v: GameView) -> GameView {
    if v.current is Some && can_fall(v) {
        GameView { locking: false, lock_timer: 0, lock_resets: 0, ..v }
    } else if v.lock_resets < MAX_LOCK_RESETS {
        GameView { locking: false, lock_timer: 0, lock_resets: v.lock_resets + 1, ..v }
    } else if !v.locking {
        GameView { locking: true, lock_timer: 0, ..v }
    } else {
        v
    }
}

/// After a move or turn: a piece that can fall has its lock delay reset, a
/// grounded one starts locking if it was not already.
pub open spec fn m_update_lock_state(v: GameView) -> GameView {
    match v.current {
        None => v,
        Some(p) => if piece_fits(v.rows, shifted(p, 0, 1)) {
            m_reset_lock_delay(v)
        } else if !v.locking {
            GameView { locking: true, lock_timer: 0, ..v }
        } else {
            v
        },
    }
}

/// One row down if possible; otherwise the piece starts locking.
pub open spec fn m_drop(v: GameView) -> GameView {
    match v.current {
        None => v,
        Some(p) => if piece_fits(v.rows, shifted(p, 0, 1)) {
            GameView { current: Some(shifted(p, 0, 1)), locking: false, lock_timer: 0, ..v }
        } else if !v.locking {
            GameView { locking: true, lock_timer: 0, ..v }
        } else {
            v
        },
    }
}

/// A move by (dx, dy) where the moved piece fits.
pub open spec fn m_move(v: GameView, dx: int, dy: int) -> GameView {
    match v.current {
        None => v,
        Some(p) => if piece_fits(v.rows, shifted(p, dx, dy)) {
            m_update_lock_state(
                GameView { current: Some(shifted(p, dx, dy)), last_rotation: false, ..v },
            )
        } else {
            v
        },
    }
}

/// A move by (dx, dy) succeeds.
pub open spec fn move_succeeds(v: GameView, dx: int, dy: int) -> bool {
    match v.current {
        None => false,
        Some(p) => piece_fits(v.rows, shifted(p, dx, dy)),
    }
}

/// A turn (clockwise or not) in place, where the turned piece fits.
pub open spec fn m_rotate(v: GameView, clockwise: bool) -> GameView {
    match v.current {
        None => v,
        Some(p) => {
            let q = turned(
                p,
                if clockwise {
                    cw(p.rotation)
                } else {
                    ccw(p.rotation)
                },
            );
            if piece_fits(v.rows, q) {
                m_update_lock_state(GameView { current: Some(q), last_rotation: true, ..v })
            } else {
                v
            }
        },
    }
}

/// A turn in place succeeds.
pub open spec fn rotate_succeeds(v: GameView, clockwise: bool) -> bool {
    match v.current {
        None => false,
        Some(p) => piece_fits(
            v.rows,
            turned(
                p,
                if clockwise {
                    cw(p.rotation)
                } else {
                    ccw(p.rotation)
                },
            ),
        ),
    }
}

/// The next piece enters at the spawn point (or the game ends if it cannot),
/// `drawn` becomes the next piece, and the per-piece state starts afresh.
pub open spec fn m_spawn(v: GameView, drawn: TetrominoType) -> GameView {
    let p = spawn_view(v.next_piece);
    let v1 = GameView {
        next_piece: drawn,
        hold_used: false,
        locking: false,
        lock_timer: 0,
        lock_resets: 0,
        lifetime: 0,
        drop_interval: drop_interval_for(level_for(v.lines_cleared)),
        last_rotation: false,
        ..v
    };
    if piece_fits(v.rows, p) {
        GameView { current: Some(p), ..v1 }
    } else {
        GameView { state: GameState::GameOver, ..v1 }
    }
}

/// The current piece is written into the grid; full rows start their
/// clearing animation, a filled buffer row ends the game, and otherwise the
/// next piece enters.
pub open spec fn m_lock(v: GameView, drawn: TetrominoType) -> GameView {
    match v.current {
        None => v,
        Some(p) => {
            let rows = stamp_rows(
                v.rows,
                cells_at(p.blocks, p.position),
                spec_tetromino_color(p.piece_type),
            );
            let v1 = GameView {
                current: None,
                just_locked: true,
                locking: false,
                lock_timer: 0,
                lock_resets: 0,
                lifetime: 0,
                rows,
                ..v
            };
            let complete = full_lines(rows, 24);
            if complete.len() > 0 {
                GameView { clearing_lines: complete, clear_timer: 0, ..v1 }
            } else if rows_game_over(rows) {
                GameView { state: GameState::GameOver, ..v1 }
            } else {
                m_spawn(v1, drawn)
            }
        },
    }
}

/// Score for a number of cleared lines at the current level.
pub open spec fn m_add_score_for_lines(v: GameView, lines: int) -> GameView {
    GameView { score: v.score + line_points(lines) * level_for(v.lines_cleared), ..v }
}

/// The rows being animated are removed and scored; four at once starts the
/// celebration; every fourth line in total earns a ghost block. Then the game
/// ends if a buffer row is filled, the next piece enters if there is none,
/// and a piece still in play may fall on.
pub open spec fn m_finish_line_clear(v: GameView, drawn: TetrominoType) -> GameView {
    let v1 = m_clear_rows(v);
    if rows_game_over(v1.rows) {
        GameView { state: GameState::GameOver, ..v1 }
    } else if v1.current is None {
        m_spawn(v1, drawn)
    } else {
        GameView { locking: false, lock_timer: 0, ..v1 }
    }
}

/// The rows being animated are removed and scored, with the celebration and
/// ghost blocks they earn; nothing happens when no rows are being animated.
pub open spec fn m_clear_rows(v: GameView) -> GameView {
    if v.clearing_lines.len() > 0 {
        let n = v.clearing_lines.len() as int;
        let lines = v.lines_cleared + n;
        let scored = m_add_score_for_lines(
            GameView {
                rows: rows_after_clear(v.rows, v.clearing_lines),
                lines_cleared: lines,
                ..v
            },
            n,
        );
        GameView {
            celebration_active: if n == 4 {
                true
            } else {
                v.celebration_active
            },
            celebration_timer: if n == 4 {
                0
            } else {
                v.celebration_timer
            },
            ghost_available: v.ghost_available + (lines / 4 - v.lines_cleared / 4),
            clearing_lines: seq![],
            clear_timer: 0,
            ..scored
        }
    } else {
        v
    }
}

/// The number of rows the piece can fall before it is blocked.
pub open spec fn fall_distance(rows: Seq<Seq<Cell>>, p: PieceView) -> nat
    decreases 25 - p.position.1,
{
    if p.position.1 < 25 && piece_fits(rows, shifted(p, 0, 1)) {
        1 + fall_distance(rows, shifted(p, 0, 1))
    } else {
        0
    }
}

/// The piece falls as far as it can, scoring two points per row, and locks.
pub open spec fn m_hard_drop(v: GameView, drawn: TetrominoType) -> GameView {
    match v.current {
        None => v,
        Some(p) => {
            let d = fall_distance(v.rows, p);
            m_lock(GameView { current: Some(shifted(p, 0, d as int)), score: v.score + 2 * d, ..v }, drawn)
        },
    }
}

/// Hold: the current piece goes to the hold slot and the held piece (or, the
/// first time, the next piece) enters at the spawn point; once per piece.
#[verifier::opaque]
pub open spec fn m_hold(v: GameView, drawn: TetrominoType) -> GameView {
    if v.hold_used || v.current is None {
        v
    } else {
        let cur = v.current.unwrap();
        let v1 = GameView { hold_used: true, current: None, held_piece: Some(cur.piece_type), ..v };
        match v.held_piece {
            Some(held) => {
                let p = spawn_view(held);
                if piece_fits(v.rows, p) {
                    m_reset_lock_delay(GameView { current: Some(p), ..v1 })
                } else {
                    GameView { state: GameState::GameOver, ..v1 }
                }
            },
            None => {
                let p = spawn_view(v.next_piece);
                let v2 = GameView { next_piece: drawn, ..v1 };
                if piece_fits(v.rows, p) {
                    m_reset_lock_delay(GameView { current: Some(p), ..v2 })
                } else {
                    GameView { state: GameState::GameOver, ..v2 }
                }
            },
        }
    }
}

/// Hold succeeds.
pub open spec fn hold_succeeds(v: GameView) -> bool {
    !v.hold_used && v.current is Some && piece_fits(
        v.rows,
        spawn_view(
            match v.held_piece {
                Some(held) => held,
                None => v.next_piece,
            },
        ),
    )
}

/// The ghost block flies off: placement mode ends and the current piece gets
/// its lock delay reset.
pub open spec fn m_start_ghost_throw(v: GameView, x: i32, y: i32) -> GameView {
    let v1 = GameView {
        throw_active: true,
        throw_timer: 0,
        throw_target: (x, y),
        ghost_mode: false,
        ..v
    };
    if v1.current is Some {
        m_reset_lock_delay(v1)
    } else {
        v1
    }
}

/// The thrown block lands on its target cell, one ghost block is spent, and
/// rows it completes start their clearing animation.
pub open spec fn m_finish_ghost_throw(v: GameView) -> GameView {
    let rows = set_rows(
        v.rows,
        v.throw_target.0 as int,
        v.throw_target.1 as int,
        Cell::Filled(GHOST_BLOCK_COLOR),
    );
    let complete = full_lines(rows, 24);
    let v1 = GameView { rows, ghost_available: v.ghost_available - 1, ..v };
    let v2 = if complete.len() > 0 {
        GameView { clearing_lines: complete, clear_timer: 0, ..v1 }
    } else {
        v1
    };
    GameView { throw_active: false, throw_timer: 0, ..v2 }
}

/// The row holds at least one filled cell.
pub open spec fn row_has_blocks(rows: Seq<Seq<Cell>>, y: int) -> bool {
    exists|x: int| 0 <= x < 10 && #[trigger] rows[y][x] is Filled
}

/// Empty cells left in a row.
pub open spec fn blocks_needed(rows: Seq<Seq<Cell>>, y: int) -> int {
    10 - count_filled_row(rows[y], 10)
}

/// An empty visible cell in a row that already holds blocks: a target for a
/// ghost block.
pub open spec fn is_candidate(rows: Seq<Seq<Cell>>, x: int, y: int) -> bool {
    &&& 4 <= y < 24
    &&& 0 <= x < 10
    &&& row_has_blocks(rows, y)
    &&& rows[y][x] is Empty
    &&& blocks_needed(rows, y) > 0
}

/// Distance of a column from the centre column (5).
pub open spec fn center_distance(x: int) -> int {
    if x >= 5 {
        x - 5
    } else {
        5 - x
    }
}

/// Target `a` ranks before `b`: fewer blocks needed, then the lower row, then
/// nearer the centre, then further left.
pub open spec fn ranks_before(a: (i32, i32, u32), b: (i32, i32, u32)) -> bool {
    ||| a.2 < b.2
    ||| a.2 == b.2 && a.1 > b.1
    ||| a.2 == b.2 && a.1 == b.1 && center_distance(a.0 as int) < center_distance(b.0 as int)
    ||| a.2 == b.2 && a.1 == b.1 && center_distance(a.0 as int) == center_distance(b.0 as int)
        && a.0 < b.0
}

/// `ps` lists every ghost-block target of the grid once, with the blocks its
/// row still needs, best first.
pub open spec fn ranked_targets(rows: Seq<Seq<Cell>>, ps: Seq<(i32, i32, u32)>) -> bool {
    &&& forall|i: int|
        0 <= i < ps.len() ==> is_candidate(rows, #[trigger] ps[i].0 as int, ps[i].1 as int)
            && ps[i].2 == blocks_needed(rows, ps[i].1 as int)
    &&& forall|x: int, y: int|
        #[trigger] is_candidate(rows, x, y) ==> exists|i: int|
            0 <= i < ps.len() && #[trigger] ps[i].0 == x && ps[i].1 == y
    &&& forall|i: int, j: int| 0 <= i < j < ps.len() ==> ranks_before(ps[i], ps[j])
}

/// The targets are replaced by `ps`, the cursor index goes back to the first
/// and the cursor to the best target, if any.
pub open spec fn m_analyze(v: GameView, ps: Seq<(i32, i32, u32)>) -> GameView {
    GameView {
        smart_positions: ps,
        cursor_index: 0,
        ghost_cursor: if ps.len() > 0 {
            (ps[0].0, ps[0].1)
        } else {
            v.ghost_cursor
        },
        ..v
    }
}

/// Ghost-block mode is switched (when a ghost block is available): on, the
/// targets are ranked and a target that needs one block is fired at at once;
/// off, the targets are dropped.
pub open spec fn m_toggle_ghost_block_mode(v: GameView, ps: Seq<(i32, i32, u32)>) -> GameView {
    if v.ghost_available > 0 {
        if !v.ghost_mode {
            let v1 = GameView { blink_timer: 0, ..m_analyze(GameView { ghost_mode: true, ..v }, ps) };
            if ps.len() > 0 && ps[0].2 == 1 {
                m_start_ghost_throw(v1, ps[0].0, ps[0].1)
            } else {
                v1
            }
        } else {
            GameView { ghost_mode: false, smart_positions: seq![], cursor_index: 0, ..v }
        }
    } else {
        v
    }
}

/// Transitive: the ranking is a strict order.
pub proof fn lemma_ranks_before_transitive(
    a: (i32, i32, u32),
    b: (i32, i32, u32),
    c: (i32, i32, u32),
)
    requires
        ranks_before(a, b),
        ranks_before(b, c),
    ensures
        ranks_before(a, c),
{
}

/// Two targets at different cells are ranked one way or the other, when the
/// blocks needed depend on the row alone.
pub proof fn lemma_ranks_before_total(a: (i32, i32, u32), b: (i32, i32, u32))
    requires
        a.0 != b.0 || a.1 != b.1,
        a.1 == b.1 ==> a.2 == b.2,
    ensures
        ranks_before(a, b) || ranks_before(b, a),
{
}

/// A target of one ranked list is found in any other ranked list of the same
/// grid.
pub proof fn lemma_ranked_member(
    rows: Seq<Seq<Cell>>,
    a: Seq<(i32, i32, u32)>,
    b: Seq<(i32, i32, u32)>,
    i: int,
) -> (j: int)
    requires
        ranked_targets(rows, a),
        ranked_targets(rows, b),
        0 <= i < a.len(),
    ensures
        0 <= j < b.len(),
        b[j] == a[i],
{
    assert(is_candidate(rows, a[i].0 as int, a[i].1 as int));
    let j = choose|j: int| 0 <= j < b.len() && #[trigger] b[j].0 == a[i].0 && b[j].1 == a[i].1;
    assert(is_candidate(rows, b[j].0 as int, b[j].1 as int));
    j
}

/// The entry at `i` of two ranked lists of the same grid is the same, when
/// all before it are.
pub proof fn lemma_ranked_step(
    rows: Seq<Seq<Cell>>,
    a: Seq<(i32, i32, u32)>,
    b: Seq<(i32, i32, u32)>,
    i: int,
)
    requires
        ranked_targets(rows, a),
        ranked_targets(rows, b),
        0 <= i < a.len(),
        i < b.len(),
        forall|k: int| 0 <= k < i ==> a[k] == b[k],
    ensures
        a[i] == b[i],
{
    let j = lemma_ranked_member(rows, a, b, i);
    let k = lemma_ranked_member(rows, b, a, i);
    if j < i {
        assert(a[j] == b[j]);
        assert(ranks_before(a[j], a[i]));
    } else if k < i {
        assert(a[k] == b[k]);
        assert(ranks_before(b[k], b[i]));
    } else if j > i && k > i {
        assert(ranks_before(b[i], b[j]));
        assert(ranks_before(a[i], a[k]));
        lemma_ranks_before_transitive(a[i], b[i], a[i]);
    }
}

/// The first `i` entries of two ranked lists of the same grid are the same.
pub proof fn lemma_ranked_prefix(
    rows: Seq<Seq<Cell>>,
    a: Seq<(i32, i32, u32)>,
    b: Seq<(i32, i32, u32)>,
    i: int,
)
    requires
        ranked_targets(rows, a),
        ranked_targets(rows, b),
        0 <= i <= a.len(),
        i <= b.len(),
    ensures
        forall|k: int| 0 <= k < i ==> a[k] == b[k],
    decreases i,
{
    if i > 0 {
        lemma_ranked_prefix(rows, a, b, i - 1);
        lemma_ranked_step(rows, a, b, i - 1);
    }
}

/// The ranking of the ghost-block targets is determined by the grid: two
/// lists that both hold every target of the grid once, best first, are the
/// same list.
pub proof fn law_ranked_targets_unique(
    rows: Seq<Seq<Cell>>,
    a: Seq<(i32, i32, u32)>,
    b: Seq<(i32, i32, u32)>,
)
    requires
        ranked_targets(rows, a),
        ranked_targets(rows, b),
    ensures
        a == b,
{
    let n = if a.len() < b.len() {
        a.len() as int
    } else {
        b.len() as int
    };
    lemma_ranked_prefix(rows, a, b, n);
    if a.len() > n {
        let j = lemma_ranked_member(rows, a, b, n);
        assert(a[j] == b[j]);
        assert(ranks_before(a[j], a[n]));
    }
    if b.len() > n {
        let j = lemma_ranked_member(rows, b, a, n);
        assert(a[j] == b[j]);
        assert(ranks_before(b[j], b[n]));
    }
    assert(a =~= b);
}

/// The index of the first target at (x, y), if there is one.
pub open spec fn target_index(ps: Seq<(i32, i32, u32)>, x: i32, y: i32) -> Option<int> {
    if exists|i: int| 0 <= i < ps.len() && ps[i].0 == x && ps[i].1 == y {
        Some(
            choose|i: int|
                0 <= i < ps.len() && ps[i].0 == x && ps[i].1 == y && forall|j: int|
                    0 <= j < i ==> !(ps[j].0 == x && ps[j].1 == y),
        )
    } else {
        None
    }
}

/// Cursor to the next target (cycling), in placement mode.
pub open spec fn m_next_smart_position(v: GameView) -> GameView {
    if v.ghost_mode && v.smart_positions.len() > 0 {
        let i = (v.cursor_index + 1) % (v.smart_positions.len() as int);
        GameView {
            cursor_index: i,
            ghost_cursor: (v.smart_positions[i].0, v.smart_positions[i].1),
            ..v
        }
    } else {
        v
    }
}

/// Cursor to the previous target (cycling), in placement mode.
pub open spec fn m_previous_smart_position(v: GameView) -> GameView {
    if v.ghost_mode && v.smart_positions.len() > 0 {
        let i = if v.cursor_index == 0 {
            v.smart_positions.len() - 1
        } else {
            v.cursor_index - 1
        };
        GameView {
            cursor_index: i,
            ghost_cursor: (v.smart_positions[i].0, v.smart_positions[i].1),
            ..v
        }
    } else {
        v
    }
}

/// `v` held between `lo` and `hi`.
pub open spec fn clamp(v: int, lo: int, hi: int) -> int {
    if v < lo {
        lo
    } else if v > hi {
        hi
    } else {
        v
    }
}

/// The cursor moved by (dx, dy) within the visible grid; the index follows it
/// onto a target it lands on.
pub open spec fn m_move_ghost_block_cursor(v: GameView, dx: int, dy: int) -> GameView {
    if v.ghost_mode {
        let x = clamp(v.ghost_cursor.0 + dx, 0, 9) as i32;
        let y = clamp(v.ghost_cursor.1 + dy, 4, 23) as i32;
        GameView {
            ghost_cursor: (x, y),
            cursor_index: match target_index(v.smart_positions, x, y) {
                Some(i) => i,
                None => v.cursor_index,
            },
            ..v
        }
    } else {
        v
    }
}

/// A ghost block can be thrown at the cursor: placement mode, one available,
/// none in flight, and the cursor on an empty cell.
pub open spec fn can_place_ghost_block(v: GameView) -> bool {
    &&& v.ghost_mode
    &&& v.ghost_available > 0
    &&& !v.throw_active
    &&& crate::board::in_bounds(v.ghost_cursor.0 as int, v.ghost_cursor.1 as int)
    &&& v.rows[v.ghost_cursor.1 as int][v.ghost_cursor.0 as int] is Empty
}

/// The state of a new game: an empty grid, level 1, nothing held, every
/// counter and timer at zero, the cursor mid-board.
pub open spec fn initial_view(next_piece: TetrominoType) -> GameView {
    GameView {
        state: GameState::Playing,
        rows: crate::board::empty_rows(24),
        lines_cleared: 0,
        current: None,
        next_piece,
        held_piece: None,
        hold_used: false,
        score: 0,
        drop_timer: 0,
        drop_interval: 1_000_000,
        game_time: 0,
        clearing_lines: seq![],
        clear_timer: 0,
        soft_timer: 0,
        left_timer: 0,
        right_timer: 0,
        ghost_available: 0,
        ghost_mode: false,
        ghost_cursor: (5i32, 14i32),
        blink_timer: 0,
        smart_positions: seq![],
        cursor_index: 0,
        just_locked: false,
        lock_timer: 0,
        locking: false,
        lock_resets: 0,
        lifetime: 0,
        celebration_active: false,
        celebration_timer: 0,
        throw_active: false,
        throw_timer: 0,
        throw_target: (0i32, 0i32),
        legacy: false,
        last_rotation: false,
    }
}

/// Every piece fits at the spawn point of an empty grid.
pub proof fn lemma_spawn_fits_empty(t: TetrominoType)
    ensures
        piece_fits(crate::board::empty_rows(24), spawn_view(t)),
{
    reveal(rows_fit);
    crate::tetromino::data::lemma_shape_four_blocks(t, 0);
    let rows = crate::board::empty_rows(24);
    let blocks = spawn_view(t).blocks;
    assert(crate::tetromino::data::offsets_small(blocks));
    assert forall|i: int| 0 <= i < blocks.len() implies crate::board::rows_valid(
        rows,
        4 + #[trigger] blocks[i].0,
        2 + blocks[i].1,
    ) by {
        let x = 4 + blocks[i].0;
        let y = 2 + blocks[i].1;
        assert(-1 <= blocks[i].0 <= 2 && -1 <= blocks[i].1 <= 2);
        assert(rows[y] == crate::board::empty_row());
        assert(rows[y][x] is Empty);
    }
}

/// A control held down repeats once its interval has passed; released, it is
/// ready to act at once on the next press.
pub open spec fn m_soft_drop(v: GameView, is_held: bool) -> GameView {
    let v1 = if is_held && v.soft_timer >= SOFT_DROP_INTERVAL && move_succeeds(v, 0, 1) {
        GameView { score: v.score + 1, soft_timer: 0, ..m_move(v, 0, 1) }
    } else {
        v
    };
    if !is_held {
        GameView { soft_timer: SOFT_DROP_INTERVAL as int, ..v1 }
    } else {
        v1
    }
}

/// Held left: a move one column left every interval.
pub open spec fn m_left(v: GameView, is_held: bool) -> GameView {
    if is_held && v.left_timer >= HORIZONTAL_MOVE_INTERVAL {
        GameView { left_timer: 0, ..m_move(v, -1, 0) }
    } else if !is_held {
        GameView { left_timer: HORIZONTAL_MOVE_INTERVAL as int, ..v }
    } else {
        v
    }
}

/// Held right: a move one column right every interval.
pub open spec fn m_right(v: GameView, is_held: bool) -> GameView {
    if is_held && v.right_timer >= HORIZONTAL_MOVE_INTERVAL {
        GameView { right_timer: 0, ..m_move(v, 1, 0) }
    } else if !is_held {
        GameView { right_timer: HORIZONTAL_MOVE_INTERVAL as int, ..v }
    } else {
        v
    }
}

/// The automatic drop, once the drop timer has run out.
pub open spec fn m_drop_tick(v: GameView) -> GameView {
    if v.drop_timer >= v.drop_interval {
        GameView { drop_timer: 0, ..m_drop(v) }
    } else {
        v
    }
}

/// The timers run for `d` while no rows are being cleared: the piece's
/// lifetime counts while there is one, and the celebration and the ghost-block
/// flight end when their time is up.
pub open spec fn m_tick(v: GameView, d: int) -> GameView {
    let v2 = GameView {
        drop_timer: sat_add(v.drop_timer, d),
        soft_timer: sat_add(v.soft_timer, d),
        left_timer: sat_add(v.left_timer, d),
        right_timer: sat_add(v.right_timer, d),
        blink_timer: sat_add(v.blink_timer, d),
        lifetime: if v.current is Some {
            sat_add(v.lifetime, d)
        } else {
            v.lifetime
        },
        ..v
    };
    let v3 = if v2.celebration_active {
        let t = sat_add(v2.celebration_timer, d);
        if t >= TETRIS_CELEBRATION_TIME {
            GameView { celebration_active: false, celebration_timer: 0, ..v2 }
        } else {
            GameView { celebration_timer: t, ..v2 }
        }
    } else {
        v2
    };
    if v3.throw_active {
        let t = sat_add(v3.throw_timer, d);
        if t >= GHOST_THROW_ANIMATION_TIME {
            m_finish_ghost_throw(GameView { throw_timer: t, ..v3 })
        } else {
            GameView { throw_timer: t, ..v3 }
        }
    } else {
        v3
    }
}

/// After the timers ran: a piece past its lifetime or its lock delay locks,
/// otherwise the drop timer may drop it.
pub open spec fn m_settle(v: GameView, d: int, drawn: TetrominoType) -> GameView {
    if v.lifetime >= MAX_PIECE_LIFETIME {
        m_lock(v, drawn)
    } else if v.locking {
        let t = sat_add(v.lock_timer, d);
        let v1 = GameView { lock_timer: t, ..v };
        if t >= LOCK_DELAY {
            m_lock(v1, drawn)
        } else {
            m_drop_tick(v1)
        }
    } else {
        m_drop_tick(v)
    }
}

/// Time passes by `d` microseconds while playing: the line-clear animation
/// runs alone until it ends; otherwise the timers run and the piece settles.
pub open spec fn m_update(v: GameView, d: int, drawn: TetrominoType) -> GameView {
    if v.state != GameState::Playing {
        v
    } else {
        let v1 = GameView { just_locked: false, game_time: sat_add(v.game_time, d), ..v };
        if v1.clearing_lines.len() > 0 {
            let t = sat_add(v1.clear_timer, d);
            let v2 = GameView { clear_timer: t, ..v1 };
            if t >= LINE_CLEAR_ANIMATION_TIME {
                m_finish_line_clear(v2, drawn)
            } else {
                v2
            }
        } else {
            m_settle(m_tick(v1, d), d, drawn)
        }
    }
}

} // verus!
