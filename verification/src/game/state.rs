//! Game state management

use vstd::prelude::*;

use super::config::{
    AUTO_SAVE_INTERVAL,
    BOARD_HEIGHT,
    BOARD_WIDTH,
    BUFFER_HEIGHT,
    GHOST_THROW_ANIMATION_TIME,
    HORIZONTAL_MOVE_INTERVAL,
    LINE_CLEAR_ANIMATION_TIME,
    LOCK_DELAY,
    MAX_LOCK_RESETS,
    MAX_PIECE_LIFETIME,
    SCORE_DOUBLE_LINE,
    SCORE_HARD_DROP,
    SCORE_SINGLE_LINE,
    SCORE_SOFT_DROP,
    SCORE_TETRIS,
    SCORE_TRIPLE_LINE,
    SOFT_DROP_INTERVAL,
    TETRIS_CELEBRATION_TIME,
    VISIBLE_HEIGHT,
};
use super::model::{
    lemma_spawn_fits_empty,
    blocks_needed,
    can_fall,
    drop_interval_for,
    fall_distance,
    finish_clear_fits,
    hard_drop_fits,
    lemma_stamp_nothing,
    lemma_stamp_step,
    hold_succeeds,
    is_candidate,
    level_for,
    line_points,
    m_add_score_for_lines,
    m_analyze,
    m_clear_rows,
    m_drop,
    m_drop_tick,
    m_finish_ghost_throw,
    m_finish_line_clear,
    m_hard_drop,
    m_hold,
    m_left,
    m_lock,
    m_move,
    m_reset_lock_delay,
    m_right,
    m_rotate,
    m_soft_drop,
    m_spawn,
    m_start_ghost_throw,
    m_toggle_ghost_block_mode,
    m_next_smart_position,
    m_previous_smart_position,
    m_move_ghost_block_cursor,
    can_place_ghost_block,
    clamp,
    target_index,
    initial_view,
    row_has_blocks,
    center_distance,
    lemma_ranks_before_transitive,
    lemma_ranks_before_total,
    m_settle,
    m_tick,
    m_update,
    m_update_lock_state,
    move_succeeds,
    piece_fits,
    ranked_targets,
    ranks_before,
    rotate_succeeds,
    sat_add,
    stamp_rows,
    GameView,
};
use crate::board::{rows_fit, Board, Cell};
use crate::graphics::colors::GHOST_BLOCK_COLOR;
use crate::rotation::srs::{count_occupied_corners, three_corner_t};
use crate::tetromino::data::{lemma_shape_four_blocks, lemma_shape_has_center, shape};
use crate::tetromino::types::{
    cells_at,
    coord_in_range,
    lemma_wf_cells_fit,
    piece_wf,
    shifted,
    spawn_view,
    turned,
    PieceView,
};
use crate::tetromino::{Tetromino, TetrominoType};

verus! {

/// Game states
#[derive(Debug, Clone, Copy, PartialEq, Eq, Structural)]
pub enum GameState {
    Menu,
    Playing,
    Paused,
    GameOver,
}

/// Main game struct
///
/// Durations are counted in microseconds.
#[derive(Debug)]
pub struct Game {
    /// Current game state
    pub state: GameState,
    /// The game board
    pub board: Board,
    /// Currently falling piece
    pub current_piece: Option<Tetromino>,
    /// Next piece to spawn
    pub next_piece: TetrominoType,
    /// Held piece (can be swapped with current piece)
    pub held_piece: Option<TetrominoType>,
    /// Whether hold has been used for the current piece (prevents infinite swapping)
    pub hold_used_this_piece: bool,
    /// Current score
    pub score: u32,
    /// Time accumulator for piece dropping
    pub drop_timer: u64,
    /// Time between drops (decreases with level)
    pub drop_interval: u64,
    /// Game time
    pub game_time: u64,
    /// Lines being cleared with animation
    pub clearing_lines: Vec<usize>,
    /// Line clearing animation timer
    pub clear_animation_timer: u64,
    /// Soft drop input timer
    pub soft_drop_timer: u64,
    /// Left movement input timer
    pub left_move_timer: u64,
    /// Right movement input timer
    pub right_move_timer: u64,
    /// Ghost blocks available for placement
    pub ghost_blocks_available: u32,
    /// Ghost block placement mode active
    pub ghost_block_placement_mode: bool,
    /// Ghost block cursor position (x, y)
    pub ghost_block_cursor: (i32, i32),
    /// Ghost block blink timer for animation
    pub ghost_block_blink_timer: u64,
    /// Smart positions sorted by strategic value (best first):
    /// (x, y, blocks_needed_to_complete_line)
    pub ghost_smart_positions: Vec<(i32, i32, u32)>,
    /// Current index in smart positions list
    pub ghost_cursor_index: usize,
    /// Flag to track when a piece was just locked (for audio feedback)
    pub piece_just_locked: bool,
    /// Lock delay timer - tracks how long piece has been unable to move down
    pub lock_delay_timer: u64,
    /// Whether the current piece is in the "locking" state (can't move down)
    pub piece_is_locking: bool,
    /// Number of times lock delay has been reset for current piece
    pub lock_resets: u32,
    /// Total time the current piece has been active (prevents infinite floating)
    pub piece_lifetime_timer: u64,
    /// TETRIS celebration state
    pub tetris_celebration_active: bool,
    /// TETRIS celebration timer for animation
    pub tetris_celebration_timer: u64,
    /// Ghost block throwing animation state
    pub ghost_throw_active: bool,
    /// Ghost block throwing animation timer
    pub ghost_throw_timer: u64,
    /// Target position for ghost block throw
    pub ghost_throw_target: (i32, i32),
    /// Legacy mode flag - when true, renders blocks as ASCII characters like Pajitnov's original
    pub legacy_mode: bool,
    /// Track if the last successful action was a rotation (for T-spin detection)
    pub last_action_was_rotation: bool,
}

/// (x, y) is a cell of the visible part of the grid.
pub open spec fn on_visible_grid(x: int, y: int) -> bool {
    0 <= x < 10 && 4 <= y < 24
}

/// The view of an optional piece.
pub open spec fn piece_option_view(p: Option<Tetromino>) -> Option<PieceView> {
    match p {
        Some(t) => Some(t@),
        None => None,
    }
}

/// Every cell of the piece, moved by (`dx`, `dy`), has coordinates that fit
/// in an `i32`.
pub open spec fn moved_cells_fit(p: Tetromino, dx: int, dy: int) -> bool {
    forall|i: int|
        0 <= i < p.blocks@.len() ==> i32::MIN <= p.position.0 + dx + #[trigger] p.blocks@[i].0
            <= i32::MAX && i32::MIN <= p.position.1 + dy + p.blocks@[i].1 <= i32::MAX
}

/// A well-formed piece moved by at most one cell each way keeps every cell
/// within `i32`, and its row at least four above `i32::MIN`.
pub proof fn lemma_small_move_fits(p: Tetromino, dx: int, dy: int)
    requires
        p.wf(),
        -1 <= dx <= 1,
        -1 <= dy <= 1,
    ensures
        moved_cells_fit(p, dx, dy),
        dy >= 0 ==> i32::MIN + 4 <= p.position.1 + dy,
{
    lemma_shape_four_blocks(p.piece_type, p.rotation);
    assert forall|i: int| 0 <= i < p.blocks@.len() implies i32::MIN <= p.position.0 + dx
        + #[trigger] p.blocks@[i].0 <= i32::MAX && i32::MIN <= p.position.1 + dy + p.blocks@[i].1
        <= i32::MAX by {
        assert(-1 <= shape(p.piece_type, p.rotation)[i].0 <= 2);
    }
}

/// What the auto-save does in a frame.
#[derive(Debug, Clone, Copy, PartialEq, Eq, Structural)]
pub enum AutoSaveStep {
    /// Not yet time to save.
    Wait,
    /// Time to save, but the game is as it was last saved: the save is
    /// skipped and the interval starts again.
    Unchanged,
    /// Time to save a game whose state hash is `hash`; the interval starts
    /// again.
    Save { hash: u64 },
}

impl View for Game {
    type V = GameView;

    open spec fn view(&self) -> GameView {
        GameView {
            state: self.state,
            rows: self.board.rows(),
            lines_cleared: self.board.spec_lines_cleared() as int,
            current: piece_option_view(self.current_piece),
            next_piece: self.next_piece,
            held_piece: self.held_piece,
            hold_used: self.hold_used_this_piece,
            score: self.score as int,
            drop_timer: self.drop_timer as int,
            drop_interval: self.drop_interval as int,
            game_time: self.game_time as int,
            clearing_lines: self.clearing_lines@,
            clear_timer: self.clear_animation_timer as int,
            soft_timer: self.soft_drop_timer as int,
            left_timer: self.left_move_timer as int,
            right_timer: self.right_move_timer as int,
            ghost_available: self.ghost_blocks_available as int,
            ghost_mode: self.ghost_block_placement_mode,
            ghost_cursor: self.ghost_block_cursor,
            blink_timer: self.ghost_block_blink_timer as int,
            smart_positions: self.ghost_smart_positions@,
            cursor_index: self.ghost_cursor_index as int,
            just_locked: self.piece_just_locked,
            lock_timer: self.lock_delay_timer as int,
            locking: self.piece_is_locking,
            lock_resets: self.lock_resets as int,
            lifetime: self.piece_lifetime_timer as int,
            celebration_active: self.tetris_celebration_active,
            celebration_timer: self.tetris_celebration_timer as int,
            throw_active: self.ghost_throw_active,
            throw_timer: self.ghost_throw_timer as int,
            throw_target: self.ghost_throw_target,
            legacy: self.legacy_mode,
            last_rotation: self.last_action_was_rotation,
        }
    }
}

/// A piece with its proper shape that may stand on the board lies within the
/// side walls and above the floor.
pub proof fn lemma_fitting_piece_on_board(rows: Seq<Seq<Cell>>, p: PieceView)
    requires
        p.blocks == shape(p.piece_type, p.rotation),
        piece_fits(rows, p),
    ensures
        0 <= p.position.0 <= 9,
        p.position.1 <= 23,
{
    reveal(rows_fit);
    lemma_shape_has_center(p.piece_type, p.rotation);
    let i = choose|i: int|
        0 <= i < shape(p.piece_type, p.rotation).len() && #[trigger] shape(
            p.piece_type,
            p.rotation,
        )[i] == (0i32, 0i32);
    assert(p.blocks[i] == (0i32, 0i32));
    assert(crate::board::rows_valid(
        rows,
        p.position.0 + p.blocks[i].0,
        p.position.1 + p.blocks[i].1,
    ));
}

impl Game {
    /// Create a new game instance
    pub fn new() -> (game: Game)
        ensures
            game.wf(),
            game.current_piece is Some,
            game@ == m_spawn(initial_view(game@.current->0.piece_type), game.next_piece),
    {
        let mut game = Game {
            state: GameState::Playing,
            board: Board::new(),
            current_piece: None,
            next_piece: TetrominoType::random(),
            held_piece: None,
            hold_used_this_piece: false,
            score: 0,
            drop_timer: 0,
            drop_interval: 1_000_000,  // Will be set properly by update_drop_interval()
            game_time: 0,
            clearing_lines: Vec::new(),
            clear_animation_timer: 0,
            soft_drop_timer: 0,
            left_move_timer: 0,
            right_move_timer: 0,
            ghost_blocks_available: 0,
            ghost_block_placement_mode: false,
            ghost_block_cursor: ((BOARD_WIDTH / 2) as i32, (BUFFER_HEIGHT + VISIBLE_HEIGHT / 2) as i32),
            ghost_block_blink_timer: 0,
            ghost_smart_positions: Vec::new(),
            ghost_cursor_index: 0,
            piece_just_locked: false,
            lock_delay_timer: 0,
            piece_is_locking: false,
            lock_resets: 0,
            piece_lifetime_timer: 0,
            tetris_celebration_active: false,
            tetris_celebration_timer: 0,
            ghost_throw_active: false,
            ghost_throw_timer: 0,
            ghost_throw_target: (0, 0),
            legacy_mode: false,  // Start in modern mode by default
            last_action_was_rotation: false,
        };
        let ghost first = game.next_piece;
        assert(game@ == initial_view(first));
        // Spawn the first piece
        game.spawn_next_piece();
        proof {
            lemma_spawn_fits_empty(first);
        }
        // Initialize drop interval based on starting level
        game.update_drop_interval();
        game
    }

    /// Restart from a new game
    pub fn reset(&mut self)
        ensures
            final(self).wf(),
            final(self).current_piece is Some,
            final(self)@ == m_spawn(
                initial_view(final(self)@.current->0.piece_type),
                final(self).next_piece,
            ),
    {
        *self = Self::new();
    }

    /// Whether the lines, the points and the ghost blocks of the line clear
    /// under way, if it finished now, would fit in `u32`s.
    pub fn finish_clear_fits_now(&self) -> (ok: bool)
        requires
            self.wf(),
        ensures
            ok == finish_clear_fits(self@),
    {
        let n = self.clearing_lines.len();
        if n > 4_294_967_295usize {
            return false;
        }
        let before = self.board.lines_cleared() as u64;
        let total = before + n as u64;
        if total > 4_294_967_295u64 {
            return false;
        }
        let base: u64 = if n == 1 {
            100
        } else if n == 2 {
            300
        } else if n == 3 {
            500
        } else if n == 4 {
            800
        } else {
            0
        };
        let points = base * (total / 10 + 1);
        let new_ghosts = total / 4 - before / 4;
        self.score as u64 + points <= 4_294_967_295u64 && self.ghost_blocks_available as u64
            + new_ghosts <= 4_294_967_295u64
    }

    /// Update game logic by `delta_time` microseconds, when the line clear
    /// that this update would finish, if any, fits in `u32`s; otherwise
    /// nothing changes and `false` comes back.
    pub fn checked_update(&mut self, delta_time: u64) -> (done: bool)
        requires
            old(self).wf(),
        ensures
            final(self).wf(),
            done == (!(old(self).state == GameState::Playing && old(self).clearing_lines@.len() > 0
                && sat_add(old(self).clear_animation_timer as int, delta_time as int)
                >= LINE_CLEAR_ANIMATION_TIME) || finish_clear_fits(old(self)@)),
            done ==> final(self)@ == m_update(old(self)@, delta_time as int, final(self).next_piece),
            !done ==> *final(self) == *old(self),
    {
        let finishing = self.state == GameState::Playing && self.clearing_lines.len() > 0
            && self.clear_animation_timer.saturating_add(delta_time) >= LINE_CLEAR_ANIMATION_TIME;
        if finishing && !self.finish_clear_fits_now() {
            return false;
        }
        self.update(delta_time);
        true
    }

    /// Update game logic: `delta_time` microseconds have passed.
    pub fn update(&mut self, delta_time: u64)
        requires
            old(self).wf(),
            old(self).state == GameState::Playing && old(self).clearing_lines@.len() > 0 && sat_add(
                old(self).clear_animation_timer as int,
                delta_time as int,
            ) >= LINE_CLEAR_ANIMATION_TIME ==> finish_clear_fits(old(self)@),
        ensures
            final(self).wf(),
            final(self)@ == m_update(old(self)@, delta_time as int, final(self).next_piece),
    {
        match self.state {
            GameState::Playing => {},
            _ => return ,
        }
        // Reset piece locked flag at the start of each update cycle
        self.piece_just_locked = false;
        self.game_time = self.game_time.saturating_add(delta_time);
        // Handle line clearing animation
        if self.clearing_lines.len() > 0 {
            self.clear_animation_timer = self.clear_animation_timer.saturating_add(delta_time);
            if self.clear_animation_timer >= LINE_CLEAR_ANIMATION_TIME {
                self.finish_line_clear();
            }
            return ;  // Don't update other game logic during animation
        }
        self.advance_timers(delta_time);
        self.settle_current_piece(delta_time);
    }

    /// The timers run while no rows are being cleared.
    fn advance_timers(&mut self, delta_time: u64)
        requires
            old(self).wf(),
        ensures
            final(self).wf(),
            final(self)@ == m_tick(old(self)@, delta_time as int),
    {
        self.drop_timer = self.drop_timer.saturating_add(delta_time);
        self.soft_drop_timer = self.soft_drop_timer.saturating_add(delta_time);
        self.left_move_timer = self.left_move_timer.saturating_add(delta_time);
        self.right_move_timer = self.right_move_timer.saturating_add(delta_time);
        self.ghost_block_blink_timer = self.ghost_block_blink_timer.saturating_add(delta_time);
        // Update piece lifetime timer
        if self.current_piece.is_some() {
            self.piece_lifetime_timer = self.piece_lifetime_timer.saturating_add(delta_time);
        }
        // Update TETRIS celebration timer
        if self.tetris_celebration_active {
            self.tetris_celebration_timer = self.tetris_celebration_timer.saturating_add(delta_time);
            if self.tetris_celebration_timer >= TETRIS_CELEBRATION_TIME {
                self.tetris_celebration_active = false;
                self.tetris_celebration_timer = 0;
            }
        }
        // Update ghost throw animation timer
        if self.ghost_throw_active {
            self.ghost_throw_timer = self.ghost_throw_timer.saturating_add(delta_time);
            if self.ghost_throw_timer >= GHOST_THROW_ANIMATION_TIME {
                self.finish_ghost_throw();
            }
        }
    }

    /// A piece past its lifetime or its lock delay locks; otherwise the drop
    /// timer may drop it.
    fn settle_current_piece(&mut self, delta_time: u64)
        requires
            old(self).wf(),
        ensures
            final(self).wf(),
            final(self)@ == m_settle(old(self)@, delta_time as int, final(self).next_piece),
    {
        // Check for force lock if piece has exceeded maximum lifetime
        // This is a critical safeguard against floating pieces
        if self.piece_lifetime_timer >= MAX_PIECE_LIFETIME {
            self.lock_current_piece();
            return ;  // Don't continue with other logic after locking
        }
        // Update lock delay timer if piece is in locking state
        if self.piece_is_locking {
            self.lock_delay_timer = self.lock_delay_timer.saturating_add(delta_time);
            // Check if lock delay time has expired
            if self.lock_delay_timer >= LOCK_DELAY {
                self.lock_current_piece();
                return ;  // Don't continue with other logic after locking
            }
        }
        // Check if it's time to drop the current piece
        if self.drop_timer >= self.drop_interval {
            self.drop_current_piece();
            self.drop_timer = 0;
        }
    }

    /// The board is well formed, the falling piece has its shape and its
    /// centre within the side walls and above the floor, the cursor index
    /// points into the target list (or is 0), a ghost block in flight has
    /// been paid for, the lock delay has been reset at most
    /// `MAX_LOCK_RESETS` times, and the ghost-block cursor and targets lie on
    /// the visible grid.
    pub open spec fn wf(&self) -> bool {
        &&& self.board.wf()
        &&& match self.current_piece {
            Some(p) => p.wf() && 0 <= p.position.0 <= 9 && p.position.1 <= 23,
            None => true,
        }
        &&& (self.ghost_cursor_index == 0 || self.ghost_cursor_index
            < self.ghost_smart_positions@.len())
        &&& (self.ghost_throw_active ==> self.ghost_blocks_available > 0)
        &&& self.lock_resets <= MAX_LOCK_RESETS
        &&& on_visible_grid(self.ghost_block_cursor.0 as int, self.ghost_block_cursor.1 as int)
        &&& forall|i: int|
            0 <= i < self.ghost_smart_positions@.len() ==> on_visible_grid(
                #[trigger] self.ghost_smart_positions@[i].0 as int,
                self.ghost_smart_positions@[i].1 as int,
            )
    }

    /// Whether the game is well formed (see `wf`): a game read from outside
    /// can be tested before it is played.
    pub fn is_consistent(&self) -> (ok: bool)
        ensures
            ok == self.wf(),
    {
        if !self.board.is_well_formed() {
            return false;
        }
        if let Some(piece) = &self.current_piece {
            if !piece.is_well_formed() || piece.position.0 < 0 || piece.position.0 > 9
                || piece.position.1 > 23 {
                return false;
            }
        }
        if self.ghost_cursor_index != 0 && self.ghost_cursor_index >= self.ghost_smart_positions.len() {
            return false;
        }
        if self.ghost_throw_active && self.ghost_blocks_available == 0 {
            return false;
        }
        if self.lock_resets > MAX_LOCK_RESETS {
            return false;
        }
        let (cx, cy) = self.ghost_block_cursor;
        if cx < 0 || cx >= 10 || cy < 4 || cy >= 24 {
            return false;
        }
        for i in 0..self.ghost_smart_positions.len()
            invariant
                forall|j: int|
                    0 <= j < i ==> on_visible_grid(
                        #[trigger] self.ghost_smart_positions@[j].0 as int,
                        self.ghost_smart_positions@[j].1 as int,
                    ),
        {
            let (x, y, _) = self.ghost_smart_positions[i];
            if x < 0 || x >= 10 || y < 4 || y >= 24 {
                return false;
            }
        }
        true
    }

    /// Check if the current piece is in a valid position
    pub fn is_piece_valid(&self, piece: &Tetromino) -> (valid: bool)
        requires
            self.board.wf(),
            piece.cells_fit(),
        ensures
            valid == rows_fit(
                self.board.rows(),
                piece.blocks@,
                piece.position.0 as int,
                piece.position.1 as int,
            ),
    {
        reveal(rows_fit);
        let cells = piece.absolute_blocks();
        for k in 0..cells.len()
            invariant
                self.board.wf(),
                piece.cells_fit(),
                cells@.len() == piece.blocks@.len(),
                forall|i: int|
                    0 <= i < cells@.len() ==> (#[trigger] cells@[i].0 as int, cells@[i].1 as int)
                        == piece.cells()[i],
                forall|i: int|
                    0 <= i < k ==> crate::board::rows_valid(
                        self.board.rows(),
                        piece.position.0 + #[trigger] piece.blocks@[i].0,
                        piece.position.1 + piece.blocks@[i].1,
                    ),
        {
            let (x, y) = cells[k];
            assert(piece.cells()[k as int] == (x as int, y as int));
            if !self.board.is_position_valid(x, y) {
                proof {
                    reveal(rows_fit);
                    assert(!crate::board::rows_valid(
                        self.board.rows(),
                        piece.position.0 + piece.blocks@[k as int].0,
                        piece.position.1 + piece.blocks@[k as int].1,
                    ));
                }
                return false;
            }
        }
        true
    }

    /// Whether a piece with its proper shape could move one row down.
    fn piece_can_fall(&self, piece: &Tetromino) -> (fall: bool)
        requires
            self.board.wf(),
            piece.wf(),
        ensures
            fall == piece_fits(self.board.rows(), shifted(piece@, 0, 1)),
    {
        let mut test_piece = piece.clone();
        test_piece.move_by(0, 1);
        proof {
            lemma_shape_four_blocks(test_piece.piece_type, test_piece.rotation);
            assert(test_piece@ == shifted(piece@, 0, 1));
        }
        self.is_piece_valid(&test_piece)
    }

    /// Try to drop the current piece by one row
    pub fn drop_current_piece(&mut self) -> (moved: bool)
        requires
            old(self).wf(),
        ensures
            final(self).wf(),
            final(self)@ == m_drop(old(self)@),
            moved == can_fall(old(self)@),
    {
        if let Some(piece) = &self.current_piece {
            if self.piece_can_fall(piece) {
                let mut moved_piece = piece.clone();
                moved_piece.move_by(0, 1);
                proof {
                    assert(moved_piece@ == shifted(piece@, 0, 1));
                    lemma_fitting_piece_on_board(self.board.rows(), moved_piece@);
                }
                // Successfully moved down - reset lock delay state
                self.current_piece = Some(moved_piece);
                self.piece_is_locking = false;
                self.lock_delay_timer = 0;
                return true;
            } else {
                // Can't move down - start lock delay if not already started
                if !self.piece_is_locking {
                    self.piece_is_locking = true;
                    self.lock_delay_timer = 0;
                }
                return false;
            }
        }
        false
    }

    /// Reset the lock delay timer and state with improved anti-floating logic
    pub fn reset_lock_delay(&mut self)
        requires
            old(self).wf(),
        ensures
            final(self).wf(),
            final(self)@ == m_reset_lock_delay(old(self)@),
            final(self).next_piece == old(self).next_piece,
    {
        reveal(m_reset_lock_delay);
        // Always allow reset if piece can actually move down (not grounded)
        if let Some(piece) = &self.current_piece {
            if self.piece_can_fall(piece) {
                // Piece can move down - allow reset regardless of reset count
                self.piece_is_locking = false;
                self.lock_delay_timer = 0;
                self.lock_resets = 0;  // Reset counter since piece can move down
                return ;
            }
        }
        // Piece is grounded - only reset if we haven't exceeded the maximum number of resets
        if self.lock_resets < MAX_LOCK_RESETS {
            self.piece_is_locking = false;
            self.lock_delay_timer = 0;
            self.lock_resets = self.lock_resets + 1;
        } else {
            // Force the piece into locking state if it wasn't already
            if !self.piece_is_locking {
                self.piece_is_locking = true;
                self.lock_delay_timer = 0;
            }
        }
    }

    /// Update lock delay state based on whether current piece can continue falling
    /// This should be called after any successful piece movement or rotation
    fn update_lock_state_for_current_piece(&mut self)
        requires
            old(self).wf(),
        ensures
            final(self).wf(),
            final(self)@ == m_update_lock_state(old(self)@),
    {
        if let Some(piece) = &self.current_piece {
            // Test if piece can move down from its CURRENT position
            if self.piece_can_fall(piece) {
                // Piece can still fall - reset lock delay completely
                self.reset_lock_delay();
            } else {
                // Piece is truly grounded - start/continue lock delay
                if !self.piece_is_locking {
                    self.piece_is_locking = true;
                    self.lock_delay_timer = 0;
                }
            }
        }
    }

    /// Try to move the current piece
    pub fn move_piece(&mut self, dx: i32, dy: i32) -> (moved: bool)
        requires
            old(self).wf(),
            old(self).current_piece matches Some(p) ==> moved_cells_fit(p, dx as int, dy as int)
                && i32::MIN + 4 <= p.position.1 + dy,
        ensures
            final(self).wf(),
            final(self)@ == m_move(old(self)@, dx as int, dy as int),
            moved == move_succeeds(old(self)@, dx as int, dy as int),
    {
        if let Some(piece) = &self.current_piece {
            let mut moved_piece = piece.clone();
            proof {
                lemma_shape_has_center(piece.piece_type, piece.rotation);
                let c = choose|c: int|
                    0 <= c < shape(piece.piece_type, piece.rotation).len() && #[trigger] shape(
                        piece.piece_type,
                        piece.rotation,
                    )[c] == (0i32, 0i32);
                assert(piece.blocks@[c] == (0i32, 0i32));
                assert(piece.blocks@[c].0 == 0);
            }
            moved_piece.move_by(dx, dy);
            proof {
                assert(moved_piece@ == shifted(piece@, dx as int, dy as int));
                lemma_shape_four_blocks(moved_piece.piece_type, moved_piece.rotation);
                assert forall|i: int| 0 <= i < moved_piece.blocks@.len() implies i32::MIN
                    <= moved_piece.position.0 + #[trigger] moved_piece.blocks@[i].0 <= i32::MAX
                    && i32::MIN <= moved_piece.position.1 + moved_piece.blocks@[i].1
                    <= i32::MAX by {
                    assert(piece.blocks@[i] == moved_piece.blocks@[i]);
                    assert(i32::MIN <= piece.position.0 + dx + piece.blocks@[i].0 <= i32::MAX);
                }
            }
            if self.is_piece_valid(&moved_piece) {
                proof {
                    lemma_fitting_piece_on_board(self.board.rows(), moved_piece@);
                }
                // Movement was successful - update piece position
                self.current_piece = Some(moved_piece);
                // Movement resets rotation tracking for T-spin detection
                self.last_action_was_rotation = false;
                // NOW check if the piece can still fall from its CURRENT position
                // This prevents side collisions from triggering lock delay
                self.update_lock_state_for_current_piece();
                return true;
            }
        }
        false
    }

    /// Try to rotate the current piece clockwise
    pub fn rotate_piece_clockwise(&mut self) -> (rotated: bool)
        requires
            old(self).wf(),
        ensures
            final(self).wf(),
            final(self)@ == m_rotate(old(self)@, true),
            rotated == rotate_succeeds(old(self)@, true),
    {
        if let Some(piece) = &self.current_piece {
            let mut turned_piece = piece.clone();
            turned_piece.rotate_clockwise();
            proof {
                assert(turned_piece@ == turned(piece@, crate::tetromino::types::cw(piece.rotation)));
                lemma_wf_cells_fit(turned_piece);
            }
            if self.is_piece_valid(&turned_piece) {
                self.current_piece = Some(turned_piece);
                // Mark that the last successful action was a rotation
                self.last_action_was_rotation = true;
                // Check lock state after successful rotation
                self.update_lock_state_for_current_piece();
                return true;
            }
        }
        false
    }

    /// Try to rotate the current piece counterclockwise
    pub fn rotate_piece_counterclockwise(&mut self) -> (rotated: bool)
        requires
            old(self).wf(),
        ensures
            final(self).wf(),
            final(self)@ == m_rotate(old(self)@, false),
            rotated == rotate_succeeds(old(self)@, false),
    {
        if let Some(piece) = &self.current_piece {
            let mut turned_piece = piece.clone();
            turned_piece.rotate_counterclockwise();
            proof {
                assert(turned_piece@ == turned(piece@, crate::tetromino::types::ccw(piece.rotation)));
                lemma_wf_cells_fit(turned_piece);
            }
            if self.is_piece_valid(&turned_piece) {
                self.current_piece = Some(turned_piece);
                // Mark that the last successful action was a rotation
                self.last_action_was_rotation = true;
                // Check lock state after successful rotation
                self.update_lock_state_for_current_piece();
                return true;
            }
        }
        false
    }

    /// Update drop interval based on current level
    /// Uses a more reasonable progression that doesn't become microscopic
    fn update_drop_interval(&mut self)
        requires
            old(self).wf(),
        ensures
            final(self).wf(),
            final(self)@ == (GameView {
                drop_interval: drop_interval_for(level_for(old(self)@.lines_cleared)),
                ..old(self)@
            }),
    {
        let level = self.board.level();
        // Use a more reasonable drop speed progression
        // Each level increases speed but maintains playable intervals
        self.drop_interval = match level {
            1 => 1_000_000,  // 1 second (slow start)
            2 => 850_000,
            3 => 720_000,
            4 => 610_000,
            5 => 520_000,
            6 => 440_000,
            7 => 370_000,
            8 => 310_000,
            9 => 260_000,
            10 => 220_000,
            11 => 190_000,
            12 => 160_000,
            13 => 130_000,
            14 => 110_000,
            15 => 90_000,
            _ => 80_000,  // 80ms minimum (very fast but still playable)
        };
    }

    /// Spawn the next piece
    pub fn spawn_next_piece(&mut self)
        requires
            old(self).wf(),
        ensures
            final(self).wf(),
            final(self)@ == m_spawn(old(self)@, final(self).next_piece),
    {
        let new_piece = Tetromino::new(self.next_piece);
        self.next_piece = TetrominoType::random();
        // Reset hold usage for the new piece
        self.hold_used_this_piece = false;
        // Reset lock delay state for new piece
        self.piece_is_locking = false;
        self.lock_delay_timer = 0;
        self.lock_resets = 0;
        self.piece_lifetime_timer = 0;
        // Update drop interval if level changed
        self.update_drop_interval();
        // Reset T-spin detection for new piece
        self.last_action_was_rotation = false;
        proof {
            lemma_wf_cells_fit(new_piece);
            assert(new_piece@ == spawn_view(new_piece.piece_type));
        }
        // Check if the new piece can be placed
        if self.is_piece_valid(&new_piece) {
            self.current_piece = Some(new_piece);
        } else {
            // Game over - can't spawn new piece
            self.state = GameState::GameOver;
        }
    }

    /// Start line clearing animation
    pub fn start_line_clear_animation(&mut self, lines: Vec<usize>)
        requires
            old(self).wf(),
        ensures
            final(self).wf(),
            final(self)@ == (GameView { clearing_lines: lines@, clear_timer: 0, ..old(self)@ }),
    {
        self.clearing_lines = lines;
        self.clear_animation_timer = 0;
    }

    /// Lock the current piece to the board and spawn a new one
    pub fn lock_current_piece(&mut self)
        requires
            old(self).wf(),
        ensures
            final(self).wf(),
            final(self)@ == m_lock(old(self)@, final(self).next_piece),
    {
        if let Some(piece) = self.current_piece.take() {
            // Set flag to indicate a piece was just locked (for audio feedback)
            self.piece_just_locked = true;
            // Reset lock delay state
            self.piece_is_locking = false;
            self.lock_delay_timer = 0;
            self.lock_resets = 0;
            self.piece_lifetime_timer = 0;
            proof {
                lemma_wf_cells_fit(piece);
            }
            // Place the piece on the board
            let cells = piece.absolute_blocks();
            let color = piece.color();
            let ghost rows0 = self.board.rows();
            let ghost all = piece.cells();
            let ghost pre = *self;
            proof {
                lemma_stamp_nothing(rows0, color);
                assert(all.take(0) =~= seq![]);
            }
            for k in 0..cells.len()
                invariant
                    self.board.wf(),
                    cells@.len() == all.len(),
                    rows0.len() == 24,
                    forall|y: int| 0 <= y < 24 ==> #[trigger] rows0[y].len() == 10,
                    forall|i: int|
                        0 <= i < cells@.len() ==> (#[trigger] cells@[i].0 as int, cells@[i].1 as int)
                            == all[i],
                    self.board.rows() == stamp_rows(rows0, all.take(k as int), color),
                    self.wf(),
                    self@ == (GameView { rows: self.board.rows(), ..pre@ }),
            {
                let (x, y) = cells[k];
                assert(all[k as int] == (x as int, y as int));
                proof {
                    lemma_stamp_step(rows0, all, k as int, color);
                }
                if x >= 0 && y >= 0 {
                    self.board.set_cell(x, y, Cell::Filled(color));
                }
            }
            assert(all.take(cells@.len() as int) =~= all);
            // Check for complete lines and start animation
            let complete_lines = self.board.find_complete_lines();
            if complete_lines.len() > 0 {
                self.start_line_clear_animation(complete_lines);
                return ;  // Don't spawn next piece until animation is done
            }
            // Check game over
            if self.board.is_game_over() {
                self.state = GameState::GameOver;
                return ;
            }
            // Spawn next piece
            self.spawn_next_piece();
        }
    }

    /// Add score for cleared lines
    pub fn add_score_for_lines(&mut self, lines_cleared: u32)
        requires
            old(self).wf(),
            old(self).score + line_points(lines_cleared as int) * level_for(
                old(self)@.lines_cleared,
            ) <= u32::MAX,
        ensures
            final(self).wf(),
            final(self)@ == m_add_score_for_lines(old(self)@, lines_cleared as int),
    {
        let base_score = match lines_cleared {
            1 => SCORE_SINGLE_LINE,
            2 => SCORE_DOUBLE_LINE,
            3 => SCORE_TRIPLE_LINE,
            4 => SCORE_TETRIS,
            _ => 0,
        };
        // Multiply by level for higher scores at higher levels
        self.score = self.score + base_score * self.board.level();
    }

    /// Remove, score and reward the rows being animated.
    #[verifier::rlimit(80)]
    fn clear_animated_rows(&mut self)
        requires
            old(self).wf(),
            finish_clear_fits(old(self)@),
        ensures
            final(self).wf(),
            final(self)@ == m_clear_rows(old(self)@),
    {
        if self.clearing_lines.len() > 0 {
            let ghost v0 = self@;
            let lines_cleared = self.board.clear_lines(self.clearing_lines.as_slice());
            assert(self@ == (GameView {
                rows: crate::board::rows_after_clear(v0.rows, v0.clearing_lines),
                lines_cleared: v0.lines_cleared + v0.clearing_lines.len(),
                ..v0
            }));
            self.add_score_for_lines(lines_cleared);
            let ghost v1 = self@;
            // Check for TETRIS celebration (4 lines cleared at once)
            if lines_cleared == 4 {
                self.tetris_celebration_active = true;
                self.tetris_celebration_timer = 0;
            }
            // Award ghost block every 4 lines cleared
            let total_lines_before = self.board.lines_cleared() - lines_cleared;
            let total_lines_after = self.board.lines_cleared();
            let ghost_blocks_before = total_lines_before / 4;
            let ghost_blocks_after = total_lines_after / 4;
            let ghost_blocks_earned = ghost_blocks_after - ghost_blocks_before;
            if ghost_blocks_earned > 0 {
                self.ghost_blocks_available = self.ghost_blocks_available + ghost_blocks_earned;
            }
            self.clearing_lines.clear();
            self.clear_animation_timer = 0;
            assert(self@ == m_clear_rows(v0));
        }
    }

    /// Finish line clearing animation and actually clear the lines
    pub fn finish_line_clear(&mut self)
        requires
            old(self).wf(),
            finish_clear_fits(old(self)@),
        ensures
            final(self).wf(),
            final(self)@ == m_finish_line_clear(old(self)@, final(self).next_piece),
    {
        self.clear_animated_rows();
        // Check game over after clearing lines
        if self.board.is_game_over() {
            self.state = GameState::GameOver;
            return ;
        }
        // Only spawn next piece if we don't have a current piece
        if self.current_piece.is_none() {
            self.spawn_next_piece();
        } else {
            // If we have a current piece after line clearing, ensure it can continue falling normally
            self.piece_is_locking = false;
            self.lock_delay_timer = 0;
        }
    }

    /// Hard drop the current piece
    pub fn hard_drop(&mut self)
        requires
            old(self).wf(),
            hard_drop_fits(old(self)@),
        ensures
            final(self).wf(),
            final(self)@ == m_hard_drop(old(self)@, final(self).next_piece),
    {
        if self.current_piece.is_some() {
            let ghost v0 = self@;
            let ghost p0 = v0.current.unwrap();
            let mut drop_distance: u32 = 0;
            // Drop as far as possible
            loop
                invariant_except_break
                    self.wf(),
                    self.current_piece is Some,
                    self@ == (GameView {
                        current: Some(shifted(p0, 0, drop_distance as int)),
                        locking: self@.locking,
                        lock_timer: self@.lock_timer,
                        ..v0
                    }),
                    fall_distance(v0.rows, p0) == drop_distance + fall_distance(
                        v0.rows,
                        shifted(p0, 0, drop_distance as int),
                    ),
                    v0.score + 2 * fall_distance(v0.rows, p0) <= u32::MAX,
                    piece_wf(p0),
                    drop_distance == 0 || p0.position.1 + drop_distance <= 23,
                ensures
                    self.wf(),
                    self@ == (GameView {
                        current: Some(shifted(p0, 0, drop_distance as int)),
                        locking: self@.locking,
                        lock_timer: self@.lock_timer,
                        ..v0
                    }),
                    fall_distance(v0.rows, p0) == drop_distance,
                    v0.score + 2 * fall_distance(v0.rows, p0) <= u32::MAX,
                decreases 30 - self.current_piece.unwrap().position.1,
            {
                let ghost q = shifted(p0, 0, drop_distance as int);
                assert(drop_distance == 0 || p0.position.1 + drop_distance <= 23);
                let ghost before_y = self.current_piece.unwrap().position.1;
                if !self.drop_current_piece() {
                    break;
                }
                proof {
                    lemma_fitting_piece_on_board(v0.rows, shifted(q, 0, 1));
                    assert(shifted(q, 0, 1) == shifted(p0, 0, drop_distance + 1));
                }
                drop_distance = drop_distance + 1;
            }
            // Add score for hard drop
            self.score = self.score + drop_distance * SCORE_HARD_DROP;
            // Immediately lock the piece after hard drop - no lock delay
            self.lock_current_piece();
        }
    }

    /// A piece of the given type enters at the spawn point with its lock delay
    /// reset, or the game ends when it does not fit there.
    fn enter_from_hold(&mut self, piece_type: TetrominoType) -> (entered: bool)
        requires
            old(self).wf(),
        ensures
            final(self).wf(),
            entered == piece_fits(old(self)@.rows, spawn_view(piece_type)),
            final(self).next_piece == old(self).next_piece,
            final(self)@ == (if entered {
                m_reset_lock_delay(
                    GameView { current: Some(spawn_view(piece_type)), ..old(self)@ },
                )
            } else {
                GameView { state: GameState::GameOver, ..old(self)@ }
            }),
    {
        let new_piece = Tetromino::new(piece_type);
        proof {
            lemma_wf_cells_fit(new_piece);
            assert(new_piece@ == spawn_view(piece_type));
        }
        if self.is_piece_valid(&new_piece) {
            self.current_piece = Some(new_piece);
            self.reset_lock_delay();
            true
        } else {
            self.state = GameState::GameOver;
            false
        }
    }

    /// Hold the current piece (swap with held piece)
    /// Can only be used once per piece to prevent infinite swapping
    #[verifier::rlimit(80)]
    pub fn hold_piece(&mut self) -> (held: bool)
        requires
            old(self).wf(),
        ensures
            final(self).wf(),
            final(self)@ == m_hold(old(self)@, final(self).next_piece),
            held == hold_succeeds(old(self)@),
    {
        // Can't hold if already used for this piece
        if self.hold_used_this_piece {
            proof {
                reveal(m_hold);
            }
            return false;
        }
        // Can't hold if no current piece
        if self.current_piece.is_none() {
            proof {
                reveal(m_hold);
            }
            return false;
        }
        let ghost v0 = self@;
        // Mark hold as used for this "piece cycle"
        self.hold_used_this_piece = true;
        let current = self.current_piece.take().unwrap();
        let current_type = current.piece_type;
        assert(self@ == (GameView { hold_used: true, current: None, ..v0 }));
        let held = self.held_piece;
        let entered = match held {
            Some(held_type) => {
                // Swap current piece with held piece
                self.held_piece = Some(current_type);
                // Check if the swapped piece can be placed; if not, the game is over
                // and the piece stays in hold
                let ghost pre_enter = self@;
                let e = self.enter_from_hold(held_type);
                proof {
                    assert(pre_enter == (GameView {
                        hold_used: true,
                        current: None,
                        held_piece: Some(v0.current.unwrap().piece_type),
                        ..v0
                    }));
                    reveal(m_hold);
                }
                e
            },
            None => {
                // First time holding - store current piece and spawn next
                self.held_piece = Some(current_type);
                let next = self.next_piece;
                self.next_piece = TetrominoType::random();
                // Check if the new piece can be placed; if not, the game is over
                let ghost pre_enter = self@;
                let e = self.enter_from_hold(next);
                proof {
                    assert(pre_enter == (GameView {
                        hold_used: true,
                        current: None,
                        held_piece: Some(v0.current.unwrap().piece_type),
                        next_piece: pre_enter.next_piece,
                        ..v0
                    }));
                    reveal(m_hold);
                }
                e
            },
        };
        entered
    }

    /// Check if hold is available for the current piece
    pub fn can_hold(&self) -> (can: bool)
        ensures
            can == (!self.hold_used_this_piece && self.current_piece is Some),
    {
        !self.hold_used_this_piece && self.current_piece.is_some()
    }

    /// Pause/unpause the game
    pub fn toggle_pause(&mut self)
        ensures
            final(self)@ == (GameView {
                state: match old(self).state {
                    GameState::Playing => GameState::Paused,
                    GameState::Paused => GameState::Playing,
                    other => other,
                },
                ..old(self)@
            }),
            final(self).wf() == old(self).wf(),
    {
        match self.state {
            GameState::Playing => self.state = GameState::Paused,
            GameState::Paused => self.state = GameState::Playing,
            _ => {},  // Can't pause in other states
        }
    }

    /// Toggle legacy mode (inspired by Pajitnov's original terminal version)
    pub fn toggle_legacy_mode(&mut self)
        ensures
            final(self)@ == (GameView { legacy: !old(self).legacy_mode, ..old(self)@ }),
            final(self).wf() == old(self).wf(),
    {
        self.legacy_mode = !self.legacy_mode;
    }

    /// Check if legacy mode is currently active
    pub fn is_legacy_mode(&self) -> (legacy: bool)
        ensures
            legacy == self.legacy_mode,
    {
        self.legacy_mode
    }

    /// Get current level
    pub fn level(&self) -> (level: u32)
        ensures
            level == self.board.spec_level(),
    {
        self.board.level()
    }

    /// Get lines cleared
    pub fn lines_cleared(&self) -> (lines: u32)
        ensures
            lines == self.board.spec_lines_cleared(),
    {
        self.board.lines_cleared()
    }

    /// Check if lines are currently being cleared (for rendering)
    pub fn is_clearing_lines(&self) -> (clearing: bool)
        ensures
            clearing == (self.clearing_lines@.len() > 0),
    {
        self.clearing_lines.len() > 0
    }

    /// What the auto-save does at time `now` (microseconds), the last one
    /// having run at `last_save` and written a game of hash
    /// `last_saved_hash`: while playing, every `AUTO_SAVE_INTERVAL` it saves
    /// the game if its state hash changed, and skips the save otherwise.
    pub fn auto_save_step(&self, now: u64, last_save: u64, last_saved_hash: u64) -> (step:
        AutoSaveStep)
        requires
            self.board.wf(),
        ensures
            step == (if self.state == GameState::Playing && now >= last_save && now - last_save
                >= AUTO_SAVE_INTERVAL {
                if hash_of_words(state_words(*self)) != last_saved_hash {
                    AutoSaveStep::Save { hash: hash_of_words(state_words(*self)) }
                } else {
                    AutoSaveStep::Unchanged
                }
            } else {
                AutoSaveStep::Wait
            }),
    {
        if self.state == GameState::Playing && now >= last_save && now - last_save
            >= AUTO_SAVE_INTERVAL {
            let hash = self.get_state_hash();
            if hash != last_saved_hash {
                AutoSaveStep::Save { hash }
            } else {
                AutoSaveStep::Unchanged
            }
        } else {
            AutoSaveStep::Wait
        }
    }

    /// Get a hash of the game state for change detection
    pub fn get_state_hash(&self) -> (hash: u64)
        requires
            self.board.wf(),
        ensures
            hash == hash_of_words(state_words(*self)),
    {
        let mut words: Vec<u64> = Vec::new();
        // Hash key game state components that matter for saves
        words.push(self.score as u64);
        words.push(self.board.lines_cleared() as u64);
        words.push(self.board.level() as u64);
        words.push(self.ghost_blocks_available as u64);
        // Hash current piece position and type
        if let Some(piece) = &self.current_piece {
            words.push(1);
            words.push(type_word(piece.piece_type));
            words.push((piece.position.0 as i64 + 0x8000_0000) as u64);
            words.push((piece.position.1 as i64 + 0x8000_0000) as u64);
            words.push(piece.rotation as u64);
        } else {
            words.push(0);
        }
        words.push(type_word(self.next_piece));
        words.push(
            match self.held_piece {
                Some(t) => type_word(t) + 1,
                None => 0,
            },
        );
        // Hash filled cells in board (simplified)
        words.push(self.board.filled_cells_count() as u64);
        assert(words@ =~= state_words(*self));
        hash_words(&words)
    }

    /// Get the lines being cleared (for animation rendering)
    pub fn get_clearing_lines(&self) -> (lines: &[usize])
        ensures
            lines@ == self.clearing_lines@,
    {
        self.clearing_lines.as_slice()
    }

    /// Check if a row has any existing blocks (not completely empty)
    fn row_has_existing_blocks(&self, line_y: usize) -> (has: bool)
        requires
            self.board.wf(),
            line_y < 24,
        ensures
            has == row_has_blocks(self.board.rows(), line_y as int),
    {
        for x in 0..10usize
            invariant
                self.board.wf(),
                line_y < 24,
                forall|i: int| 0 <= i < x ==> !(#[trigger] self.board.rows()[line_y as int][i] is Filled),
        {
            if let Some(cell) = self.board.get_cell(x as i32, line_y as i32) {
                if cell.is_filled() {
                    return true;
                }
            }
        }
        false
    }

    /// Calculate how many blocks are needed to complete a specific line
    fn calculate_blocks_needed_for_line(&self, line_y: usize) -> (needed: u32)
        requires
            self.board.wf(),
            line_y < 24,
        ensures
            needed == blocks_needed(self.board.rows(), line_y as int),
    {
        let ghost row = self.board.rows()[line_y as int];
        let mut empty_count: u32 = 0;
        for x in 0..10usize
            invariant
                self.board.wf(),
                line_y < 24,
                row == self.board.rows()[line_y as int],
                row.len() == 10,
                empty_count == x - crate::board::count_filled_row(row, x as int),
                crate::board::count_filled_row(row, x as int) <= x,
        {
            if let Some(cell) = self.board.get_cell(x as i32, line_y as i32) {
                if cell.is_empty() {
                    empty_count = empty_count + 1;
                }
            }
        }
        empty_count
    }

    /// Analyze board and find smart positions for ghost block placement
    pub fn analyze_smart_positions(&mut self)
        requires
            old(self).wf(),
        ensures
            final(self).wf(),
            ranked_targets(old(self)@.rows, final(self)@.smart_positions),
            final(self)@ == m_analyze(old(self)@, final(self)@.smart_positions),
    {
        let ghost rows = self.board.rows();
        let mut positions: Vec<(i32, i32, u32)> = Vec::new();
        // Check each empty position on the board, but only on rows that have existing blocks
        for y in 4..24usize
            invariant
                self.board.wf(),
                rows == self.board.rows(),
                targets_so_far(rows, positions@, 0, y as int),
        {
            // First, check if this row has any existing blocks
            let row_has_blocks = self.row_has_existing_blocks(y);
            for x in 0..10usize
                invariant
                    self.board.wf(),
                    rows == self.board.rows(),
                    4 <= y < 24,
                    targets_so_far(rows, positions@, x as int, y as int),
                    row_has_blocks == crate::game::model::row_has_blocks(rows, y as int),
            {
                let ghost before = positions@;
                if row_has_blocks {
                    // Only consider empty positions
                    if let Some(cell) = self.board.get_cell(x as i32, y as i32) {
                        if cell.is_empty() {
                            // Calculate how many blocks are needed to complete this line
                            let needed = self.calculate_blocks_needed_for_line(y);
                            if needed > 0 {
                                let e = (x as i32, y as i32, needed);
                                proof {
                                    assert(is_candidate(rows, x as int, y as int));
                                    assert forall|i: int|
                                        #![trigger positions@[i]]
                                        0 <= i < positions@.len() implies {
                                        &&& 0 <= positions@[i].0 < 10
                                        &&& (positions@[i].0 != e.0 || positions@[i].1 != e.1)
                                        &&& (positions@[i].1 == e.1 ==> positions@[i].2 == e.2)
                                    } by {
                                        assert(is_candidate(
                                            rows,
                                            positions@[i].0 as int,
                                            positions@[i].1 as int,
                                        ));
                                        assert(positions@[i].2 == blocks_needed(
                                            rows,
                                            positions@[i].1 as int,
                                        ));
                                        assert(e.2 == blocks_needed(rows, y as int));
                                    }
                                }
                                insert_ranked(&mut positions, e);
                                proof {
                                    lemma_targets_after_insert(rows, before, positions@, e, x as int, y as int);
                                }
                            }
                        }
                    }
                }
                proof {
                    lemma_targets_next_cell(rows, before, positions@, x as int, y as int);
                }
            }
            proof {
                lemma_targets_next_row(rows, positions@, y as int);
            }
        }
        proof {
            lemma_targets_done(rows, positions@);
        }
        self.ghost_smart_positions = positions;
        self.ghost_cursor_index = 0;
        // Set initial cursor position to the best position (if any)
        if self.ghost_smart_positions.len() > 0 {
            let (x, y, _) = self.ghost_smart_positions[0];
            self.ghost_block_cursor = (x, y);
        }
    }

    /// Toggle ghost block placement mode
    pub fn toggle_ghost_block_mode(&mut self)
        requires
            old(self).wf(),
        ensures
            final(self).wf(),
            final(self)@ == m_toggle_ghost_block_mode(old(self)@, final(self)@.smart_positions),
            old(self)@.ghost_available > 0 && !old(self)@.ghost_mode ==> ranked_targets(
                old(self)@.rows,
                final(self)@.smart_positions,
            ),
    {
        proof {
            reveal(m_reset_lock_delay);
        }
        if self.ghost_blocks_available > 0 {
            self.ghost_block_placement_mode = !self.ghost_block_placement_mode;
            if self.ghost_block_placement_mode {
                // Analyze board and find smart positions
                self.analyze_smart_positions();
                self.ghost_block_blink_timer = 0;
                // Auto-fire if the best position only needs 1 block (instant TETRIS setup)
                if self.ghost_smart_positions.len() > 0 {
                    let (x, y, needed) = self.ghost_smart_positions[0];
                    if needed == 1 {
                        self.start_ghost_throw(x, y);
                        return ;  // Exit placement mode immediately
                    }
                }
            } else {
                self.ghost_smart_positions.clear();
                self.ghost_cursor_index = 0;
            }
        }
    }

    /// Move to next smart position
    pub fn next_smart_position(&mut self)
        requires
            old(self).wf(),
        ensures
            final(self).wf(),
            final(self)@ == m_next_smart_position(old(self)@),
    {
        if self.ghost_block_placement_mode && self.ghost_smart_positions.len() > 0 {
            self.ghost_cursor_index = (self.ghost_cursor_index + 1) % self.ghost_smart_positions.len();
            let (x, y, _) = self.ghost_smart_positions[self.ghost_cursor_index];
            self.ghost_block_cursor = (x, y);
        }
    }

    /// Move to previous smart position
    pub fn previous_smart_position(&mut self)
        requires
            old(self).wf(),
        ensures
            final(self).wf(),
            final(self)@ == m_previous_smart_position(old(self)@),
    {
        if self.ghost_block_placement_mode && self.ghost_smart_positions.len() > 0 {
            self.ghost_cursor_index = if self.ghost_cursor_index == 0 {
                self.ghost_smart_positions.len() - 1
            } else {
                self.ghost_cursor_index - 1
            };
            let (x, y, _) = self.ghost_smart_positions[self.ghost_cursor_index];
            self.ghost_block_cursor = (x, y);
        }
    }

    /// Move ghost block cursor manually (for arrow keys)
    pub fn move_ghost_block_cursor(&mut self, dx: i32, dy: i32)
        requires
            old(self).wf(),
            old(self).ghost_block_placement_mode ==> i32::MIN <= old(self).ghost_block_cursor.0 + dx
                <= i32::MAX && i32::MIN <= old(self).ghost_block_cursor.1 + dy <= i32::MAX,
        ensures
            final(self).wf(),
            final(self)@ == m_move_ghost_block_cursor(old(self)@, dx as int, dy as int),
    {
        if self.ghost_block_placement_mode {
            let new_x = clamp_coord(self.ghost_block_cursor.0 + dx, 0, (BOARD_WIDTH - 1) as i32);
            let new_y = clamp_coord(
                self.ghost_block_cursor.1 + dy,
                BUFFER_HEIGHT as i32,
                (BOARD_HEIGHT + BUFFER_HEIGHT - 1) as i32,
            );
            self.ghost_block_cursor = (new_x, new_y);
            // When manually moving, find the closest smart position and update index
            self.update_cursor_index_for_position(new_x, new_y);
        }
    }

    /// Update cursor index to match the current position (for manual movement)
    fn update_cursor_index_for_position(&mut self, x: i32, y: i32)
        requires
            old(self).wf(),
        ensures
            final(self).wf(),
            final(self)@ == (GameView {
                cursor_index: match target_index(old(self)@.smart_positions, x, y) {
                    Some(i) => i,
                    None => old(self)@.cursor_index,
                },
                ..old(self)@
            }),
    {
        if let Some(index) = find_target(&self.ghost_smart_positions, x, y) {
            self.ghost_cursor_index = index;
        }
        // If position is not in smart positions, keep current index
    }

    /// Get strategic info for current cursor position
    pub fn get_current_position_info(&self) -> (info: Option<(usize, usize, u32)>)
        ensures
            info == (if self.ghost_block_placement_mode && 0 < self.ghost_smart_positions@.len()
                && self.ghost_cursor_index < self.ghost_smart_positions@.len() {
                Some(
                    (
                        (self.ghost_cursor_index + 1) as usize,
                        self.ghost_smart_positions@.len() as usize,
                        self.ghost_smart_positions@[self.ghost_cursor_index as int].2,
                    ),
                )
            } else {
                None
            }),
    {
        if self.ghost_block_placement_mode && self.ghost_smart_positions.len() > 0 {
            if self.ghost_cursor_index < self.ghost_smart_positions.len() {
                let (_, _, needed) = self.ghost_smart_positions[self.ghost_cursor_index];
                return Some((self.ghost_cursor_index + 1, self.ghost_smart_positions.len(), needed));
            }
        }
        None
    }

    /// Place a ghost block at the current cursor position (with throwing animation)
    pub fn place_ghost_block(&mut self) -> (placed: bool)
        requires
            old(self).wf(),
        ensures
            final(self).wf(),
            placed == can_place_ghost_block(old(self)@),
            final(self)@ == (if placed {
                m_start_ghost_throw(old(self)@, old(self)@.ghost_cursor.0, old(self)@.ghost_cursor.1)
            } else {
                old(self)@
            }),
    {
        if self.ghost_block_placement_mode && self.ghost_blocks_available > 0
            && !self.ghost_throw_active {
            let (x, y) = self.ghost_block_cursor;
            // Check if position is valid (empty)
            if let Some(cell) = self.board.get_cell(x, y) {
                if cell.is_empty() {
                    // Start throwing animation instead of instant placement
                    self.start_ghost_throw(x, y);
                    return true;
                }
            }
        }
        false
    }

    /// Check if ghost block cursor should be visible (always visible when in placement mode)
    pub fn is_ghost_cursor_visible(&self) -> (visible: bool)
        ensures
            visible == self.ghost_block_placement_mode,
    {
        self.ghost_block_placement_mode
    }

    /// Check if TETRIS celebration is currently active
    pub fn is_tetris_celebration_active(&self) -> (active: bool)
        ensures
            active == self.tetris_celebration_active,
    {
        self.tetris_celebration_active
    }

    /// Start ghost block throwing animation
    fn start_ghost_throw(&mut self, target_x: i32, target_y: i32)
        requires
            old(self).wf(),
            old(self).ghost_blocks_available > 0,
        ensures
            final(self).wf(),
            final(self)@ == m_start_ghost_throw(old(self)@, target_x, target_y),
    {
        self.ghost_throw_active = true;
        self.ghost_throw_timer = 0;
        self.ghost_throw_target = (target_x, target_y);
        self.ghost_block_placement_mode = false;  // Exit placement mode
        // Simply reset lock delay state when exiting ghost block mode
        // Let natural game physics handle piece positioning
        if self.current_piece.is_some() {
            self.reset_lock_delay();
        }
    }

    /// Finish ghost block throwing animation and place the block
    fn finish_ghost_throw(&mut self)
        requires
            old(self).wf(),
            old(self).ghost_blocks_available > 0,
        ensures
            final(self).wf(),
            final(self)@ == m_finish_ghost_throw(old(self)@),
    {
        let (target_x, target_y) = self.ghost_throw_target;
        // Actually place the block now
        self.board.set_cell(target_x, target_y, Cell::Filled(GHOST_BLOCK_COLOR));
        self.ghost_blocks_available = self.ghost_blocks_available - 1;
        // The animation is over
        self.ghost_throw_active = false;
        self.ghost_throw_timer = 0;
        // Check if this placement creates any complete lines
        let complete_lines = self.board.find_complete_lines();
        if complete_lines.len() > 0 {
            self.start_line_clear_animation(complete_lines);
        }
    }

    /// Check if ghost throw animation is currently active
    pub fn is_ghost_throw_active(&self) -> (active: bool)
        ensures
            active == self.ghost_throw_active,
    {
        self.ghost_throw_active
    }

    /// Light validation for current piece - only handles extreme cases
    fn validate_current_piece_position(&mut self)
        requires
            old(self).wf(),
        ensures
            final(self).wf(),
            final(self)@ == (match old(self)@.current {
                Some(p) => if piece_fits(old(self)@.rows, p) {
                    old(self)@
                } else {
                    m_reset_lock_delay(old(self)@)
                },
                None => old(self)@,
            }),
    {
        // Only validate that we have a piece - don't force repositioning
        if let Some(piece) = &self.current_piece {
            proof {
                lemma_wf_cells_fit(*piece);
            }
            if !self.is_piece_valid(piece) {
                // Reset lock delay to give the piece a chance to find a valid position naturally
                self.reset_lock_delay();
            }
        }
    }

    /// Calculate where the current piece will land (ghost piece position)
    pub fn calculate_ghost_piece(&self) -> (landing: Option<Tetromino>)
        requires
            self.wf(),
        ensures
            match self@.current {
                Some(p) => if fall_distance(self@.rows, p) > 0 {
                    landing matches Some(g) && g.wf() && g@ == shifted(
                        p,
                        0,
                        fall_distance(self@.rows, p) as int,
                    )
                } else {
                    landing is None
                },
                None => landing is None,
            },
    {
        if let Some(current) = &self.current_piece {
            let ghost p0 = current@;
            let ghost rows = self.board.rows();
            let ghost mut d: int = 0;
            let mut ghost_piece = current.clone();
            // Drop the ghost piece as far as it can go
            loop
                invariant_except_break
                    self.wf(),
                    rows == self.board.rows(),
                    piece_wf(p0),
                    p0.position.1 <= 23,
                    0 <= d,
                    ghost_piece.wf(),
                    ghost_piece.position.1 <= 23,
                    ghost_piece@ == shifted(p0, 0, d),
                    ghost_piece.position.1 == p0.position.1 + d,
                    fall_distance(rows, p0) == d + fall_distance(rows, ghost_piece@),
                ensures
                    ghost_piece.wf(),
                    ghost_piece@ == shifted(p0, 0, d),
                    ghost_piece.position.1 == p0.position.1 + d,
                    fall_distance(rows, p0) == d,
                decreases 24 - ghost_piece.position.1,
            {
                let ghost before = ghost_piece@;
                ghost_piece.move_by(0, 1);
                proof {
                    lemma_shape_four_blocks(ghost_piece.piece_type, ghost_piece.rotation);
                    assert(ghost_piece@ == shifted(before, 0, 1));
                }
                if !self.is_piece_valid(&ghost_piece) {
                    // Move back one step to the last valid position
                    ghost_piece.move_by(0, -1);
                    proof {
                        assert(ghost_piece@ == before);
                    }
                    break;
                }
                proof {
                    lemma_fitting_piece_on_board(rows, ghost_piece@);
                    assert(shifted(before, 0, 1) == shifted(p0, 0, d + 1));
                    d = d + 1;
                }
            }
            // Only return ghost piece if it's different from current position
            if ghost_piece.position.1 != current.position.1 {
                return Some(ghost_piece);
            }
        }
        None
    }

    /// Check if the current piece placement qualifies as a T-spin
    /// Basic T-spin detection: T-piece + last action was rotation + surrounded by blocks/walls
    pub fn is_t_spin(&self) -> (t_spin: bool)
        requires
            self.wf(),
        ensures
            t_spin == match self.current_piece {
                Some(p) => self.last_action_was_rotation && three_corner_t(self.board, p),
                None => false,
            },
    {
        // Must have a current piece that is a T-piece
        if let Some(piece) = &self.current_piece {
            if piece.piece_type != TetrominoType::T {
                return false;
            }
            // Last action must have been a rotation
            if !self.last_action_was_rotation {
                return false;
            }
            // T-spin if at least 3 of the 4 corners around the centre are occupied
            count_occupied_corners(&self.board, piece.position.0, piece.position.1) >= 3
        } else {
            false
        }
    }

    /// Handle continuous soft drop
    pub fn update_soft_drop(&mut self, is_held: bool)
        requires
            old(self).wf(),
            is_held && old(self).soft_drop_timer >= SOFT_DROP_INTERVAL && move_succeeds(
                old(self)@,
                0,
                1,
            ) ==> old(self).score < u32::MAX,
        ensures
            final(self).wf(),
            final(self)@ == m_soft_drop(old(self)@, is_held),
    {
        proof {
            reveal(m_reset_lock_delay);
        }
        if is_held && self.soft_drop_timer >= SOFT_DROP_INTERVAL {
            proof {
                if self.current_piece is Some {
                    lemma_small_move_fits(self.current_piece->0, 0, 1);
                }
            }
            if self.move_piece(0, 1) {
                self.score = self.score + SCORE_SOFT_DROP;
                self.soft_drop_timer = 0;
            }
        }
        if !is_held {
            self.soft_drop_timer = SOFT_DROP_INTERVAL;  // Allow immediate drop when pressed
        }
    }

    /// Handle continuous left movement
    pub fn update_left_movement(&mut self, is_held: bool)
        requires
            old(self).wf(),
        ensures
            final(self).wf(),
            final(self)@ == m_left(old(self)@, is_held),
    {
        if is_held && self.left_move_timer >= HORIZONTAL_MOVE_INTERVAL {
            proof {
                if self.current_piece is Some {
                    lemma_small_move_fits(self.current_piece->0, -1, 0);
                }
            }
            self.move_piece(-1, 0);
            self.left_move_timer = 0;
        }
        if !is_held {
            self.left_move_timer = HORIZONTAL_MOVE_INTERVAL;  // Allow immediate move when pressed
        }
    }

    /// Handle continuous right movement
    pub fn update_right_movement(&mut self, is_held: bool)
        requires
            old(self).wf(),
        ensures
            final(self).wf(),
            final(self)@ == m_right(old(self)@, is_held),
    {
        if is_held && self.right_move_timer >= HORIZONTAL_MOVE_INTERVAL {
            proof {
                if self.current_piece is Some {
                    lemma_small_move_fits(self.current_piece->0, 1, 0);
                }
            }
            self.move_piece(1, 0);
            self.right_move_timer = 0;
        }
        if !is_held {
            self.right_move_timer = HORIZONTAL_MOVE_INTERVAL;  // Allow immediate move when pressed
        }
    }
}

impl Clone for Game {
    fn clone(&self) -> (copy: Self)
        ensures
            copy@ == self@,
            copy.wf() == self.wf(),
    {
        let current_piece = match &self.current_piece {
            Some(piece) => Some(piece.clone()),
            None => None,
        };
        let copy = Game {
            state: self.state,
            board: self.board.clone(),
            current_piece,
            next_piece: self.next_piece,
            held_piece: self.held_piece,
            hold_used_this_piece: self.hold_used_this_piece,
            score: self.score,
            drop_timer: self.drop_timer,
            drop_interval: self.drop_interval,
            game_time: self.game_time,
            clearing_lines: copy_lines(&self.clearing_lines),
            clear_animation_timer: self.clear_animation_timer,
            soft_drop_timer: self.soft_drop_timer,
            left_move_timer: self.left_move_timer,
            right_move_timer: self.right_move_timer,
            ghost_blocks_available: self.ghost_blocks_available,
            ghost_block_placement_mode: self.ghost_block_placement_mode,
            ghost_block_cursor: self.ghost_block_cursor,
            ghost_block_blink_timer: self.ghost_block_blink_timer,
            ghost_smart_positions: copy_targets(&self.ghost_smart_positions),
            ghost_cursor_index: self.ghost_cursor_index,
            piece_just_locked: self.piece_just_locked,
            lock_delay_timer: self.lock_delay_timer,
            piece_is_locking: self.piece_is_locking,
            lock_resets: self.lock_resets,
            piece_lifetime_timer: self.piece_lifetime_timer,
            tetris_celebration_active: self.tetris_celebration_active,
            tetris_celebration_timer: self.tetris_celebration_timer,
            ghost_throw_active: self.ghost_throw_active,
            ghost_throw_timer: self.ghost_throw_timer,
            ghost_throw_target: self.ghost_throw_target,
            legacy_mode: self.legacy_mode,
            last_action_was_rotation: self.last_action_was_rotation,
        };
        assert(copy.board.wf() == self.board.wf());
        assert(copy.current_piece is Some <==> self.current_piece is Some);
        assert(copy.current_piece is Some ==> copy.current_piece->0.blocks@
            == self.current_piece->0.blocks@ && copy.current_piece->0.position
            == self.current_piece->0.position && copy.current_piece->0.rotation
            == self.current_piece->0.rotation && copy.current_piece->0.piece_type
            == self.current_piece->0.piece_type);
        assert(copy.ghost_smart_positions@ == self.ghost_smart_positions@);
        copy
    }
}

/// A copy of a list of row indices.
fn copy_lines(lines: &Vec<usize>) -> (copy: Vec<usize>)
    ensures
        copy@ == lines@,
{
    let mut copy: Vec<usize> = Vec::new();
    for i in 0..lines.len()
        invariant
            copy@ == lines@.take(i as int),
    {
        copy.push(lines[i]);
        assert(copy@ =~= lines@.take(i + 1));
    }
    assert(lines@.take(lines@.len() as int) =~= lines@);
    copy
}

/// A copy of a list of ghost-block targets.
fn copy_targets(targets: &Vec<(i32, i32, u32)>) -> (copy: Vec<(i32, i32, u32)>)
    ensures
        copy@ == targets@,
{
    let mut copy: Vec<(i32, i32, u32)> = Vec::new();
    for i in 0..targets.len()
        invariant
            copy@ == targets@.take(i as int),
    {
        copy.push(targets[i]);
        assert(copy@ =~= targets@.take(i + 1));
    }
    assert(targets@.take(targets@.len() as int) =~= targets@);
    copy
}

impl Default for Game {
    fn default() -> (game: Self)
        ensures
            game.wf(),
            game.current_piece is Some,
            game@ == m_spawn(initial_view(game@.current->0.piece_type), game.next_piece),
    {
        Self::new()
    }
}

/// A hash of a list of words, by the standard library's default hasher.
pub uninterp spec fn hash_of_words(words: Seq<u64>) -> u64;

/// Hashes a list of words.
///
/// Hashes the vector with `BuildHasher::hash_one` of the default hasher
/// (`DefaultHasher`, which always starts from the same keys), so the same
/// words give the same hash.
#[verifier::external_body]
fn hash_words(words: &Vec<u64>) -> (hash: u64)
    ensures
        hash == hash_of_words(words@),
{
    let builder = std::hash::BuildHasherDefault::<std::collections::hash_map::DefaultHasher>::default();
    std::hash::BuildHasher::hash_one(&builder, words)
}

/// The number of a piece type, in the order of `TetrominoType::all`.
pub open spec fn type_number(t: TetrominoType) -> u64 {
    match t {
        TetrominoType::I => 0,
        TetrominoType::O => 1,
        TetrominoType::T => 2,
        TetrominoType::S => 3,
        TetrominoType::Z => 4,
        TetrominoType::J => 5,
        TetrominoType::L => 6,
    }
}

/// The number of a piece type.
fn type_word(t: TetrominoType) -> (n: u64)
    ensures
        n == type_number(t),
{
    match t {
        TetrominoType::I => 0,
        TetrominoType::O => 1,
        TetrominoType::T => 2,
        TetrominoType::S => 3,
        TetrominoType::Z => 4,
        TetrominoType::J => 5,
        TetrominoType::L => 6,
    }
}

/// A coordinate as a word: shifted up so that every `i32` maps to a
/// different non-negative number.
pub open spec fn coordinate_word(c: i32) -> u64 {
    (c + 0x8000_0000) as u64
}

/// The parts of a game that matter to a save, as words: score, lines,
/// level, ghost blocks; the current piece (a 1, its type, centre and
/// rotation) or a 0; the next piece; the held piece (0 for none, else one
/// more than its type); and the number of filled cells.
pub open spec fn state_words(g: Game) -> Seq<u64> {
    let head = seq![
        g.score as u64,
        g.board.spec_lines_cleared() as u64,
        g.board.spec_level() as u64,
        g.ghost_blocks_available as u64,
    ];
    let piece = match g.current_piece {
        Some(p) => seq![
            1u64,
            type_number(p.piece_type),
            coordinate_word(p.position.0),
            coordinate_word(p.position.1),
            p.rotation as u64,
        ],
        None => seq![0u64],
    };
    let held = match g.held_piece {
        Some(t) => (type_number(t) + 1) as u64,
        None => 0u64,
    };
    head + piece + seq![
        type_number(g.next_piece),
        held,
        crate::board::count_filled(g.board.rows(), 24) as u64,
    ]
}

/// `v` held between `lo` and `hi`.
fn clamp_coord(v: i32, lo: i32, hi: i32) -> (c: i32)
    requires
        lo <= hi,
    ensures
        c == clamp(v as int, lo as int, hi as int),
{
    if v < lo {
        lo
    } else if v > hi {
        hi
    } else {
        v
    }
}

/// The index of the first target at (x, y), if any.
fn find_target(positions: &Vec<(i32, i32, u32)>, x: i32, y: i32) -> (found: Option<usize>)
    ensures
        match found {
            Some(i) => i < positions@.len() && target_index(positions@, x, y) == Some(i as int),
            None => target_index(positions@, x, y) is None,
        },
{
    let ghost ps = positions@;
    for i in 0..positions.len()
        invariant
            ps == positions@,
            forall|j: int| 0 <= j < i ==> !(#[trigger] ps[j].0 == x && ps[j].1 == y),
    {
        let (px, py, _) = positions[i];
        if px == x && py == y {
            proof {
                assert(ps[i as int].0 == x && ps[i as int].1 == y);
                let c = choose|c: int|
                    0 <= c < ps.len() && ps[c].0 == x && ps[c].1 == y && forall|j: int|
                        0 <= j < c ==> !(ps[j].0 == x && ps[j].1 == y);
                assert(0 <= c < ps.len() && ps[c].0 == x && ps[c].1 == y && forall|j: int|
                    0 <= j < c ==> !(ps[j].0 == x && ps[j].1 == y));
                if c < i {
                    assert(!(ps[c].0 == x && ps[c].1 == y));
                }
                if c > i {
                    assert(!(ps[i as int].0 == x && ps[i as int].1 == y));
                }
            }
            return Some(i);
        }
    }
    None
}


/// Targets found so far by a scan that has reached cell (x, y) (rows 4 and
/// down, left to right): ranked, each a real target with the blocks its row
/// needs, each already scanned, and every scanned target present.
pub open spec fn targets_so_far(rows: Seq<Seq<Cell>>, ps: Seq<(i32, i32, u32)>, x: int, y: int) -> bool {
    &&& rows.len() == 24
    &&& forall|r: int| 0 <= r < 24 ==> #[trigger] rows[r].len() == 10
    &&& forall|i: int| 0 <= i < ps.len() ==> {
        &&& is_candidate(rows, #[trigger] ps[i].0 as int, ps[i].1 as int)
        &&& ps[i].2 == blocks_needed(rows, ps[i].1 as int)
        &&& (ps[i].1 < y || (ps[i].1 == y && ps[i].0 < x))
    }
    &&& forall|cx: int, cy: int|
        #[trigger] is_candidate(rows, cx, cy) && (cy < y || (cy == y && cx < x)) ==> exists|i: int|
            0 <= i < ps.len() && #[trigger] ps[i].0 == cx && ps[i].1 == cy
    &&& forall|i: int, j: int| 0 <= i < j < ps.len() ==> ranks_before(ps[i], ps[j])
}

#[verifier::spinoff_prover]
pub proof fn lemma_targets_after_insert(
    rows: Seq<Seq<Cell>>,
    before: Seq<(i32, i32, u32)>,
    after: Seq<(i32, i32, u32)>,
    e: (i32, i32, u32),
    x: int,
    y: int,
)
    requires
        targets_so_far(rows, before, x, y),
        is_candidate(rows, x, y),
        e == (x as i32, y as i32, blocks_needed(rows, y) as u32),
        exists|pos: int| 0 <= pos <= before.len() && after == before.insert(pos, e),
        forall|i: int, j: int| 0 <= i < j < after.len() ==> ranks_before(after[i], after[j]),
    ensures
        targets_so_far(rows, after, x + 1, y),
{
    let pos = choose|pos: int| 0 <= pos <= before.len() && after == before.insert(pos, e);
    crate::board::lemma_count_filled_row_bound(rows[y], 10);
    assert(e.2 == blocks_needed(rows, y));
    assert forall|i: int| 0 <= i < after.len() implies {
        &&& is_candidate(rows, #[trigger] after[i].0 as int, after[i].1 as int)
        &&& after[i].2 == blocks_needed(rows, after[i].1 as int)
        &&& (after[i].1 < y || (after[i].1 == y && after[i].0 < x + 1))
    } by {
        if i < pos {
            assert(after[i] == before[i]);
            assert(is_candidate(rows, before[i].0 as int, before[i].1 as int));
        } else if i > pos {
            assert(after[i] == before[i - 1]);
            assert(is_candidate(rows, before[i - 1].0 as int, before[i - 1].1 as int));
        } else {
            assert(after[i] == e);
        }
    }
    assert forall|cx: int, cy: int|
        #[trigger] is_candidate(rows, cx, cy) && (cy < y || (cy == y && cx < x + 1)) implies exists|
        i: int,
    | 0 <= i < after.len() && #[trigger] after[i].0 == cx && after[i].1 == cy by {
        if cx == x && cy == y {
            assert(after[pos].0 == cx && after[pos].1 == cy);
        } else {
            let i = choose|i: int| 0 <= i < before.len() && #[trigger] before[i].0 == cx && before[i].1 == cy;
            if i < pos {
                assert(after[i] == before[i]);
                assert(after[i].0 == cx && after[i].1 == cy);
            } else {
                assert(after[i + 1] == before[i]);
                assert(after[i + 1].0 == cx && after[i + 1].1 == cy);
            }
        }
    }
}

#[verifier::spinoff_prover]
pub proof fn lemma_targets_next_cell(
    rows: Seq<Seq<Cell>>,
    before: Seq<(i32, i32, u32)>,
    after: Seq<(i32, i32, u32)>,
    x: int,
    y: int,
)
    requires
        targets_so_far(rows, before, x, y),
        targets_so_far(rows, after, x + 1, y) || (after == before && !is_candidate(rows, x, y)),
    ensures
        targets_so_far(rows, after, x + 1, y),
{
    if after == before && !is_candidate(rows, x, y) {
        assert forall|i: int| 0 <= i < after.len() implies {
            &&& is_candidate(rows, #[trigger] after[i].0 as int, after[i].1 as int)
            &&& after[i].2 == blocks_needed(rows, after[i].1 as int)
            &&& (after[i].1 < y || (after[i].1 == y && after[i].0 < x + 1))
        } by {
            assert(is_candidate(rows, before[i].0 as int, before[i].1 as int));
        }
        assert forall|cx: int, cy: int|
            #[trigger] is_candidate(rows, cx, cy) && (cy < y || (cy == y && cx < x + 1)) implies exists|
            i: int,
        | 0 <= i < after.len() && #[trigger] after[i].0 == cx && after[i].1 == cy by {
            assert(cy < y || (cy == y && cx < x));
        }
    }
}

#[verifier::spinoff_prover]
pub proof fn lemma_targets_next_row(rows: Seq<Seq<Cell>>, ps: Seq<(i32, i32, u32)>, y: int)
    requires
        targets_so_far(rows, ps, 10, y),
    ensures
        targets_so_far(rows, ps, 0, y + 1),
{
    assert forall|i: int| 0 <= i < ps.len() implies {
        &&& is_candidate(rows, #[trigger] ps[i].0 as int, ps[i].1 as int)
        &&& ps[i].2 == blocks_needed(rows, ps[i].1 as int)
        &&& (ps[i].1 < y + 1 || (ps[i].1 == y + 1 && ps[i].0 < 0))
    } by {
        assert(is_candidate(rows, ps[i].0 as int, ps[i].1 as int));
    }
    assert forall|cx: int, cy: int|
        #[trigger] is_candidate(rows, cx, cy) && (cy < y + 1 || (cy == y + 1 && cx < 0)) implies exists|
        i: int,
    | 0 <= i < ps.len() && #[trigger] ps[i].0 == cx && ps[i].1 == cy by {
        assert(cy < y || (cy == y && cx < 10));
    }
}

#[verifier::spinoff_prover]
pub proof fn lemma_targets_done(rows: Seq<Seq<Cell>>, ps: Seq<(i32, i32, u32)>)
    requires
        targets_so_far(rows, ps, 0, 24),
    ensures
        ranked_targets(rows, ps),
{
    assert forall|i: int| 0 <= i < ps.len() implies is_candidate(
        rows,
        #[trigger] ps[i].0 as int,
        ps[i].1 as int,
    ) && ps[i].2 == blocks_needed(rows, ps[i].1 as int) by {
        assert(is_candidate(rows, ps[i].0 as int, ps[i].1 as int));
    }
    assert forall|cx: int, cy: int| #[trigger] is_candidate(rows, cx, cy) implies exists|i: int|
        0 <= i < ps.len() && #[trigger] ps[i].0 == cx && ps[i].1 == cy by {
        assert(cy < 24);
    }
}

/// Whether target `a` ranks before target `b`.
fn ranks_before_exec(a: (i32, i32, u32), b: (i32, i32, u32)) -> (before: bool)
    requires
        0 <= a.0 < 10,
        0 <= b.0 < 10,
    ensures
        before == ranks_before(a, b),
{
    // Primary: blocks needed (ascending - fewer is better)
    if a.2 != b.2 {
        return a.2 < b.2;
    }
    // Secondary: row position (descending - lower rows first)
    if a.1 != b.1 {
        return a.1 > b.1;
    }
    // Tertiary: distance from center (ascending - closer to center is better)
    let center = (BOARD_WIDTH / 2) as i32;
    let dist_a = if a.0 >= center {
        a.0 - center
    } else {
        center - a.0
    };
    let dist_b = if b.0 >= center {
        b.0 - center
    } else {
        center - b.0
    };
    if dist_a != dist_b {
        return dist_a < dist_b;
    }
    // Equal rank otherwise: the earlier column comes first
    a.0 < b.0
}

/// Inserts a target into a ranked list, keeping it ranked.
fn insert_ranked(positions: &mut Vec<(i32, i32, u32)>, e: (i32, i32, u32))
    requires
        forall|i: int, j: int|
            0 <= i < j < old(positions)@.len() ==> ranks_before(old(positions)@[i], old(positions)@[j]),
        forall|i: int|
            #![trigger old(positions)@[i]]
            0 <= i < old(positions)@.len() ==> {
                &&& 0 <= old(positions)@[i].0 < 10
                &&& (old(positions)@[i].0 != e.0 || old(positions)@[i].1 != e.1)
                &&& (old(positions)@[i].1 == e.1 ==> old(positions)@[i].2 == e.2)
            },
        0 <= e.0 < 10,
    ensures
        exists|pos: int|
            0 <= pos <= old(positions)@.len() && final(positions)@ == old(positions)@.insert(pos, e),
        forall|i: int, j: int|
            0 <= i < j < final(positions)@.len() ==> ranks_before(
                final(positions)@[i],
                final(positions)@[j],
            ),
{
    let ghost old_ps = positions@;
    let mut pos: usize = 0;
    while pos < positions.len()
        invariant_except_break
            positions@ == old_ps,
            pos <= old_ps.len(),
            forall|j: int| 0 <= j < pos ==> ranks_before(old_ps[j], e),
            forall|i: int|
                #![trigger old_ps[i]]
                0 <= i < old_ps.len() ==> {
                    &&& 0 <= old_ps[i].0 < 10
                    &&& (old_ps[i].0 != e.0 || old_ps[i].1 != e.1)
                    &&& (old_ps[i].1 == e.1 ==> old_ps[i].2 == e.2)
                },
            0 <= e.0 < 10,
        ensures
            positions@ == old_ps,
            pos <= old_ps.len(),
            forall|j: int| 0 <= j < pos ==> ranks_before(old_ps[j], e),
            pos < old_ps.len() ==> ranks_before(e, old_ps[pos as int]),
        decreases old_ps.len() - pos,
    {
        if ranks_before_exec(e, positions[pos]) {
            break;
        }
        proof {
            lemma_ranks_before_total(old_ps[pos as int], e);
        }
        pos = pos + 1;
    }
    positions.insert(pos, e);
    proof {
        let new_ps = positions@;
        assert(new_ps == old_ps.insert(pos as int, e));
        assert forall|i: int, j: int| 0 <= i < j < new_ps.len() implies ranks_before(
            new_ps[i],
            new_ps[j],
        ) by {
            if j < pos {
                assert(new_ps[i] == old_ps[i] && new_ps[j] == old_ps[j]);
            } else if j == pos {
                assert(new_ps[i] == old_ps[i]);
            } else if i < pos {
                assert(new_ps[i] == old_ps[i] && new_ps[j] == old_ps[j - 1]);
                if j - 1 > pos {
                    lemma_ranks_before_transitive(e, old_ps[pos as int], old_ps[j - 1]);
                }
                lemma_ranks_before_transitive(old_ps[i], e, old_ps[j - 1]);
            } else if i == pos {
                assert(new_ps[j] == old_ps[j - 1]);
                if j - 1 > pos {
                    lemma_ranks_before_transitive(e, old_ps[pos as int], old_ps[j - 1]);
                }
            } else {
                assert(new_ps[i] == old_ps[i - 1] && new_ps[j] == old_ps[j - 1]);
            }
        }
    }
}

} // verus!
