//! What the player's keys do to the game in a frame, and which sounds the
//! game's events call for.
//!
//! The keys are read, and the sounds played, around the library; here they
//! are plain values.

use vstd::prelude::*;

use super::config::SOFT_DROP_INTERVAL;
use super::model::{
    can_place_ghost_block,
    hard_drop_fits,
    hold_succeeds,
    initial_view,
    m_hard_drop,
    m_hold,
    m_left,
    m_move_ghost_block_cursor,
    m_next_smart_position,
    m_previous_smart_position,
    m_right,
    m_rotate,
    m_soft_drop,
    m_spawn,
    m_start_ghost_throw,
    m_toggle_ghost_block_mode,
    move_succeeds,
    ranked_targets,
    rotate_succeeds,
    GameView,
};
use super::state::{Game, GameState};
use crate::audio::system::{cue, SoundCue, SoundType};
use crate::tetromino::TetrominoType;

verus! {

/// The keys of one frame: those pressed during the frame, and those held
/// down.
#[derive(Debug, Clone, Copy, Default)]
pub struct KeyInput {
    /// Escape pressed: quit
    pub quit: bool,
    /// S pressed with left Control down: save
    pub save: bool,
    /// R pressed: start a new game
    pub reset: bool,
    /// P pressed: pause or resume
    pub pause: bool,
    /// B pressed: enter ghost-block mode, or throw the block when in it
    pub ghost_block: bool,
    /// M pressed: next ghost-block target
    pub next_target: bool,
    /// N pressed: previous ghost-block target
    pub previous_target: bool,
    /// Up arrow pressed
    pub up: bool,
    /// Down arrow pressed
    pub down: bool,
    /// Left arrow pressed
    pub left: bool,
    /// Right arrow pressed
    pub right: bool,
    /// Left or right arrow, A or D pressed
    pub side_pressed: bool,
    /// Left arrow or A held down
    pub left_held: bool,
    /// Right arrow or D held down
    pub right_held: bool,
    /// Down arrow or S held down
    pub soft_drop_held: bool,
    /// Up arrow, X or W pressed: rotate clockwise
    pub rotate_clockwise: bool,
    /// Z pressed: rotate counterclockwise
    pub rotate_counterclockwise: bool,
    /// Space pressed: hard drop
    pub hard_drop: bool,
    /// C pressed: hold
    pub hold: bool,
}

/// What a frame's keys ask of the program around the game.
#[derive(Debug, Clone, Copy, PartialEq, Eq, Structural)]
pub enum ControlAction {
    /// Keep playing
    Continue,
    /// Quit the program
    Quit,
    /// Save the game (and click when the save succeeds)
    Save,
}

/// The outcome of a frame's keys: an action for the program and the sounds
/// to play.
#[derive(Debug)]
pub struct ControlResponse {
    pub action: ControlAction,
    pub sounds: Vec<SoundCue>,
}

/// The B key: it enters placement mode (with the targets `ps`), or throws
/// the block when in it.
pub open spec fn m_ghost_key(v: GameView, k: KeyInput, ps: Seq<(i32, i32, u32)>) -> GameView {
    if k.ghost_block {
        if v.ghost_mode {
            if can_place_ghost_block(v) {
                m_start_ghost_throw(v, v.ghost_cursor.0, v.ghost_cursor.1)
            } else {
                v
            }
        } else {
            m_toggle_ghost_block_mode(v, ps)
        }
    } else {
        v
    }
}

/// While in placement mode, M and N step through the targets and the arrows
/// move the cursor.
pub open spec fn m_cursor_keys(v: GameView, k: KeyInput) -> GameView {
    if v.ghost_mode {
        let v2 = if k.next_target {
            m_next_smart_position(v)
        } else {
            v
        };
        let v3 = if k.previous_target {
            m_previous_smart_position(v2)
        } else {
            v2
        };
        let v4 = if k.up {
            m_move_ghost_block_cursor(v3, 0, -1)
        } else {
            v3
        };
        let v5 = if k.down {
            m_move_ghost_block_cursor(v4, 0, 1)
        } else {
            v4
        };
        let v6 = if k.left {
            m_move_ghost_block_cursor(v5, -1, 0)
        } else {
            v5
        };
        if k.right {
            m_move_ghost_block_cursor(v6, 1, 0)
        } else {
            v6
        }
    } else {
        v
    }
}

/// The ghost-block keys: B, then the placement-mode keys.
pub open spec fn m_ghost_controls(v: GameView, k: KeyInput, ps: Seq<(i32, i32, u32)>) -> GameView {
    m_cursor_keys(m_ghost_key(v, k, ps), k)
}

/// The game after the side moves and the soft drop of a frame.
pub open spec fn m_moves(v: GameView, k: KeyInput) -> GameView {
    m_soft_drop(m_right(m_left(v, k.left_held), k.right_held), k.soft_drop_held)
}

/// The game after the moves and the turns of a frame.
pub open spec fn m_turns(v: GameView, k: KeyInput) -> GameView {
    let v1 = m_moves(v, k);
    let v2 = if k.rotate_clockwise {
        m_rotate(v1, true)
    } else {
        v1
    };
    if k.rotate_counterclockwise {
        m_rotate(v2, false)
    } else {
        v2
    }
}

/// The play keys: side moves, soft drop, turns, hard drop and hold, in that
/// order; `drawn` and `drawn_again` are the pieces drawn when a piece
/// enters.
pub open spec fn m_play_controls(
    v: GameView,
    k: KeyInput,
    drawn: TetrominoType,
    drawn_again: TetrominoType,
) -> GameView {
    let v3 = m_turns(v, k);
    let v4 = if k.hard_drop {
        m_hard_drop(v3, drawn)
    } else {
        v3
    };
    if k.hold {
        m_hold(v4, drawn_again)
    } else {
        v4
    }
}

/// The sounds of the play keys: a click for a side key pressed, a louder
/// click for each turn made, the hard-drop thud, and the hold sound when the
/// hold worked.
pub open spec fn play_sounds(v: GameView, k: KeyInput, drawn: TetrominoType) -> Seq<SoundCue> {
    let v1 = m_moves(v, k);
    let v2 = if k.rotate_clockwise {
        m_rotate(v1, true)
    } else {
        v1
    };
    let v3 = m_turns(v, k);
    let v4 = if k.hard_drop {
        m_hard_drop(v3, drawn)
    } else {
        v3
    };
    let s0: Seq<SoundCue> = if k.side_pressed {
        seq![cue(SoundType::UiClick, 60)]
    } else {
        seq![]
    };
    let s1 = if k.rotate_clockwise && rotate_succeeds(v1, true) {
        s0.push(cue(SoundType::UiClick, 80))
    } else {
        s0
    };
    let s2 = if k.rotate_counterclockwise && rotate_succeeds(v2, false) {
        s1.push(cue(SoundType::UiClick, 80))
    } else {
        s1
    };
    let s3 = if k.hard_drop {
        s2.push(cue(SoundType::HardDrop, 100))
    } else {
        s2
    };
    if k.hold && hold_succeeds(v4) {
        s3.push(cue(SoundType::HoldPiece, 100))
    } else {
        s3
    }
}

/// The play keys keep the score within a `u32`: the soft drop's point and
/// the hard drop's points fit.
pub open spec fn play_controls_fit(v: GameView, k: KeyInput) -> bool {
    let v1 = m_right(m_left(v, k.left_held), k.right_held);
    &&& k.soft_drop_held && v1.soft_timer >= SOFT_DROP_INTERVAL && move_succeeds(v1, 0, 1)
        ==> v1.score < u32::MAX
    &&& k.hard_drop ==> hard_drop_fits(m_turns(v, k))
}

/// The play keys keep the score within a `u32`, whatever targets an entry
/// into placement mode finds.
pub open spec fn controls_fit(v: GameView, k: KeyInput) -> bool {
    forall|ps: Seq<(i32, i32, u32)>|
        (enters_placement(v, k) ==> ranked_targets(v.rows, ps)) ==> #[trigger] play_controls_fit(
            m_ghost_controls(v, k, ps),
            k,
        )
}

/// A paused game resumes, a running one pauses.
pub open spec fn pause_toggled(v: GameView) -> GameView {
    GameView {
        state: match v.state {
            GameState::Playing => GameState::Paused,
            GameState::Paused => GameState::Playing,
            other => other,
        },
        ..v
    }
}

/// The system keys, in order of precedence: quit, save, reset, pause
/// (while playing or paused).
pub open spec fn requested_action(k: KeyInput) -> ControlAction {
    if k.quit {
        ControlAction::Quit
    } else if k.save {
        ControlAction::Save
    } else {
        ControlAction::Continue
    }
}

/// B pressed out of placement mode, with a ghost block to place: the targets
/// are ranked afresh.
pub open spec fn enters_placement(v: GameView, k: KeyInput) -> bool {
    k.ghost_block && !v.ghost_mode && v.ghost_available > 0
}

/// The B key.
fn apply_ghost_key(game: &mut Game, keys: &KeyInput)
    requires
        old(game).wf(),
    ensures
        final(game).wf(),
        final(game)@ == m_ghost_key(old(game)@, *keys, final(game)@.smart_positions),
        enters_placement(old(game)@, *keys) ==> ranked_targets(
            old(game)@.rows,
            final(game)@.smart_positions,
        ),
{
    if keys.ghost_block {
        if game.ghost_block_placement_mode {
            // B to place block when in placement mode
            game.place_ghost_block();
        } else {
            // B to activate ghost block placement mode
            game.toggle_ghost_block_mode();
        }
    }
}

/// The placement-mode keys.
fn apply_cursor_keys(game: &mut Game, keys: &KeyInput)
    requires
        old(game).wf(),
    ensures
        final(game).wf(),
        final(game)@ == m_cursor_keys(old(game)@, *keys),
{
    // Ghost block cursor movement (only when in placement mode)
    if game.ghost_block_placement_mode {
        if keys.next_target {
            game.next_smart_position();
        }
        if keys.previous_target {
            game.previous_smart_position();
        }
        // Also allow arrow keys for manual fine-tuning
        if keys.up {
            game.move_ghost_block_cursor(0, -1);
        }
        if keys.down {
            game.move_ghost_block_cursor(0, 1);
        }
        if keys.left {
            game.move_ghost_block_cursor(-1, 0);
        }
        if keys.right {
            game.move_ghost_block_cursor(1, 0);
        }
    }
}

/// The ghost-block keys.
fn apply_ghost_controls(game: &mut Game, keys: &KeyInput)
    requires
        old(game).wf(),
    ensures
        final(game).wf(),
        final(game)@ == m_ghost_controls(old(game)@, *keys, final(game)@.smart_positions),
        enters_placement(old(game)@, *keys) ==> ranked_targets(
            old(game)@.rows,
            final(game)@.smart_positions,
        ),
{
    apply_ghost_key(game, keys);
    let ghost mid = game@;
    apply_cursor_keys(game, keys);
    assert(game@.smart_positions == mid.smart_positions);
}

/// The play keys.
fn apply_play_controls(game: &mut Game, keys: &KeyInput) -> (sounds: Vec<SoundCue>)
    requires
        old(game).wf(),
        play_controls_fit(old(game)@, *keys),
    ensures
        final(game).wf(),
        exists|drawn: TetrominoType, drawn_again: TetrominoType|
            final(game)@ == m_play_controls(old(game)@, *keys, drawn, drawn_again) && sounds@
                == play_sounds(old(game)@, *keys, drawn),
{
    let ghost v0 = game@;
    let mut sounds: Vec<SoundCue> = Vec::new();
    // Play movement sound on initial press only
    if keys.side_pressed {
        sounds.push(SoundCue { sound: SoundType::UiClick, volume_percent: 60 });
    }
    game.update_left_movement(keys.left_held);
    game.update_right_movement(keys.right_held);
    // Continuous soft drop
    game.update_soft_drop(keys.soft_drop_held);
    assert(game@ == m_moves(v0, *keys));
    // Rotation
    if keys.rotate_clockwise {
        if game.rotate_piece_clockwise() {
            sounds.push(SoundCue { sound: SoundType::UiClick, volume_percent: 80 });
        }
    }
    if keys.rotate_counterclockwise {
        if game.rotate_piece_counterclockwise() {
            sounds.push(SoundCue { sound: SoundType::UiClick, volume_percent: 80 });
        }
    }
    assert(game@ == m_turns(v0, *keys));
    // Hard drop
    if keys.hard_drop {
        game.hard_drop();
        sounds.push(SoundCue { sound: SoundType::HardDrop, volume_percent: 100 });
    }
    let ghost drawn = game.next_piece;
    // Hold piece
    if keys.hold {
        if game.hold_piece() {
            sounds.push(SoundCue { sound: SoundType::HoldPiece, volume_percent: 100 });
        }
    }
    let ghost drawn_again = game.next_piece;
    assert(game@ == m_play_controls(v0, *keys, drawn, drawn_again));
    assert(sounds@ == play_sounds(v0, *keys, drawn));
    sounds
}

/// No system key acts and the game is running: the ghost-block and play keys
/// are read.
pub open spec fn reaches_play_keys(v: GameView, k: KeyInput) -> bool {
    &&& !k.quit
    &&& !k.save
    &&& !k.reset
    &&& !(k.pause && (v.state == GameState::Playing || v.state == GameState::Paused))
    &&& v.state == GameState::Playing
}

/// The game and the sounds after a frame's keys: `ps` are the targets found
/// on entering placement mode, and `drawn`, `drawn_again` the pieces drawn
/// (the first piece and the next one of a new game, or those drawn when
/// pieces enter).
pub open spec fn controls_outcome(
    v: GameView,
    k: KeyInput,
    ps: Seq<(i32, i32, u32)>,
    drawn: TetrominoType,
    drawn_again: TetrominoType,
) -> (GameView, Seq<SoundCue>) {
    if k.quit || k.save {
        (v, seq![])
    } else if k.reset {
        (m_spawn(initial_view(drawn), drawn_again), seq![cue(SoundType::UiClick, 100)])
    } else if k.pause && (v.state == GameState::Playing || v.state == GameState::Paused) {
        (pause_toggled(v), seq![cue(SoundType::Pause, 100)])
    } else if v.state != GameState::Playing {
        (v, seq![])
    } else {
        game_keys_outcome(v, k, ps, drawn, drawn_again)
    }
}

/// The game and the sounds after the ghost-block keys, then (out of
/// placement mode) the play keys.
#[verifier::opaque]
pub open spec fn game_keys_outcome(
    v: GameView,
    k: KeyInput,
    ps: Seq<(i32, i32, u32)>,
    drawn: TetrominoType,
    drawn_again: TetrominoType,
) -> (GameView, Seq<SoundCue>) {
    let g = m_ghost_controls(v, k, ps);
    if g.ghost_mode {
        (g, seq![])
    } else {
        (m_play_controls(g, k, drawn, drawn_again), play_sounds(g, k, drawn))
    }
}

/// The ghost-block keys, then (out of placement mode) the play keys.
fn apply_game_keys(game: &mut Game, keys: &KeyInput) -> (sounds: Vec<SoundCue>)
    requires
        old(game).wf(),
        controls_fit(old(game)@, *keys),
    ensures
        final(game).wf(),
        exists|
            ps: Seq<(i32, i32, u32)>,
            drawn: TetrominoType,
            drawn_again: TetrominoType,
        |
            (enters_placement(old(game)@, *keys) ==> ranked_targets(old(game)@.rows, ps)) && (
            final(game)@,
            sounds@,
        ) == game_keys_outcome(old(game)@, *keys, ps, drawn, drawn_again),
{
    reveal(game_keys_outcome);
    let ghost v0 = game@;
    // Ghost block controls (available during normal play)
    apply_ghost_controls(game, keys);
    let ghost ps = game@.smart_positions;
    let ghost g = game@;
    if game.ghost_block_placement_mode {
        let sounds: Vec<SoundCue> = Vec::new();
        assert((game@, sounds@) == game_keys_outcome(v0, *keys, ps, game.next_piece, game.next_piece));
        return sounds;  // Skip normal game controls when in placement mode
    }
    assert(play_controls_fit(g, *keys));
    let play = apply_play_controls(game, keys);
    let ghost (drawn, drawn_again) = choose|drawn: TetrominoType, drawn_again: TetrominoType|
        game@ == m_play_controls(g, *keys, drawn, drawn_again) && play@ == play_sounds(
            g,
            *keys,
            drawn,
        );
    assert((game@, play@) == game_keys_outcome(v0, *keys, ps, drawn, drawn_again));
    play
}

/// Handle the player's keys for a frame: the game is changed as they ask,
/// and the response says what the program around the game should do and
/// which sounds to play.
pub fn handle_controls(game: &mut Game, keys: &KeyInput) -> (response: ControlResponse)
    requires
        old(game).wf(),
        controls_fit(old(game)@, *keys),
    ensures
        final(game).wf(),
        response.action == requested_action(*keys),
        exists|
            ps: Seq<(i32, i32, u32)>,
            drawn: TetrominoType,
            drawn_again: TetrominoType,
        |
            (reaches_play_keys(old(game)@, *keys) && enters_placement(old(game)@, *keys)
                ==> ranked_targets(old(game)@.rows, ps)) && (final(game)@, response.sounds@)
                == controls_outcome(old(game)@, *keys, ps, drawn, drawn_again),
{
    let ghost v0 = game@;
    let mut sounds: Vec<SoundCue> = Vec::new();
    // Quit game
    if keys.quit {
        assert((game@, sounds@) == controls_outcome(v0, *keys, seq![], game.next_piece, game.next_piece));
        return ControlResponse { action: ControlAction::Quit, sounds };
    }
    // Save game - available in any state
    if keys.save {
        assert((game@, sounds@) == controls_outcome(v0, *keys, seq![], game.next_piece, game.next_piece));
        return ControlResponse { action: ControlAction::Save, sounds };
    }
    // Reset game - available in any state
    if keys.reset {
        game.reset();
        sounds.push(SoundCue { sound: SoundType::UiClick, volume_percent: 100 });
        assert((game@, sounds@) == controls_outcome(
            v0,
            *keys,
            seq![],
            game@.current->0.piece_type,
            game.next_piece,
        ));
        return ControlResponse { action: ControlAction::Continue, sounds };
    }
    // Pause toggle - available when playing or paused
    if keys.pause && (game.state == GameState::Playing || game.state == GameState::Paused) {
        game.toggle_pause();
        sounds.push(SoundCue { sound: SoundType::Pause, volume_percent: 100 });
        assert((game@, sounds@) == controls_outcome(v0, *keys, seq![], game.next_piece, game.next_piece));
        return ControlResponse { action: ControlAction::Continue, sounds };
    }
    // Only handle game controls when playing
    if game.state != GameState::Playing {
        assert((game@, sounds@) == controls_outcome(v0, *keys, seq![], game.next_piece, game.next_piece));
        return ControlResponse { action: ControlAction::Continue, sounds };
    }
    let sounds = apply_game_keys(game, keys);
    proof {
        let (ps, drawn, drawn_again) = choose|
            ps: Seq<(i32, i32, u32)>,
            drawn: TetrominoType,
            drawn_again: TetrominoType,
        |
            (enters_placement(v0, *keys) ==> ranked_targets(v0.rows, ps)) && (game@, sounds@)
                == game_keys_outcome(v0, *keys, ps, drawn, drawn_again);
        assert((game@, sounds@) == controls_outcome(v0, *keys, ps, drawn, drawn_again));
    }
    ControlResponse { action: ControlAction::Continue, sounds }
}

/// The sounds that the game's events of a frame call for: the game-over
/// sound on the frame the game ends (and nothing else once it is over), the
/// line-clear sound when rows start clearing, the snap of a piece that
/// locked, and the level-up sound.
pub open spec fn event_sounds(
    state: GameState,
    clearing: bool,
    just_locked: bool,
    level: u32,
    prev_level: u32,
    was_clearing: bool,
    prev_state: GameState,
) -> Seq<SoundCue> {
    if state == GameState::GameOver {
        if prev_state == GameState::Playing {
            seq![cue(SoundType::GameOver, 100)]
        } else {
            seq![]
        }
    } else {
        let s0: Seq<SoundCue> = if !was_clearing && clearing {
            seq![cue(SoundType::LineClear, 100)]
        } else {
            seq![]
        };
        let s1 = if just_locked && !clearing {
            s0.push(cue(SoundType::PieceSnap, 80))
        } else {
            s0
        };
        if level > prev_level {
            s1.push(cue(SoundType::LevelComplete, 100))
        } else {
            s1
        }
    }
}

/// The sounds for the game's events since the previous frame, given what
/// the game was before the frame's update.
pub fn detect_audio_events(
    game: &Game,
    _prev_score: u32,
    prev_level: u32,
    _prev_lines_cleared: u32,
    was_clearing_lines: bool,
    prev_state: GameState,
) -> (sounds: Vec<SoundCue>)
    ensures
        sounds@ == event_sounds(
            game.state,
            game.clearing_lines@.len() > 0,
            game.piece_just_locked,
            game.board.spec_level(),
            prev_level,
            was_clearing_lines,
            prev_state,
        ),
{
    let mut sounds: Vec<SoundCue> = Vec::new();
    // Don't play any gameplay sounds during game over state to prevent spam
    if game.state == GameState::GameOver {
        // Only play game over sound when transitioning to game over
        if prev_state == GameState::Playing {
            sounds.push(SoundCue { sound: SoundType::GameOver, volume_percent: 100 });
        }
        return sounds;  // Exit early to prevent other sounds during game over
    }
    // Line clearing sound (when lines start clearing)
    if !was_clearing_lines && game.is_clearing_lines() {
        sounds.push(SoundCue { sound: SoundType::LineClear, volume_percent: 100 });
    }
    // Piece lock sound (when a piece was just locked, but not during line clearing)
    if game.piece_just_locked && !game.is_clearing_lines() {
        sounds.push(SoundCue { sound: SoundType::PieceSnap, volume_percent: 80 });
    }
    // Level up sound
    if game.level() > prev_level {
        sounds.push(SoundCue { sound: SoundType::LevelComplete, volume_percent: 100 });
    }
    sounds
}

} // verus!
