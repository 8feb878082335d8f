use rust_tetris::audio::system::{SoundCue, SoundType};
use rust_tetris::game::controls::{detect_audio_events, handle_controls, ControlAction, KeyInput};
use rust_tetris::game::frame_fit::{controls_fit_now, try_handle_controls};
use rust_tetris::game::{Game, GameState};
use rust_tetris::tetromino::{Tetromino, TetrominoType};

fn game_with(piece_type: TetrominoType) -> Game {
    let mut game = Game::new();
    game.current_piece = Some(Tetromino::new(piece_type));
    game.next_piece = TetrominoType::I;
    game
}

fn cue(sound: SoundType, volume_percent: u32) -> SoundCue {
    SoundCue { sound, volume_percent }
}

#[test]
fn quit_and_save_leave_the_game_alone() {
    let mut game = game_with(TetrominoType::T);
    let keys = KeyInput { quit: true, hard_drop: true, ..KeyInput::default() };
    let response = handle_controls(&mut game, &keys);
    assert_eq!(response.action, ControlAction::Quit);
    assert!(response.sounds.is_empty());
    assert!(game.current_piece.is_some());

    let keys = KeyInput { save: true, hard_drop: true, ..KeyInput::default() };
    let response = handle_controls(&mut game, &keys);
    assert_eq!(response.action, ControlAction::Save);
    assert!(game.current_piece.is_some());
}

#[test]
fn pause_key_pauses_and_clicks() {
    let mut game = game_with(TetrominoType::T);
    let keys = KeyInput { pause: true, ..KeyInput::default() };
    let response = handle_controls(&mut game, &keys);
    assert_eq!(response.action, ControlAction::Continue);
    assert_eq!(game.state, GameState::Paused);
    assert_eq!(response.sounds, vec![cue(SoundType::Pause, 100)]);
    // While paused the play keys do nothing
    let y = game.current_piece.as_ref().unwrap().position.1;
    let response = handle_controls(&mut game, &KeyInput { hard_drop: true, ..KeyInput::default() });
    assert!(response.sounds.is_empty());
    assert_eq!(game.current_piece.as_ref().unwrap().position.1, y);
}

#[test]
fn play_keys_move_turn_and_drop() {
    let mut game = game_with(TetrominoType::T);
    let keys = KeyInput {
        side_pressed: true,
        left_held: true,
        rotate_clockwise: true,
        ..KeyInput::default()
    };
    game.update_left_movement(false); // ready to move at once
    let response = handle_controls(&mut game, &keys);
    let piece = game.current_piece.as_ref().unwrap();
    assert_eq!(piece.position, (3, 2));
    assert_eq!(piece.rotation, 1);
    assert_eq!(response.sounds, vec![cue(SoundType::UiClick, 60), cue(SoundType::UiClick, 80)]);

    let response = handle_controls(&mut game, &KeyInput { hard_drop: true, hold: true, ..KeyInput::default() });
    assert_eq!(response.sounds, vec![cue(SoundType::HardDrop, 100), cue(SoundType::HoldPiece, 100)]);
    // The I piece that entered after the drop went to the hold slot
    assert_eq!(game.held_piece, Some(TetrominoType::I));
}

#[test]
fn reset_key_starts_over() {
    let mut game = game_with(TetrominoType::T);
    game.score = 99;
    let response = handle_controls(&mut game, &KeyInput { reset: true, ..KeyInput::default() });
    assert_eq!(response.sounds, vec![cue(SoundType::UiClick, 100)]);
    assert_eq!(game.score, 0);
}

#[test]
fn ghost_keys_take_over_in_placement_mode() {
    let mut game = game_with(TetrominoType::T);
    game.ghost_blocks_available = 1;
    game.board.set_cell(0, 23, rust_tetris::board::Cell::Filled(1));
    let response = handle_controls(&mut game, &KeyInput { ghost_block: true, ..KeyInput::default() });
    assert!(game.ghost_block_placement_mode);
    assert!(response.sounds.is_empty());
    let before = game.ghost_block_cursor;
    let response = handle_controls(
        &mut game,
        &KeyInput { up: true, rotate_clockwise: true, hard_drop: true, ..KeyInput::default() },
    );
    assert!(response.sounds.is_empty());
    assert_eq!(game.ghost_block_cursor, (before.0, before.1 - 1));
    // The piece did not turn or drop
    assert_eq!(game.current_piece.as_ref().unwrap().rotation, 0);
}

#[test]
fn audio_events_follow_the_frame() {
    let mut game = game_with(TetrominoType::T);
    assert!(detect_audio_events(&game, 0, 1, 0, false, GameState::Playing).is_empty());
    game.piece_just_locked = true;
    assert_eq!(
        detect_audio_events(&game, 0, 0, 0, false, GameState::Playing),
        vec![cue(SoundType::PieceSnap, 80), cue(SoundType::LevelComplete, 100)]
    );
    game.clearing_lines = vec![23];
    assert_eq!(
        detect_audio_events(&game, 0, 1, 0, false, GameState::Playing),
        vec![cue(SoundType::LineClear, 100)]
    );
    game.state = GameState::GameOver;
    assert_eq!(
        detect_audio_events(&game, 0, 0, 0, false, GameState::Playing),
        vec![cue(SoundType::GameOver, 100)]
    );
    assert!(detect_audio_events(&game, 0, 0, 0, false, GameState::GameOver).is_empty());
}

#[test]
fn frames_without_drop_keys_never_refuse() {
    let mut game = game_with(TetrominoType::T);
    game.score = u32::MAX;
    let keys = KeyInput { left_held: true, ..KeyInput::default() };
    assert!(controls_fit_now(&game, &keys));
    assert!(try_handle_controls(&mut game, &keys).is_some());
    assert_eq!(game.score, u32::MAX);
}

#[test]
fn hard_drop_near_the_score_limit_is_refused_untouched() {
    let mut game = game_with(TetrominoType::T);
    let y = game.current_piece.as_ref().unwrap().position.1;
    let room = 1 + 2 * (23 - y) as u32;
    game.score = u32::MAX - room;
    let keys = KeyInput { hard_drop: true, ..KeyInput::default() };
    assert!(controls_fit_now(&game, &keys));
    game.score = u32::MAX - room + 1;
    assert!(!controls_fit_now(&game, &keys));
    let before = game.current_piece.as_ref().unwrap().position;
    assert!(try_handle_controls(&mut game, &keys).is_none());
    assert_eq!(game.current_piece.as_ref().unwrap().position, before);
    assert_eq!(game.score, u32::MAX - room + 1);
}
