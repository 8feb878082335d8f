use rust_tetris::leaderboard::{Leaderboard, LeaderboardEntry};
use rust_tetris::menu::{GameSettings, MenuAction, MenuKeys, MenuState, MenuSystem};

fn menu() -> MenuSystem {
    MenuSystem::new(GameSettings::default(), Leaderboard::new())
}

#[test]
fn main_menu_navigation_cycles() {
    let mut m = menu();
    let up = MenuKeys { up: true, ..MenuKeys::default() };
    let r = m.handle_input(&up, false);
    assert_eq!(r.action, MenuAction::NoAction);
    assert_eq!(m.selected_option, 4);
    let down = MenuKeys { down: true, ..MenuKeys::default() };
    m.handle_input(&down, false);
    assert_eq!(m.selected_option, 0);
}

#[test]
fn main_menu_choices() {
    let mut m = menu();
    let enter = MenuKeys { enter: true, ..MenuKeys::default() };
    assert_eq!(m.handle_input(&enter, false).action, MenuAction::NewGame);
    m.selected_option = 1;
    assert_eq!(m.handle_input(&enter, true).action, MenuAction::LoadGame);
    assert_eq!(m.handle_input(&enter, false).action, MenuAction::NewGame);
    m.selected_option = 4;
    assert_eq!(m.handle_input(&enter, false).action, MenuAction::Quit);
    m.selected_option = 2;
    m.leaderboard_scroll = 3;
    assert_eq!(m.handle_input(&enter, false).action, MenuAction::NoAction);
    assert_eq!(m.state, MenuState::Leaderboard);
    assert_eq!(m.leaderboard_scroll, 0);
    let escape = MenuKeys { escape: true, ..MenuKeys::default() };
    m.handle_input(&escape, false);
    assert_eq!(m.state, MenuState::Main);
    assert_eq!(m.selected_option, 2);
    assert_eq!(m.handle_input(&escape, false).action, MenuAction::Quit);
}

#[test]
fn settings_toggle_sound_and_step_volume() {
    let mut m = menu();
    m.selected_option = 3;
    m.handle_input(&MenuKeys { space: true, ..MenuKeys::default() }, false);
    assert_eq!(m.state, MenuState::Settings);
    assert_eq!(m.selected_option, 0);
    m.handle_input(&MenuKeys { enter: true, ..MenuKeys::default() }, false);
    assert!(!m.settings.sound_enabled);
    m.handle_input(&MenuKeys { down: true, ..MenuKeys::default() }, false);
    assert_eq!(m.selected_option, 1);
    for _ in 0..5 {
        m.handle_input(&MenuKeys { right: true, ..MenuKeys::default() }, false);
    }
    assert_eq!(m.settings.volume, 100);
    m.handle_input(&MenuKeys { enter: true, shift_held: true, ..MenuKeys::default() }, false);
    assert_eq!(m.settings.volume, 90);
    let r = m.handle_input(&MenuKeys { escape: true, ..MenuKeys::default() }, false);
    assert_eq!(m.state, MenuState::Main);
    assert_eq!(m.selected_option, 3);
    assert_eq!(r.save_settings, Some(GameSettings { sound_enabled: false, volume: 90 }));
}

#[test]
fn high_score_entry_records_the_name() {
    let mut m = menu();
    assert!(m.check_high_score(1200, 3, 25, 90_000_000));
    assert_eq!(m.state, MenuState::NameEntry { score: 1200, level: 3, lines_cleared: 25, game_time: 90_000_000 });
    for c in ['a', 'b', '!', '7'] {
        m.handle_input(&MenuKeys { typed: Some(c), ..MenuKeys::default() }, false);
    }
    assert_eq!(m.name_input, "AB7");
    m.handle_input(&MenuKeys { backspace: true, ..MenuKeys::default() }, false);
    assert_eq!(m.name_input, "AB");
    let r = m.handle_input(&MenuKeys { enter: true, ..MenuKeys::default() }, false);
    assert!(r.save_leaderboard);
    assert_eq!(m.state, MenuState::Main);
    assert_eq!(m.name_input, "");
    assert_eq!(m.leaderboard.entries.len(), 1);
    assert_eq!(m.leaderboard.entries[0].name, "AB");
    assert_eq!(m.leaderboard.entries[0].score, 1200);
}

#[test]
fn empty_name_is_anonymous_and_names_are_capped() {
    let mut m = menu();
    m.check_high_score(10, 1, 1, 0);
    for _ in 0..25 {
        m.handle_input(&MenuKeys { typed: Some('x'), ..MenuKeys::default() }, false);
    }
    assert_eq!(m.name_input.len(), 20);
    m.handle_input(&MenuKeys { escape: true, ..MenuKeys::default() }, false);
    assert_eq!(m.state, MenuState::Main);
    assert!(m.leaderboard.entries.is_empty());
    m.check_high_score(10, 1, 1, 0);
    m.handle_input(&MenuKeys { enter: true, ..MenuKeys::default() }, false);
    assert_eq!(m.leaderboard.entries[0].name, "ANONYMOUS");
}

#[test]
fn leaderboard_scrolls_within_its_entries() {
    let mut board = Leaderboard::new();
    for i in 0..10 {
        board.add_entry(LeaderboardEntry::new(format!("P{}", i), i * 10, 1, 1, 0));
    }
    let mut m = MenuSystem::new(GameSettings::default(), board);
    m.state = MenuState::Leaderboard;
    let down = MenuKeys { down: true, ..MenuKeys::default() };
    for _ in 0..5 {
        m.handle_input(&down, false);
    }
    assert_eq!(m.leaderboard_scroll, 3);
    m.handle_input(&MenuKeys { up: true, ..MenuKeys::default() }, false);
    assert_eq!(m.leaderboard_scroll, 2);
}

#[test]
fn low_score_does_not_qualify_on_a_full_board() {
    let mut board = Leaderboard::new();
    for i in 1..=10 {
        board.add_entry(LeaderboardEntry::new(format!("P{}", i), i * 100, 1, 1, 0));
    }
    let mut m = MenuSystem::new(GameSettings::default(), board);
    assert!(!m.check_high_score(50, 1, 1, 0));
    assert_eq!(m.state, MenuState::Main);
}

#[test]
fn main_menu_options_mention_the_save() {
    let m = menu();
    let options = m.get_main_menu_options(false);
    assert_eq!(options.len(), 5);
    assert_eq!(options[1], "💾 CONTINUE (No Save)");
    assert_eq!(m.get_main_menu_options(true)[1], "💾 CONTINUE");
}
