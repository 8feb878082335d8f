//! Start menu logic: the menu's screens, its settings, and what its keys do.
//!
//! The keys are read, and files written, around the library: a frame's keys
//! come in as plain values, and the response says what to save. The volume is
//! a percentage, and the game time of a score in microseconds.

use vstd::prelude::*;
use vstd::string::StringExecFns;
use vstd::utf8::is_ascii_chars;

use crate::leaderboard::{score_qualifies, with_entry, Leaderboard, LeaderboardEntry};

verus! {

/// Different states the menu system can be in
#[derive(Debug, Clone, Copy, PartialEq, Eq, Structural)]
pub enum MenuState {
    /// Main menu with all options
    Main,
    /// Leaderboard viewing screen
    Leaderboard,
    /// Settings/options menu
    Settings,
    /// High score name entry screen
    NameEntry { score: u32, level: u32, lines_cleared: u32, game_time: u64 },
}

/// Game settings that persist across sessions
#[derive(Debug, Clone, Copy, PartialEq, Eq, Structural)]
pub struct GameSettings {
    /// Whether sound is enabled
    pub sound_enabled: bool,
    /// Master volume, in percent
    pub volume: u32,
}

impl GameSettings {
    /// Create default settings
    pub fn default() -> (settings: Self)
        ensures
            settings.sound_enabled,
            settings.volume == 70,
    {
        GameSettings { sound_enabled: true, volume: 70 }
    }
}

/// Actions the menu system can request
#[derive(Debug, Clone, Copy, PartialEq, Eq, Structural)]
pub enum MenuAction {
    /// Do nothing
    NoAction,
    /// Start a new game
    NewGame,
    /// Load saved game
    LoadGame,
    /// Quit the application
    Quit,
}

/// The keys of one menu frame.
#[derive(Debug, Clone, Copy, Default)]
pub struct MenuKeys {
    /// Up arrow or W pressed
    pub up: bool,
    /// Down arrow or S pressed
    pub down: bool,
    /// Left arrow or A pressed
    pub left: bool,
    /// Right arrow or D pressed
    pub right: bool,
    /// Enter pressed
    pub enter: bool,
    /// Space pressed
    pub space: bool,
    /// Escape pressed
    pub escape: bool,
    /// Backspace pressed
    pub backspace: bool,
    /// Left Shift held down
    pub shift_held: bool,
    /// A character typed this frame
    pub typed: Option<char>,
}

/// What the program around the menu should do after a frame.
#[derive(Debug, Clone, Copy, PartialEq, Eq, Structural)]
pub struct MenuResponse {
    /// The action the menu asks for
    pub action: MenuAction,
    /// Settings to write to the settings file
    pub save_settings: Option<GameSettings>,
    /// Whether to write the leaderboard to its file
    pub save_leaderboard: bool,
}

/// The main menu system controller
pub struct MenuSystem {
    /// Current menu state
    pub state: MenuState,
    /// Game settings
    pub settings: GameSettings,
    /// Leaderboard data
    pub leaderboard: Leaderboard,
    /// Currently selected menu option
    pub selected_option: usize,
    /// Name being entered for high score
    pub name_input: String,
    /// Leaderboard scroll position
    pub leaderboard_scroll: usize,
    /// Animation timer for various effects, in microseconds
    pub animation_timer: u64,
}

/// Number of options of the main menu.
pub const MAIN_MENU_OPTIONS: usize = 5;

/// Leaderboard entries shown at a time.
pub const VISIBLE_LEADERBOARD_ENTRIES: usize = 7;

/// Longest name that can be entered.
pub const MAX_NAME_LENGTH: usize = 20;

/// Appends a character.
///
/// Calls `String::push`, which appends the character at the end.
#[verifier::external_body]
fn push_char(s: &mut String, c: char)
    ensures
        final(s)@ == old(s)@.push(c),
{
    s.push(c);
}

/// Removes the last character, if any.
///
/// Calls `String::pop`, which removes the last character and returns it, or
/// returns `None` and leaves an empty string as it is.
#[verifier::external_body]
fn pop_char(s: &mut String) -> (last: Option<char>)
    ensures
        old(s)@.len() == 0 ==> last is None && final(s)@ == old(s)@,
        old(s)@.len() > 0 ==> last == Some(old(s)@.last()) && final(s)@ == old(s)@.drop_last(),
{
    s.pop()
}

/// Empties a string.
///
/// Calls `String::clear`, which removes every character.
#[verifier::external_body]
fn clear_string(s: &mut String)
    ensures
        final(s)@ == Seq::<char>::empty(),
{
    s.clear();
}

/// The ASCII upper case of a character, as `char::to_ascii_uppercase` gives
/// it: 'a' to 'z' become 'A' to 'Z', every other character stays.
fn ascii_uppercase(c: char) -> (upper: char)
    ensures
        'a' <= c <= 'z' ==> upper as int == c as int - 32,
        !('a' <= c <= 'z') ==> upper == c,
{
    if 'a' <= c && c <= 'z' {
        let code: u8 = (c as u32 - 32) as u8;
        code as char
    } else {
        c
    }
}

/// A character a name may hold: an ASCII letter or digit, or a space.
pub open spec fn is_name_char(c: char) -> bool {
    ||| '0' <= c <= '9'
    ||| 'a' <= c <= 'z'
    ||| 'A' <= c <= 'Z'
    ||| c == ' '
}

/// How a typed character enters a name: upper case.
pub open spec fn name_char(c: char) -> char {
    if 'a' <= c <= 'z' {
        (c as int - 32) as char
    } else {
        c
    }
}

/// Whether a character may be part of a name.
fn accepts_name_char(c: char) -> (accepted: bool)
    ensures
        accepted == is_name_char(c),
{
    ('0' <= c && c <= '9') || ('a' <= c && c <= 'z') || ('A' <= c && c <= 'Z') || c == ' '
}

/// The selection of the main menu after the up and down keys.
pub open spec fn main_selection(selected: int, k: MenuKeys) -> int {
    let s1 = if k.up {
        if selected == 0 {
            MAIN_MENU_OPTIONS - 1
        } else {
            selected - 1
        }
    } else {
        selected
    };
    if k.down {
        (s1 + 1) % (MAIN_MENU_OPTIONS as int)
    } else {
        s1
    }
}

/// The selection of the settings screen after the up and down keys.
pub open spec fn settings_selection(selected: int, k: MenuKeys) -> int {
    let s1 = if k.up {
        if selected == 0 {
            1
        } else {
            0
        }
    } else {
        selected
    };
    if k.down {
        (s1 + 1) % 2
    } else {
        s1
    }
}

/// The volume one step (ten percent) down, not below zero.
pub open spec fn volume_down(volume: u32) -> u32 {
    if volume >= 10 {
        (volume - 10) as u32
    } else {
        0
    }
}

/// The volume one step (ten percent) up, not above full.
pub open spec fn volume_up(volume: u32) -> u32 {
    if volume + 10 > 100 {
        100
    } else {
        (volume + 10) as u32
    }
}

/// The settings after the settings screen's keys, with `selected` the
/// selection once the up and down keys have acted.
pub open spec fn adjusted_settings(s: GameSettings, selected: int, k: MenuKeys) -> GameSettings {
    let s1 = if k.enter || k.space {
        if selected == 0 {
            GameSettings { sound_enabled: !s.sound_enabled, ..s }
        } else if selected == 1 {
            GameSettings {
                volume: if k.shift_held {
                    volume_down(s.volume)
                } else {
                    volume_up(s.volume)
                },
                ..s
            }
        } else {
            s
        }
    } else {
        s
    };
    if selected == 1 {
        let s2 = if k.left {
            GameSettings { volume: volume_down(s1.volume), ..s1 }
        } else {
            s1
        };
        if k.right {
            GameSettings { volume: volume_up(s2.volume), ..s2 }
        } else {
            s2
        }
    } else {
        s1
    }
}

/// The action of the main menu's select keys (Enter or Space) on an option,
/// or of Escape.
pub open spec fn main_action(selected: int, k: MenuKeys, save_exists: bool) -> MenuAction {
    if k.enter || k.space {
        if selected == 0 {
            MenuAction::NewGame
        } else if selected == 1 {
            if save_exists {
                MenuAction::LoadGame
            } else {
                MenuAction::NewGame
            }
        } else if selected == 4 {
            MenuAction::Quit
        } else {
            MenuAction::NoAction
        }
    } else if k.escape {
        MenuAction::Quit
    } else {
        MenuAction::NoAction
    }
}

/// The name after a typed character and the backspace key.
pub open spec fn edited_name(name: Seq<char>, k: MenuKeys) -> Seq<char> {
    let n1 = match k.typed {
        Some(c) => if is_name_char(c) && name.len() < MAX_NAME_LENGTH {
            name.push(name_char(c))
        } else {
            name
        },
        None => name,
    };
    if k.backspace && n1.len() > 0 {
        n1.drop_last()
    } else {
        n1
    }
}

/// The name stored for a score: the entered one, or "ANONYMOUS" when none
/// was entered.
pub open spec fn stored_name(name: Seq<char>) -> Seq<char> {
    if name.len() == 0 {
        "ANONYMOUS"@
    } else {
        name
    }
}

/// The leaderboard scroll after the up and down keys: one entry at a time,
/// within the entries that fill the last screen.
pub open spec fn scrolled(scroll: int, k: MenuKeys, entries: int) -> int {
    let s1 = if k.up && scroll > 0 {
        scroll - 1
    } else {
        scroll
    };
    let max_scroll = if entries > VISIBLE_LEADERBOARD_ENTRIES {
        entries - VISIBLE_LEADERBOARD_ENTRIES
    } else {
        0
    };
    if k.down && s1 < max_scroll {
        s1 + 1
    } else {
        s1
    }
}

impl MenuSystem {
    /// A selection within the main menu, and a name of at most the longest
    /// length, in ASCII.
    pub open spec fn wf(&self) -> bool {
        &&& self.selected_option < MAIN_MENU_OPTIONS
        &&& self.name_input@.len() <= MAX_NAME_LENGTH
        &&& is_ascii_chars(self.name_input@)
    }

    /// Create a new menu system on the main menu, with the given settings and
    /// leaderboard
    pub fn new(settings: GameSettings, leaderboard: Leaderboard) -> (menu: Self)
        ensures
            menu.wf(),
            menu.state == MenuState::Main,
            menu.settings == settings,
            menu.leaderboard == leaderboard,
            menu.selected_option == 0,
            menu.name_input@ == Seq::<char>::empty(),
            menu.leaderboard_scroll == 0,
            menu.animation_timer == 0,
    {
        MenuSystem {
            state: MenuState::Main,
            settings,
            leaderboard,
            selected_option: 0,
            name_input: String::new(),
            leaderboard_scroll: 0,
            animation_timer: 0,
        }
    }

    /// Update the menu system: `delta_time` microseconds have passed.
    pub fn update(&mut self, delta_time: u64)
        ensures
            final(self).animation_timer == old(self).animation_timer.saturating_add(delta_time),
            final(self).state == old(self).state,
            final(self).settings == old(self).settings,
            final(self).leaderboard == old(self).leaderboard,
            final(self).selected_option == old(self).selected_option,
            final(self).name_input == old(self).name_input,
            final(self).leaderboard_scroll == old(self).leaderboard_scroll,
    {
        self.animation_timer = self.animation_timer.saturating_add(delta_time);
    }

    /// Get the main menu options based on whether a saved game exists
    pub fn get_main_menu_options(&self, save_exists: bool) -> (options: Vec<&'static str>)
        ensures
            options@.len() == MAIN_MENU_OPTIONS,
            options@[0]@ == "🎮 NEW GAME"@,
            options@[1]@ == (if save_exists {
                "💾 CONTINUE"@
            } else {
                "💾 CONTINUE (No Save)"@
            }),
            options@[2]@ == "🏆 LEADERBOARD"@,
            options@[3]@ == "⚙️  SETTINGS"@,
            options@[4]@ == "❌ QUIT"@,
    {
        let mut options: Vec<&'static str> = Vec::new();
        options.push("🎮 NEW GAME");
        if save_exists {
            options.push("💾 CONTINUE");
        } else {
            options.push("💾 CONTINUE (No Save)");
        }
        options.push("🏆 LEADERBOARD");
        options.push("⚙️  SETTINGS");
        options.push("❌ QUIT");
        options
    }

    /// Check if a score qualifies for high score entry
    pub fn check_high_score(&mut self, score: u32, level: u32, lines_cleared: u32, game_time: u64) -> (qualifies: bool)
        requires
            old(self).wf(),
        ensures
            final(self).wf(),
            qualifies == score_qualifies(old(self).leaderboard.entries@, score),
            qualifies ==> final(self).state == (MenuState::NameEntry {
                score,
                level,
                lines_cleared,
                game_time,
            }) && final(self).name_input@ == Seq::<char>::empty(),
            !qualifies ==> final(self).state == old(self).state && final(self).name_input
                == old(self).name_input,
            final(self).settings == old(self).settings,
            final(self).leaderboard == old(self).leaderboard,
            final(self).selected_option == old(self).selected_option,
            final(self).leaderboard_scroll == old(self).leaderboard_scroll,
            final(self).animation_timer == old(self).animation_timer,
    {
        if self.leaderboard.qualifies_for_leaderboard(score) {
            self.state = MenuState::NameEntry { score, level, lines_cleared, game_time };
            clear_string(&mut self.name_input);
            true
        } else {
            false
        }
    }

    /// Handle the keys of a frame for the current menu state; `save_exists`
    /// says whether a saved game can be continued.
    pub fn handle_input(&mut self, keys: &MenuKeys, save_exists: bool) -> (response: MenuResponse)
        requires
            old(self).wf(),
        ensures
            final(self).wf(),
            match old(self).state {
                MenuState::Main => final(self).main_menu_handled(*old(self), *keys, save_exists, response),
                MenuState::Leaderboard => final(self).leaderboard_handled(*old(self), *keys, response),
                MenuState::Settings => final(self).settings_handled(*old(self), *keys, response),
                MenuState::NameEntry { .. } => final(self).name_entry_handled(*old(self), *keys, response),
            },
    {
        match self.state {
            MenuState::Main => self.handle_main_menu_input(keys, save_exists),
            MenuState::Leaderboard => self.handle_leaderboard_input(keys),
            MenuState::Settings => self.handle_settings_input(keys),
            MenuState::NameEntry { .. } => self.handle_name_entry_input(keys),
        }
    }

    /// The main menu's keys: the selection moves (cycling), and Enter or
    /// Space picks the selected option: a new game, the saved game (a new one
    /// when there is none), the leaderboard (from its top), the settings (on
    /// their first line), or quit; Escape quits.
    pub open spec fn main_menu_handled(self, old_menu: MenuSystem, k: MenuKeys, save_exists: bool, r: MenuResponse) -> bool {
        let sel = main_selection(old_menu.selected_option as int, k);
        let picked = k.enter || k.space;
        &&& r.action == main_action(sel, k, save_exists)
        &&& r.save_settings is None
        &&& !r.save_leaderboard
        &&& self.state == (if picked && sel == 2 {
            MenuState::Leaderboard
        } else if picked && sel == 3 {
            MenuState::Settings
        } else {
            old_menu.state
        })
        &&& self.selected_option == (if picked && sel == 3 {
            0
        } else {
            sel
        })
        &&& self.leaderboard_scroll == (if picked && sel == 2 {
            0
        } else {
            old_menu.leaderboard_scroll
        })
        &&& self.settings == old_menu.settings
        &&& self.leaderboard == old_menu.leaderboard
        &&& self.name_input == old_menu.name_input
        &&& self.animation_timer == old_menu.animation_timer
    }

    /// Handle input for the main menu
    fn handle_main_menu_input(&mut self, keys: &MenuKeys, save_exists: bool) -> (response: MenuResponse)
        requires
            old(self).wf(),
        ensures
            final(self).wf(),
            final(self).main_menu_handled(*old(self), *keys, save_exists, response),
    {
        let num_options = MAIN_MENU_OPTIONS;
        // Navigate menu
        if keys.up {
            self.selected_option = if self.selected_option == 0 {
                num_options - 1
            } else {
                self.selected_option - 1
            };
        }
        if keys.down {
            self.selected_option = (self.selected_option + 1) % num_options;
        }
        // Select option
        let action = if keys.enter || keys.space {
            match self.selected_option {
                0 => MenuAction::NewGame,
                1 => {
                    if save_exists {
                        MenuAction::LoadGame
                    } else {
                        MenuAction::NewGame
                    }
                },
                2 => {
                    self.state = MenuState::Leaderboard;
                    self.leaderboard_scroll = 0;
                    MenuAction::NoAction
                },
                3 => {
                    self.state = MenuState::Settings;
                    self.selected_option = 0;
                    MenuAction::NoAction
                },
                4 => MenuAction::Quit,
                _ => MenuAction::NoAction,
            }
        } else if keys.escape {
            MenuAction::Quit
        } else {
            MenuAction::NoAction
        };
        MenuResponse { action, save_settings: None, save_leaderboard: false }
    }

    /// The leaderboard screen's keys: Escape or Enter go back to the main
    /// menu (on the leaderboard option), and the arrows scroll.
    pub open spec fn leaderboard_handled(self, old_menu: MenuSystem, k: MenuKeys, r: MenuResponse) -> bool {
        let back = k.escape || k.enter;
        &&& r == (MenuResponse { action: MenuAction::NoAction, save_settings: None, save_leaderboard: false })
        &&& self.state == (if back {
            MenuState::Main
        } else {
            old_menu.state
        })
        &&& self.selected_option == (if back {
            2
        } else {
            old_menu.selected_option
        })
        &&& self.leaderboard_scroll == scrolled(
            old_menu.leaderboard_scroll as int,
            k,
            old_menu.leaderboard.entries@.len() as int,
        )
        &&& self.settings == old_menu.settings
        &&& self.leaderboard == old_menu.leaderboard
        &&& self.name_input == old_menu.name_input
        &&& self.animation_timer == old_menu.animation_timer
    }

    /// Handle input for the leaderboard screen
    fn handle_leaderboard_input(&mut self, keys: &MenuKeys) -> (response: MenuResponse)
        requires
            old(self).wf(),
        ensures
            final(self).wf(),
            final(self).leaderboard_handled(*old(self), *keys, response),
    {
        if keys.escape || keys.enter {
            self.state = MenuState::Main;
            self.selected_option = 2;  // Return to leaderboard option
        }
        // Scroll leaderboard if needed
        if keys.up {
            if self.leaderboard_scroll > 0 {
                self.leaderboard_scroll = self.leaderboard_scroll - 1;
            }
        }
        if keys.down {
            let max_scroll = self.leaderboard.entries.len().saturating_sub(VISIBLE_LEADERBOARD_ENTRIES);  // Show 7 entries at a time
            if self.leaderboard_scroll < max_scroll {
                self.leaderboard_scroll = self.leaderboard_scroll + 1;
            }
        }
        MenuResponse { action: MenuAction::NoAction, save_settings: None, save_leaderboard: false }
    }

    /// The settings screen's keys: Escape goes back to the main menu (on the
    /// settings option) and saves the settings as they are then; the arrows
    /// move the selection between the two lines; Enter or Space toggles the
    /// sound or steps the volume (down with Shift held); on the volume line
    /// left and right step it.
    pub open spec fn settings_handled(self, old_menu: MenuSystem, k: MenuKeys, r: MenuResponse) -> bool {
        let sel0 = if k.escape {
            3
        } else {
            old_menu.selected_option as int
        };
        let sel = settings_selection(sel0, k);
        &&& r == (MenuResponse {
            action: MenuAction::NoAction,
            save_settings: if k.escape {
                Some(old_menu.settings)
            } else {
                None
            },
            save_leaderboard: false,
        })
        &&& self.state == (if k.escape {
            MenuState::Main
        } else {
            old_menu.state
        })
        &&& self.selected_option == sel
        &&& self.settings == adjusted_settings(old_menu.settings, sel, k)
        &&& self.leaderboard == old_menu.leaderboard
        &&& self.name_input == old_menu.name_input
        &&& self.leaderboard_scroll == old_menu.leaderboard_scroll
        &&& self.animation_timer == old_menu.animation_timer
    }

    /// Handle input for the settings screen
    fn handle_settings_input(&mut self, keys: &MenuKeys) -> (response: MenuResponse)
        requires
            old(self).wf(),
        ensures
            final(self).wf(),
            final(self).settings_handled(*old(self), *keys, response),
    {
        let mut save_settings: Option<GameSettings> = None;
        if keys.escape {
            self.state = MenuState::Main;
            self.selected_option = 3;  // Return to settings option
            // Save settings when leaving
            save_settings = Some(self.settings);
        }
        // Navigate settings
        if keys.up {
            self.selected_option = if self.selected_option == 0 {
                1
            } else {
                0
            };
        }
        if keys.down {
            self.selected_option = (self.selected_option + 1) % 2;
        }
        // Modify settings
        if keys.enter || keys.space {
            match self.selected_option {
                0 => {
                    // Toggle sound
                    self.settings.sound_enabled = !self.settings.sound_enabled;
                },
                1 => {
                    if keys.shift_held {
                        self.settings.volume = step_volume_down(self.settings.volume);
                    } else {
                        self.settings.volume = step_volume_up(self.settings.volume);
                    }
                },
                _ => {},
            }
        }
        // Volume adjustment with left/right arrows
        if self.selected_option == 1 {
            if keys.left {
                self.settings.volume = step_volume_down(self.settings.volume);
            }
            if keys.right {
                self.settings.volume = step_volume_up(self.settings.volume);
            }
        }
        MenuResponse { action: MenuAction::NoAction, save_settings, save_leaderboard: false }
    }

    /// The name-entry screen's keys: a typed letter, digit or space is added
    /// in upper case while the name is short enough, Backspace removes the
    /// last character, Enter records the score under the name (or
    /// "ANONYMOUS") and goes back to the main menu, to be saved, and Escape
    /// goes back without recording.
    pub open spec fn name_entry_handled(self, old_menu: MenuSystem, k: MenuKeys, r: MenuResponse) -> bool {
        let name = edited_name(old_menu.name_input@, k);
        let done = k.enter || k.escape;
        &&& r == (MenuResponse {
            action: MenuAction::NoAction,
            save_settings: None,
            save_leaderboard: k.enter,
        })
        &&& self.state == (if done {
            MenuState::Main
        } else {
            old_menu.state
        })
        &&& self.selected_option == (if done {
            0
        } else {
            old_menu.selected_option
        })
        &&& self.name_input@ == (if done {
            Seq::<char>::empty()
        } else {
            name
        })
        &&& (if k.enter {
            old_menu.state matches MenuState::NameEntry { score, level, lines_cleared, game_time }
                && exists|entry: LeaderboardEntry|
                #![trigger with_entry(old_menu.leaderboard.entries@, entry)]
                entry.name@ == stored_name(name) && entry.score == score && entry.level == level
                    && entry.lines_cleared == lines_cleared && entry.game_time == game_time
                    && self.leaderboard.entries@ == with_entry(
                    old_menu.leaderboard.entries@,
                    entry,
                )
        } else {
            self.leaderboard == old_menu.leaderboard
        })
        &&& self.settings == old_menu.settings
        &&& self.leaderboard_scroll == old_menu.leaderboard_scroll
        &&& self.animation_timer == old_menu.animation_timer
    }

    /// Handle input for name entry screen
    fn handle_name_entry_input(&mut self, keys: &MenuKeys) -> (response: MenuResponse)
        requires
            old(self).wf(),
            old(self).state is NameEntry,
        ensures
            final(self).wf(),
            final(self).name_entry_handled(*old(self), *keys, response),
    {
        let ghost old_name = self.name_input@;
        // Handle character input
        if let Some(character) = keys.typed {
            if accepts_name_char(character) {
                let current = self.name_input.as_str();
                proof {
                    assert(is_ascii_chars(current@));
                    assert(vstd::string::is_ascii(current));
                }
                if current.len() < MAX_NAME_LENGTH {  // Limit name length
                    let upper = ascii_uppercase(character);
                    assert(upper == name_char(character));
                    push_char(&mut self.name_input, upper);
                    proof {
                        assert(is_ascii_chars(self.name_input@)) by {
                            assert forall|i: int| 0 <= i < self.name_input@.len() implies '\0'
                                <= #[trigger] self.name_input@[i] <= '\u{7f}' by {
                                if i < old_name.len() {
                                    assert(self.name_input@[i] == old_name[i]);
                                }
                            }
                        }
                    }
                }
            }
        }
        // Handle backspace
        if keys.backspace {
            let ghost before = self.name_input@;
            pop_char(&mut self.name_input);
            proof {
                assert forall|i: int| 0 <= i < self.name_input@.len() implies '\0'
                    <= #[trigger] self.name_input@[i] <= '\u{7f}' by {
                    assert(self.name_input@[i] == before[i]);
                }
            }
        }
        assert(self.name_input@ == edited_name(old_name, *keys));
        let ghost old_name_edited = self.name_input@;
        let mut save_leaderboard = false;
        // Handle enter (submit name)
        if keys.enter {
            if let MenuState::NameEntry { score, level, lines_cleared, game_time } = self.state {
                let name = if self.name_input.as_str().is_empty() {
                    let mut anonymous = String::new();
                    anonymous.append("ANONYMOUS");
                    assert(anonymous@ =~= "ANONYMOUS"@);
                    anonymous
                } else {
                    self.name_input.clone()
                };
                // Add to leaderboard
                let entry = LeaderboardEntry::new(name, score, level, lines_cleared, game_time);
                let ghost added = entry;
                self.leaderboard.add_entry(entry);
                assert(added.name@ == stored_name(old_name_edited));
                // Save leaderboard
                save_leaderboard = true;
                // Return to main menu
                self.state = MenuState::Main;
                self.selected_option = 0;
                clear_string(&mut self.name_input);
            }
        }
        // Handle escape (cancel name entry)
        if keys.escape {
            self.state = MenuState::Main;
            self.selected_option = 0;
            clear_string(&mut self.name_input);
        }
        MenuResponse { action: MenuAction::NoAction, save_settings: None, save_leaderboard }
    }
}

/// The settings screen keeps a volume within 0 to 100 percent.
pub proof fn law_volume_stays_in_range(settings: GameSettings, selected: int, k: MenuKeys)
    requires
        settings.volume <= 100,
    ensures
        adjusted_settings(settings, selected, k).volume <= 100,
{
}

/// The volume one step down.
fn step_volume_down(volume: u32) -> (v: u32)
    ensures
        v == volume_down(volume),
{
    if volume >= 10 {
        volume - 10
    } else {
        0
    }
}

/// The volume one step up.
fn step_volume_up(volume: u32) -> (v: u32)
    ensures
        v == volume_up(volume),
{
    if volume > 90 {
        100
    } else {
        volume + 10
    }
}

} // verus!
