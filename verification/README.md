# rust_tetris

A Tetris game whose rules are a verified Verus library, with a macroquad
front end around it.

## Layout

- `src/` — the library, checked by Verus:
  - `tetromino/`: piece shapes (`data.rs`) and pieces (`types.rs`);
  - `board.rs`: the 24×10 grid (four buffer rows on top), line clearing and
    levels;
  - `rotation/`: the Super Rotation System and its wall-kick tables;
  - `scoring/`: line-clear types, combos, back-to-back and perfect clears;
  - `game/`: the game itself — `model.rs` states every rule as a function on
    a mathematical view of the game, `state.rs` implements `Game` against
    it, `controls.rs` decides what a frame's keys do and which sounds the
    game's events call for, and `laws.rs` proves properties that span
    operations;
  - `leaderboard.rs`, `menu.rs`: high scores and the start menu's logic;
  - `audio/`, `graphics/`, `text.rs`: sound cues, block colours (as
    `0xRRGGBBAA`) and text building.
- `tests/` — tests of the library.
- `app/` — the program: window, frame loop, drawing, sound, and the JSON
  save files.

Time is counted in whole microseconds in the library; the program converts
its frame times.
