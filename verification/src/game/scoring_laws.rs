//! What a line clear pays: the points for the rows cleared, in the game and
//! in the scoring system.

use vstd::prelude::*;

use super::config::{SCORE_DOUBLE_LINE, SCORE_SINGLE_LINE, SCORE_TETRIS, SCORE_TRIPLE_LINE};
use super::model::{line_points, m_add_score_for_lines, m_clear_rows, GameView};
use crate::scoring::{spec_base_score, spec_line_clear_type, LineClearType};

verus! {

/// Clearing k rows at once (one to four) scores the guideline points for k
/// rows, 100, 300, 500 or 800 (the `SCORE_*` settings), times the level: so
/// at the same level a Double pays three times a Single, a Triple five times
/// and a Tetris eight times, and more rows always pay more.
pub proof fn law_line_points_by_rows(v: GameView)
    requires
        v.lines_cleared >= 0,
    ensures
        ({
            let gain = |k: int| m_add_score_for_lines(v, k).score - v.score;
            let level = v.lines_cleared / 10 + 1;
            &&& gain(1) == SCORE_SINGLE_LINE * level
            &&& gain(2) == SCORE_DOUBLE_LINE * level
            &&& gain(3) == SCORE_TRIPLE_LINE * level
            &&& gain(4) == SCORE_TETRIS * level
            &&& gain(1) == 100 * level
            &&& gain(2) == 3 * gain(1)
            &&& gain(3) == 5 * gain(1)
            &&& gain(4) == 8 * gain(1)
            &&& 0 < gain(1) < gain(2) < gain(3) < gain(4)
        }),
{
    let level = v.lines_cleared / 10 + 1;
    assert(level >= 1);
    assert(100 * level < 300 * level < 500 * level < 800 * level) by (nonlinear_arith)
        requires
            level >= 1,
    ;
}

/// When the rows being animated are removed, the score rises by the
/// guideline points for that many rows times the level reached with them:
/// 100, 300, 500 or 800 times `(lines + k) / 10 + 1`.
pub proof fn law_finished_clear_pays_for_its_rows(v: GameView)
    requires
        1 <= v.clearing_lines.len() <= 4,
        v.lines_cleared >= 0,
    ensures
        ({
            let k = v.clearing_lines.len() as int;
            let level = (v.lines_cleared + k) / 10 + 1;
            m_clear_rows(v).score == v.score + (if k == 1 {
                100int
            } else if k == 2 {
                300int
            } else if k == 3 {
                500int
            } else {
                800int
            }) * level
        }),
{
}

/// The scoring system's plain clears pay what the game pays for as many
/// rows: a plain clear of k rows has base score 100, 300, 500 or 800, the
/// game's points for k rows at level 1, and more rows pay strictly more.
pub proof fn law_plain_clear_scores_agree_with_the_game(k: u32)
    requires
        1 <= k <= 4,
    ensures
        ({
            let t = spec_line_clear_type(k, false, false)->0;
            &&& spec_line_clear_type(k, false, false) is Some
            &&& spec_base_score(t) == line_points(k as int)
        }),
        spec_base_score(LineClearType::Single) < spec_base_score(LineClearType::Double)
            < spec_base_score(LineClearType::Triple) < spec_base_score(LineClearType::Tetris),
        spec_base_score(LineClearType::Single) == 100,
        spec_base_score(LineClearType::Double) == 300,
        spec_base_score(LineClearType::Triple) == 500,
        spec_base_score(LineClearType::Tetris) == 800,
{
}

} // verus!
