//! Modern Tetris scoring system implementation
//!
//! This module implements the official Tetris Guideline scoring system including:
//! - Standard line clear scoring
//! - T-spin bonuses (Mini and Full)
//! - Combo system for consecutive line clears
//! - Back-to-back bonuses for skill moves
//! - Perfect Clear (All Clear) detection and bonuses
//! - Soft/Hard drop scoring

use vstd::prelude::*;

pub mod perfect_clear;

pub use perfect_clear::PerfectClearDetector;

verus! {

/// Types of line clear actions that can occur
#[derive(Debug, Clone, Copy, PartialEq, Eq, Structural)]
pub enum LineClearType {
    /// Single line clear
    Single,
    /// Double line clear
    Double,
    /// Triple line clear
    Triple,
    /// Tetris (4 lines)
    Tetris,
    /// T-spin Mini Single (1 line with mini T-spin)
    TSpinMiniSingle,
    /// T-spin Single (1 line with full T-spin)
    TSpinSingle,
    /// T-spin Mini Double (2 lines with mini T-spin - very rare)
    TSpinMiniDouble,
    /// T-spin Double (2 lines with full T-spin)
    TSpinDouble,
    /// T-spin Triple (3 lines with full T-spin)
    TSpinTriple,
}

/// Base score of a line clear type, before the level multiplier.
pub open spec fn spec_base_score(t: LineClearType) -> u32 {
    match t {
        LineClearType::Single => 100,
        LineClearType::Double => 300,
        LineClearType::Triple => 500,
        LineClearType::Tetris => 800,
        LineClearType::TSpinMiniSingle => 200,
        LineClearType::TSpinSingle => 800,
        LineClearType::TSpinMiniDouble => 400,
        LineClearType::TSpinDouble => 1200,
        LineClearType::TSpinTriple => 1600,
    }
}

/// Lines removed by a line clear type.
pub open spec fn spec_lines_cleared(t: LineClearType) -> u32 {
    match t {
        LineClearType::Single | LineClearType::TSpinMiniSingle | LineClearType::TSpinSingle => 1,
        LineClearType::Double | LineClearType::TSpinMiniDouble | LineClearType::TSpinDouble => 2,
        LineClearType::Triple | LineClearType::TSpinTriple => 3,
        LineClearType::Tetris => 4,
    }
}

/// A Tetris or a full T-spin: the moves that keep a back-to-back chain.
pub open spec fn spec_is_difficult(t: LineClearType) -> bool {
    t == LineClearType::Tetris || t == LineClearType::TSpinSingle || t
        == LineClearType::TSpinDouble || t == LineClearType::TSpinTriple
}

/// The five T-spin kinds.
pub open spec fn spec_is_t_spin(t: LineClearType) -> bool {
    t == LineClearType::TSpinMiniSingle || t == LineClearType::TSpinSingle || t
        == LineClearType::TSpinMiniDouble || t == LineClearType::TSpinDouble || t
        == LineClearType::TSpinTriple
}

/// Display name of a line clear type.
pub open spec fn spec_clear_name(t: LineClearType) -> Seq<char> {
    match t {
        LineClearType::Single => "Single"@,
        LineClearType::Double => "Double"@,
        LineClearType::Triple => "Triple"@,
        LineClearType::Tetris => "Tetris"@,
        LineClearType::TSpinMiniSingle => "T-Spin Mini Single"@,
        LineClearType::TSpinSingle => "T-Spin Single"@,
        LineClearType::TSpinMiniDouble => "T-Spin Mini Double"@,
        LineClearType::TSpinDouble => "T-Spin Double"@,
        LineClearType::TSpinTriple => "T-Spin Triple"@,
    }
}

impl LineClearType {
    /// Get the base score for this line clear type (before level multiplier)
    pub fn base_score(self) -> (score: u32)
        ensures
            score == spec_base_score(self),
    {
        match self {
            LineClearType::Single => 100,
            LineClearType::Double => 300,
            LineClearType::Triple => 500,
            LineClearType::Tetris => 800,
            LineClearType::TSpinMiniSingle => 200,
            LineClearType::TSpinSingle => 800,
            LineClearType::TSpinMiniDouble => 400,
            LineClearType::TSpinDouble => 1200,
            LineClearType::TSpinTriple => 1600,
        }
    }

    /// Get the number of lines cleared by this action
    pub fn lines_cleared(self) -> (lines: u32)
        ensures
            lines == spec_lines_cleared(self),
    {
        match self {
            LineClearType::Single | LineClearType::TSpinMiniSingle | LineClearType::TSpinSingle => 1,
            LineClearType::Double
            | LineClearType::TSpinMiniDouble
            | LineClearType::TSpinDouble => 2,
            LineClearType::Triple | LineClearType::TSpinTriple => 3,
            LineClearType::Tetris => 4,
        }
    }

    /// Check if this is a "difficult" move that qualifies for back-to-back bonus
    pub fn is_difficult(self) -> (difficult: bool)
        ensures
            difficult == spec_is_difficult(self),
    {
        matches!(
            self,
            LineClearType::Tetris | LineClearType::TSpinSingle | LineClearType::TSpinDouble
                | LineClearType::TSpinTriple
        )
    }

    /// Check if this is a T-spin move
    pub fn is_t_spin(self) -> (t_spin: bool)
        ensures
            t_spin == spec_is_t_spin(self),
    {
        matches!(
            self,
            LineClearType::TSpinMiniSingle | LineClearType::TSpinSingle
                | LineClearType::TSpinMiniDouble | LineClearType::TSpinDouble
                | LineClearType::TSpinTriple
        )
    }

    /// Get a human-readable name for this line clear type
    pub fn name(self) -> (name: &'static str)
        ensures
            name@ == spec_clear_name(self),
    {
        match self {
            LineClearType::Single => "Single",
            LineClearType::Double => "Double",
            LineClearType::Triple => "Triple",
            LineClearType::Tetris => "Tetris",
            LineClearType::TSpinMiniSingle => "T-Spin Mini Single",
            LineClearType::TSpinSingle => "T-Spin Single",
            LineClearType::TSpinMiniDouble => "T-Spin Mini Double",
            LineClearType::TSpinDouble => "T-Spin Double",
            LineClearType::TSpinTriple => "T-Spin Triple",
        }
    }
}

/// Perfect Clear (All Clear) bonus types
#[derive(Debug, Clone, Copy, PartialEq, Eq, Structural)]
pub enum PerfectClearType {
    Single,  // 800 × level
    Double,  // 1200 × level
    Triple,  // 1800 × level
    Tetris,  // 2000 × level
}

/// Base bonus of a perfect clear, before the level multiplier.
pub open spec fn spec_base_bonus(t: PerfectClearType) -> u32 {
    match t {
        PerfectClearType::Single => 800,
        PerfectClearType::Double => 1200,
        PerfectClearType::Triple => 1800,
        PerfectClearType::Tetris => 2000,
    }
}

impl PerfectClearType {
    /// Get the base bonus score for this perfect clear type
    pub fn base_bonus(self) -> (bonus: u32)
        ensures
            bonus == spec_base_bonus(self),
    {
        match self {
            PerfectClearType::Single => 800,
            PerfectClearType::Double => 1200,
            PerfectClearType::Triple => 1800,
            PerfectClearType::Tetris => 2000,
        }
    }
}

/// Scoring action that occurred during gameplay
#[derive(Debug, Clone, Copy)]
pub struct ScoringAction {
    /// Type of line clear
    pub line_clear_type: LineClearType,
    /// Whether this was a perfect clear (all blocks cleared)
    pub perfect_clear: Option<PerfectClearType>,
    /// Current level when action occurred
    pub level: u32,
    /// Current combo count (0 = no combo)
    pub combo: u32,
    /// Whether back-to-back bonus applies
    pub back_to_back: bool,
}

/// Complete scoring result with breakdown
#[derive(Debug, Clone, Copy)]
pub struct ScoringResult {
    /// Base score from line clear
    pub base_score: u32,
    /// Bonus from combo system
    pub combo_bonus: u32,
    /// Bonus from back-to-back chain
    pub back_to_back_bonus: u32,
    /// Bonus from perfect clear
    pub perfect_clear_bonus: u32,
    /// Total score awarded
    pub total_score: u32,
    /// Updated combo count
    pub new_combo: u32,
    /// Whether back-to-back chain continues
    pub back_to_back_continues: bool,
}

/// Comprehensive Tetris scoring system
#[derive(Debug, Clone, Copy)]
pub struct TetrisScoring {
    /// Current combo count (consecutive non-zero line clears)
    pub combo_count: u32,
    /// Whether the last difficult move enables back-to-back bonus
    pub back_to_back_ready: bool,
    /// Total score accumulated
    pub total_score: u32,
}

/// Points of the line clear itself: base score times level.
pub open spec fn base_points(action: ScoringAction) -> int {
    spec_base_score(action.line_clear_type) * action.level
}

/// Combo bonus: 50 × combo × level while a combo is running.
pub open spec fn combo_points(combo_count: u32, action: ScoringAction) -> int {
    if combo_count > 0 {
        50 * combo_count * action.level
    } else {
        0
    }
}

/// Back-to-back bonus: half the base points when a difficult move follows a
/// difficult move and the action asks for it.
pub open spec fn back_to_back_points(back_to_back_ready: bool, action: ScoringAction) -> int {
    if action.back_to_back && back_to_back_ready {
        base_points(action) / 2
    } else {
        0
    }
}

/// Perfect clear bonus: its base bonus times level.
pub open spec fn perfect_clear_points(action: ScoringAction) -> int {
    match action.perfect_clear {
        Some(pc) => spec_base_bonus(pc) * action.level,
        None => 0,
    }
}

/// All points awarded for a line clear.
pub open spec fn total_points(scoring: TetrisScoring, action: ScoringAction) -> int {
    base_points(action) + combo_points(scoring.combo_count, action) + back_to_back_points(
        scoring.back_to_back_ready,
        action,
    ) + perfect_clear_points(action)
}

impl TetrisScoring {
    /// The points of `action` and the next combo count fit in a `u32`.
    pub open spec fn can_score(self, action: ScoringAction) -> bool {
        &&& total_points(self, action) <= u32::MAX
        &&& 50 * self.combo_count <= u32::MAX
        &&& self.combo_count < u32::MAX
    }

    /// The breakdown that `calculate_score` gives for `action`.
    pub open spec fn spec_result(self, action: ScoringAction) -> ScoringResult {
        ScoringResult {
            base_score: base_points(action) as u32,
            combo_bonus: combo_points(self.combo_count, action) as u32,
            back_to_back_bonus: back_to_back_points(self.back_to_back_ready, action) as u32,
            perfect_clear_bonus: perfect_clear_points(action) as u32,
            total_score: total_points(self, action) as u32,
            new_combo: (self.combo_count + 1) as u32,
            back_to_back_continues: spec_is_difficult(action.line_clear_type),
        }
    }

    /// Create a new scoring system
    pub fn new() -> (scoring: Self)
        ensures
            scoring.combo_count == 0,
            !scoring.back_to_back_ready,
            scoring.total_score == 0,
    {
        Self { combo_count: 0, back_to_back_ready: false, total_score: 0 }
    }

    /// Calculate score for a line clear action
    pub fn calculate_score(&self, action: ScoringAction) -> (result: ScoringResult)
        requires
            self.can_score(action),
        ensures
            result == self.spec_result(action),
    {
        let base_score = action.line_clear_type.base_score() * action.level;
        // Calculate combo bonus
        let combo_bonus = if self.combo_count > 0 {
            50 * self.combo_count * action.level
        } else {
            0
        };
        // Calculate back-to-back bonus
        let back_to_back_bonus = if action.back_to_back && self.back_to_back_ready {
            // 50% bonus for back-to-back difficult moves
            base_score / 2
        } else {
            0
        };
        // Calculate perfect clear bonus
        let perfect_clear_bonus = if let Some(pc_type) = action.perfect_clear {
            pc_type.base_bonus() * action.level
        } else {
            0
        };
        let total_score = base_score + combo_bonus + back_to_back_bonus + perfect_clear_bonus;
        // Update combo count
        let new_combo = self.combo_count + 1;
        // Update back-to-back status
        let back_to_back_continues = action.line_clear_type.is_difficult();
        ScoringResult {
            base_score,
            combo_bonus,
            back_to_back_bonus,
            perfect_clear_bonus,
            total_score,
            new_combo,
            back_to_back_continues,
        }
    }

    /// Process a line clear and update internal state
    pub fn process_line_clear(&mut self, action: ScoringAction) -> (result: ScoringResult)
        requires
            old(self).can_score(action),
            old(self).total_score + total_points(*old(self), action) <= u32::MAX,
        ensures
            result == old(self).spec_result(action),
            final(self).combo_count == old(self).combo_count + 1,
            final(self).back_to_back_ready == spec_is_difficult(action.line_clear_type),
            final(self).total_score == old(self).total_score + result.total_score,
    {
        let result = self.calculate_score(action);
        // Update internal state
        self.combo_count = result.new_combo;
        self.back_to_back_ready = result.back_to_back_continues;
        self.total_score = self.total_score + result.total_score;
        result
    }

    /// Process a piece placement with no line clear (breaks combo)
    pub fn process_no_line_clear(&mut self)
        ensures
            final(self).combo_count == 0,
            final(self).back_to_back_ready == old(self).back_to_back_ready,
            final(self).total_score == old(self).total_score,
    {
        self.combo_count = 0;
        // back_to_back_ready status is preserved (only reset by non-difficult moves)
    }

    /// Reset combo but preserve back-to-back status
    pub fn break_combo(&mut self)
        ensures
            final(self).combo_count == 0,
            final(self).back_to_back_ready == old(self).back_to_back_ready,
            final(self).total_score == old(self).total_score,
    {
        self.combo_count = 0;
    }

    /// Reset back-to-back status (called when non-difficult move is made)
    pub fn break_back_to_back(&mut self)
        ensures
            !final(self).back_to_back_ready,
            final(self).combo_count == old(self).combo_count,
            final(self).total_score == old(self).total_score,
    {
        self.back_to_back_ready = false;
    }

    /// Get current combo count
    pub fn current_combo(&self) -> (combo: u32)
        ensures
            combo == self.combo_count,
    {
        self.combo_count
    }

    /// Check if back-to-back bonus is ready
    pub fn is_back_to_back_ready(&self) -> (ready: bool)
        ensures
            ready == self.back_to_back_ready,
    {
        self.back_to_back_ready
    }

    /// Get total accumulated score
    pub fn total_score(&self) -> (total: u32)
        ensures
            total == self.total_score,
    {
        self.total_score
    }

    /// Add points for soft/hard drop (separate from line clears)
    pub fn add_drop_points(&mut self, points: u32)
        requires
            old(self).total_score + points <= u32::MAX,
        ensures
            final(self).total_score == old(self).total_score + points,
            final(self).combo_count == old(self).combo_count,
            final(self).back_to_back_ready == old(self).back_to_back_ready,
    {
        self.total_score = self.total_score + points;
    }

    /// Reset the scoring system (for new game)
    pub fn reset(&mut self)
        ensures
            final(self).combo_count == 0,
            !final(self).back_to_back_ready,
            final(self).total_score == 0,
    {
        self.combo_count = 0;
        self.back_to_back_ready = false;
        self.total_score = 0;
    }
}

impl Default for TetrisScoring {
    fn default() -> (scoring: Self)
        ensures
            scoring.combo_count == 0,
            !scoring.back_to_back_ready,
            scoring.total_score == 0,
    {
        Self::new()
    }
}

/// The line clear type for a number of lines and a kind of T-spin; none for
/// zero lines, for more than four, for a T-spin of four, and for a mini
/// T-spin that is not a T-spin.
pub open spec fn spec_line_clear_type(lines_cleared: u32, is_t_spin: bool, is_mini_t_spin: bool) -> Option<
    LineClearType,
> {
    if !is_t_spin {
        if lines_cleared == 1 {
            Some(LineClearType::Single)
        } else if lines_cleared == 2 {
            Some(LineClearType::Double)
        } else if lines_cleared == 3 {
            Some(LineClearType::Triple)
        } else if lines_cleared == 4 {
            Some(LineClearType::Tetris)
        } else {
            None
        }
    } else {
        if lines_cleared == 1 {
            Some(
                if is_mini_t_spin {
                    LineClearType::TSpinMiniSingle
                } else {
                    LineClearType::TSpinSingle
                },
            )
        } else if lines_cleared == 2 {
            Some(
                if is_mini_t_spin {
                    LineClearType::TSpinMiniDouble
                } else {
                    LineClearType::TSpinDouble
                },
            )
        } else if lines_cleared == 3 {
            // Mini triple = regular triple
            Some(LineClearType::TSpinTriple)
        } else {
            None
        }
    }
}

/// Helper function to determine line clear type from basic parameters
pub fn determine_line_clear_type(lines_cleared: u32, is_t_spin: bool, is_mini_t_spin: bool) -> (t:
    Option<LineClearType>)
    ensures
        t == spec_line_clear_type(lines_cleared, is_t_spin, is_mini_t_spin),
{
    match (lines_cleared, is_t_spin, is_mini_t_spin) {
        (0, _, _) => None,
        (1, false, _) => Some(LineClearType::Single),
        (2, false, _) => Some(LineClearType::Double),
        (3, false, _) => Some(LineClearType::Triple),
        (4, false, _) => Some(LineClearType::Tetris),
        (1, true, true) => Some(LineClearType::TSpinMiniSingle),
        (1, true, false) => Some(LineClearType::TSpinSingle),
        (2, true, true) => Some(LineClearType::TSpinMiniDouble),
        (2, true, false) => Some(LineClearType::TSpinDouble),
        (3, true, false) => Some(LineClearType::TSpinTriple),
        (3, true, true) => Some(LineClearType::TSpinTriple),  // Mini triple = regular triple
        _ => None,  // Invalid combinations
    }
}

/// The type chosen for a clear removes exactly the lines it was chosen for,
/// and is a T-spin exactly when the clear was one.
pub proof fn lemma_line_clear_type_round_trip(
    lines_cleared: u32,
    is_t_spin: bool,
    is_mini_t_spin: bool,
)
    ensures
        spec_line_clear_type(lines_cleared, is_t_spin, is_mini_t_spin) matches Some(t) ==> (
        spec_lines_cleared(t) == lines_cleared && spec_is_t_spin(t) == is_t_spin),
        spec_line_clear_type(lines_cleared, is_t_spin, is_mini_t_spin) is Some <==> (1
            <= lines_cleared <= 4 && !(is_t_spin && lines_cleared == 4)),
{
}

/// Every line clear type is found again from its own line count and T-spin
/// kind, with the mini flag of the mini kinds.
pub proof fn lemma_line_clear_type_from_its_parts(t: LineClearType)
    ensures
        spec_line_clear_type(
            spec_lines_cleared(t),
            spec_is_t_spin(t),
            t == LineClearType::TSpinMiniSingle || t == LineClearType::TSpinMiniDouble,
        ) == Some(t),
{
}

/// Every difficult move clears lines worth at least 800 base points, and a
/// T-spin scores at least as much as the plain clear of as many lines.
pub proof fn lemma_t_spin_pays_at_least_plain(t: LineClearType)
    ensures
        spec_is_difficult(t) ==> spec_base_score(t) >= 800,
        spec_is_t_spin(t) ==> spec_base_score(t) >= spec_base_score(
            spec_line_clear_type(spec_lines_cleared(t), false, false).unwrap(),
        ),
{
}

/// Points for a line clear never decrease the total, and the combo bonus of
/// the next clear is the one the combo count announces: a line clear after
/// `k` earlier consecutive clears at level `l` earns 50·k·l on top.
pub proof fn lemma_combo_bonus_follows_count(scoring: TetrisScoring, action: ScoringAction)
    requires
        scoring.can_score(action),
    ensures
        scoring.spec_result(action).combo_bonus == 50 * scoring.combo_count * action.level,
        scoring.spec_result(action).total_score >= scoring.spec_result(action).base_score,
        scoring.spec_result(action).total_score == scoring.spec_result(action).base_score
            + scoring.spec_result(action).combo_bonus + scoring.spec_result(
            action,
        ).back_to_back_bonus + scoring.spec_result(action).perfect_clear_bonus,
{
    assert(0 <= combo_points(scoring.combo_count, action)) by (nonlinear_arith)
        requires
            scoring.combo_count >= 0,
            action.level >= 0,
            combo_points(scoring.combo_count, action) == (if scoring.combo_count > 0 {
                50 * scoring.combo_count * action.level
            } else {
                0
            }),
    ;
    assert(combo_points(scoring.combo_count, action) == 50 * scoring.combo_count * action.level)
        by (nonlinear_arith)
        requires
            combo_points(scoring.combo_count, action) == (if scoring.combo_count > 0 {
                50 * scoring.combo_count * action.level
            } else {
                0
            }),
    ;
    assert(0 <= base_points(action)) by (nonlinear_arith)
        requires
            base_points(action) == spec_base_score(action.line_clear_type) * action.level,
            action.level >= 0,
    ;
    assert(0 <= perfect_clear_points(action)) by (nonlinear_arith)
        requires
            perfect_clear_points(action) == (match action.perfect_clear {
                Some(pc) => spec_base_bonus(pc) * action.level,
                None => 0,
            }),
            action.level >= 0,
    ;
}

/// A plain clear (no T-spin) of k rows, with no combo running, no
/// back-to-back chain and no perfect clear, scores 100, 300, 500 or 800
/// points times the level for k = 1 to 4, all of it as base score.
pub proof fn law_plain_clear_scores(scoring: TetrisScoring, action: ScoringAction)
    requires
        !spec_is_t_spin(action.line_clear_type),
        action.perfect_clear is None,
        scoring.combo_count == 0,
        !scoring.back_to_back_ready,
        scoring.can_score(action),
    ensures
        ({
            let k = spec_lines_cleared(action.line_clear_type);
            let points = (if k == 1 {
                100int
            } else if k == 2 {
                300int
            } else if k == 3 {
                500int
            } else {
                800int
            }) * action.level;
            &&& scoring.spec_result(action).total_score == points
            &&& scoring.spec_result(action).base_score == points
        }),
{
}

/// Among plain clears (no T-spin), a clear of more rows has a strictly higher
/// base score.
pub proof fn law_more_rows_pay_more(fewer: LineClearType, more: LineClearType)
    requires
        !spec_is_t_spin(fewer),
        !spec_is_t_spin(more),
        spec_lines_cleared(fewer) < spec_lines_cleared(more),
    ensures
        spec_base_score(fewer) < spec_base_score(more),
{
}

} // verus!
