//! The sounds of the game and the cues that ask for them.

use vstd::prelude::*;

verus! {

/// Types of sounds in the game
#[derive(Debug, Clone, Copy, PartialEq, Eq, Hash, Structural)]
pub enum SoundType {
    /// UI interactions (piece movement, menu navigation)
    UiClick,
    /// Piece placement/locking sound
    PieceSnap,
    /// Hard drop impact
    HardDrop,
    /// Hold piece action
    HoldPiece,
    /// Line clearing effect
    LineClear,
    /// Level completion
    LevelComplete,
    /// Pause/unpause
    Pause,
    /// Game over
    GameOver,
    /// Power-up/special action (for future power-up system)
    PowerAction,
    /// Background music
    BackgroundMusic,
}

/// A sound to play, at a share of its normal volume given in percent.
#[derive(Debug, Clone, Copy, PartialEq, Eq, Structural)]
pub struct SoundCue {
    pub sound: SoundType,
    pub volume_percent: u32,
}

/// A cue for a sound at the given share of its normal volume.
pub open spec fn cue(sound: SoundType, volume_percent: u32) -> SoundCue {
    SoundCue { sound, volume_percent }
}

} // verus!
