//! Playback settings: how one animation plays.

use vstd::prelude::*;

verus! {

/// Playback direction.
#[derive(Clone, Copy, Debug, PartialEq, Eq, Structural)]
pub enum AnimationDirection {
    Normal,
    Reverse,
}

/// Loop policy for an animation.
#[derive(Clone, Copy, Debug, PartialEq, Eq, Structural)]
pub enum AnimationLoopBehavior {
    /// Play once, then hold at the boundary.
    NoLoop,
    /// Play the given number of passes (at least one), then hold.
    Amount(u32),
    /// Loop forever.
    Loop,
}

/// Play mode, carried through to the renderer unchanged.
#[derive(Clone, Copy, Debug, PartialEq, Eq, Structural)]
pub enum AnimationPlayMode {
    Normal,
    PingPong,
}

/// The speed field is a multiplier on elapsed time in thousandths:
/// a speed of `SPEED_UNIT` plays in real time.
pub const SPEED_UNIT: u32 = 1000;

/// Value type describing how one animation plays.
///
/// All frame quantities (`intermission`, `segments_start`, `segments_end`)
/// are in whole frame units.
#[derive(Clone, Copy, Debug, PartialEq, Eq, Structural)]
pub struct PlaybackSettings {
    /// Request play exactly once, the first tick the object is simulated.
    pub autoplay: bool,
    /// Playback direction.
    pub direction: AnimationDirection,
    /// Multiplier on elapsed time, in thousandths (`SPEED_UNIT` = real time).
    pub speed: u32,
    /// Pause length in frame units, appended after each loop iteration.
    pub intermission: u64,
    /// Play mode, opaque to the playhead math.
    pub play_mode: AnimationPlayMode,
    /// Loop policy.
    pub looping: AnimationLoopBehavior,
    /// Start of the half-open sub-range of the composition to play.
    pub segments_start: u64,
    /// Exclusive end of the sub-range; may be wider than the composition's
    /// own range, in which case it is clamped.
    pub segments_end: u64,
}

impl PlaybackSettings {
    /// Construction invariant: the segment range is ordered and a loop
    /// count, if given, is at least one.
    pub open spec fn valid(self) -> bool {
        &&& self.segments_start <= self.segments_end
        &&& (self.looping matches AnimationLoopBehavior::Amount(n) ==> n >= 1)
    }
}

impl Default for PlaybackSettings {
    /// The fallback settings installed when a state carries no override:
    /// autoplay, real-time speed, forward, looping forever, no
    /// intermission, segments wider than any composition.
    fn default() -> (r: Self)
        ensures
            r == default_playback_settings(),
    {
        PlaybackSettings {
            autoplay: true,
            direction: AnimationDirection::Normal,
            speed: SPEED_UNIT,
            intermission: 0,
            play_mode: AnimationPlayMode::Normal,
            looping: AnimationLoopBehavior::Loop,
            segments_start: 0,
            segments_end: u64::MAX,
        }
    }
}

/// The settings `Default` produces, as a spec-level value.
pub open spec fn default_playback_settings() -> PlaybackSettings {
    PlaybackSettings {
        autoplay: true,
        direction: AnimationDirection::Normal,
        speed: 1000,
        intermission: 0,
        play_mode: AnimationPlayMode::Normal,
        looping: AnimationLoopBehavior::Loop,
        segments_start: 0,
        segments_end: u64::MAX,
    }
}

/// The default settings satisfy the construction invariant.
pub proof fn lemma_default_playback_settings_valid()
    ensures
        default_playback_settings().valid(),
{
}

} // verus!
