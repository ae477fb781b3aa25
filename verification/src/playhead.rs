//! The playhead calculator: a pure function mapping the raw frame
//! accumulator, a composition's frame range and the playback settings to
//! the single absolute frame currently visible.

use vstd::prelude::*;
use vstd::arithmetic::div_mod::{lemma_mod_bound, lemma_mod_multiples_vanish};

use crate::composition::Composition;
use crate::playback_settings::{AnimationDirection, AnimationLoopBehavior, PlaybackSettings};

verus! {

/// First frame of the usable range: the composition range clamped by the
/// authored segments.
pub open spec fn effective_start(c: Composition, s: PlaybackSettings) -> int {
    if s.segments_start > c.frame_start {
        s.segments_start as int
    } else {
        c.frame_start as int
    }
}

/// Exclusive upper bound of the usable range.
pub open spec fn effective_end(c: Composition, s: PlaybackSettings) -> int {
    if s.segments_end < c.frame_end {
        s.segments_end as int
    } else {
        c.frame_end as int
    }
}

/// Number of frames in the usable range.
pub open spec fn usable_len(c: Composition, s: PlaybackSettings) -> int {
    effective_end(c, s) - effective_start(c, s)
}

/// Length of one full loop pass: the usable range plus the intermission
/// tail appended after it.
pub open spec fn loop_len(c: Composition, s: PlaybackSettings) -> int {
    usable_len(c, s) + s.intermission
}

/// Inputs on which the playhead calculator is defined: both value
/// invariants hold, the segments leave a non-empty usable range, and one
/// loop pass fits the frame accumulator's machine type.
pub open spec fn playable(c: Composition, s: PlaybackSettings) -> bool {
    &&& c.valid()
    &&& s.valid()
    &&& effective_start(c, s) < effective_end(c, s)
    &&& c.frame_end + s.intermission <= u64::MAX
}

/// Fold the raw accumulator into a single-loop value in `[0, loop_len]`
/// according to the loop policy.
pub open spec fn loop_fold(r: int, c: Composition, s: PlaybackSettings) -> int {
    let ll = loop_len(c, s);
    match s.looping {
        AnimationLoopBehavior::NoLoop => if r <= ll {
            r
        } else {
            ll
        },
        AnimationLoopBehavior::Amount(n) => (if r <= n * ll {
            r
        } else {
            n * ll
        }) % ll,
        AnimationLoopBehavior::Loop => r % ll,
    }
}

/// The absolute frame visible for a raw accumulator value `r`.
///
/// The playhead never equals the exclusive upper bound of the usable
/// range, since that addresses a non-existent frame; and during the
/// intermission tail of a loop it saturates at the last valid frame for
/// the playback direction (the frame before the end when playing forward,
/// the first frame when playing in reverse) rather than extrapolating past
/// it.
pub open spec fn spec_playhead(r: int, c: Composition, s: PlaybackSettings) -> int {
    let st = effective_start(c, s);
    let en = effective_end(c, s);
    let ul = usable_len(c, s);
    let frame = loop_fold(r, c, s);
    match s.direction {
        AnimationDirection::Normal => if frame >= ul {
            en - 1
        } else {
            st + frame
        },
        AnimationDirection::Reverse => if frame == 0 {
            en - 1
        } else if frame >= ul {
            st
        } else {
            en - frame
        },
    }
}

/// The folded frame always lies in `[0, loop_len]`.
pub proof fn lemma_loop_fold_bounds(r: int, c: Composition, s: PlaybackSettings)
    requires
        playable(c, s),
        r >= 0,
    ensures
        0 <= loop_fold(r, c, s) <= loop_len(c, s),
{
    let ll = loop_len(c, s);
    match s.looping {
        AnimationLoopBehavior::NoLoop => {},
        AnimationLoopBehavior::Amount(n) => {
            let capped = if r <= n * ll { r } else { n * ll };
            assert(n * ll >= 0) by (nonlinear_arith)
                requires n >= 1 && ll >= 1;
            lemma_mod_bound(capped, ll);
        },
        AnimationLoopBehavior::Loop => {
            lemma_mod_bound(r, ll);
        },
    }
}

/// The playhead always addresses an existing frame of the usable range.
pub proof fn lemma_playhead_in_range(r: int, c: Composition, s: PlaybackSettings)
    requires
        playable(c, s),
        r >= 0,
    ensures
        effective_start(c, s) <= spec_playhead(r, c, s) < effective_end(c, s),
{
    lemma_loop_fold_bounds(r, c, s);
}

/// Periodicity: with infinite looping the playhead repeats exactly every
/// loop pass, for every whole number of passes.
pub proof fn lemma_playhead_periodic(r: int, k: int, c: Composition, s: PlaybackSettings)
    requires
        playable(c, s),
        s.looping == AnimationLoopBehavior::Loop,
        r >= 0,
        k >= 0,
    ensures
        spec_playhead(r + k * loop_len(c, s), c, s) == spec_playhead(r, c, s),
{
    let ll = loop_len(c, s);
    lemma_mod_multiples_vanish(k, r, ll);
    assert(ll * k == k * ll) by (nonlinear_arith);
}

/// Without looping, the playhead is monotone in the accumulator:
/// non-decreasing when playing forward, non-increasing in reverse.
pub proof fn lemma_playhead_monotonic(r1: int, r2: int, c: Composition, s: PlaybackSettings)
    requires
        playable(c, s),
        s.looping == AnimationLoopBehavior::NoLoop,
        0 <= r1 <= r2,
    ensures
        s.direction == AnimationDirection::Normal ==> spec_playhead(r1, c, s) <= spec_playhead(
            r2,
            c,
            s,
        ),
        s.direction == AnimationDirection::Reverse ==> spec_playhead(r1, c, s) >= spec_playhead(
            r2,
            c,
            s,
        ),
{
    lemma_playhead_in_range(r1, c, s);
    lemma_playhead_in_range(r2, c, s);
}

/// Without looping, the playhead saturates: once the accumulator has
/// passed one full loop pass, it shows the same frame as at the boundary.
pub proof fn lemma_playhead_saturates(r: int, c: Composition, s: PlaybackSettings)
    requires
        playable(c, s),
        s.looping == AnimationLoopBehavior::NoLoop,
        r >= loop_len(c, s),
    ensures
        spec_playhead(r, c, s) == spec_playhead(loop_len(c, s), c, s),
{
}

/// Pure playhead computation. Deterministic and side-effect-free:
/// identical inputs always produce identical output.
pub fn calculate_playhead(
    rendered_frames: u64,
    composition: &Composition,
    playback_settings: &PlaybackSettings,
) -> (r: u64)
    requires
        playable(*composition, *playback_settings),
    ensures
        r == spec_playhead(rendered_frames as int, *composition, *playback_settings),
        effective_start(*composition, *playback_settings) <= r < effective_end(
            *composition,
            *playback_settings,
        ),
{
    proof {
        lemma_playhead_in_range(rendered_frames as int, *composition, *playback_settings);
        lemma_loop_fold_bounds(rendered_frames as int, *composition, *playback_settings);
    }
    let start_frame: u64 = if playback_settings.segments_start > composition.frame_start {
        playback_settings.segments_start
    } else {
        composition.frame_start
    };
    let end_frame: u64 = if playback_settings.segments_end < composition.frame_end {
        playback_settings.segments_end
    } else {
        composition.frame_end
    };
    let usable: u64 = end_frame - start_frame;
    let length: u64 = usable + playback_settings.intermission;
    let frame: u64 = match playback_settings.looping {
        AnimationLoopBehavior::NoLoop => if rendered_frames <= length {
            rendered_frames
        } else {
            length
        },
        AnimationLoopBehavior::Amount(loops) => {
            proof {
                assert((loops as int) * (length as int) <= (u32::MAX as int) * (u64::MAX as int))
                    by (nonlinear_arith)
                    requires 0 <= loops <= u32::MAX && 0 <= length <= u64::MAX;
            }
            let cap: u128 = (loops as u128) * (length as u128);
            let bounded: u128 = if (rendered_frames as u128) <= cap {
                rendered_frames as u128
            } else {
                cap
            };
            (bounded % (length as u128)) as u64
        },
        AnimationLoopBehavior::Loop => rendered_frames % length,
    };
    match playback_settings.direction {
        AnimationDirection::Normal => if frame >= usable {
            end_frame - 1
        } else {
            start_frame + frame
        },
        AnimationDirection::Reverse => if frame == 0 {
            end_frame - 1
        } else if frame >= usable {
            start_frame
        } else {
            end_frame - frame
        },
    }
}

} // verus!
