//! The timeline data the composition store exposes for one animation.

use vstd::prelude::*;

verus! {

/// A decoded animation's timeline data: a half-open frame range and a
/// frame rate, independent of the pixels it produces. Frame quantities are
/// whole frame units; `frame_rate` is in frames per second.
#[derive(Clone, Copy, Debug, PartialEq, Eq, Structural)]
pub struct Composition {
    /// First frame of the composition.
    pub frame_start: u64,
    /// Exclusive upper bound of the frame range; never itself a visible
    /// frame.
    pub frame_end: u64,
    /// Frames per second.
    pub frame_rate: u64,
}

impl Composition {
    /// Construction invariant: the frame range is non-empty.
    pub open spec fn valid(self) -> bool {
        self.frame_start < self.frame_end
    }

    /// Number of frames in the composition's own range.
    pub open spec fn range_len(self) -> int {
        self.frame_end - self.frame_start
    }
}

/// The visual content a state's animation reference points at: either a
/// static vector graphic with no timeline, or a timed composition.
#[derive(Clone, Copy, Debug, PartialEq, Eq, Structural)]
pub enum Vector {
    /// A static graphic; it has no frame range, so completion-based
    /// transitions never apply to it.
    Svg,
    /// A timed composition.
    Lottie { composition: Composition },
}

} // verus!
