//! A verified animation state machine and playhead engine for time-based
//! vector animations (Lottie compositions and static SVGs).
//!
//! The library decides, every tick, which frame of which animation is
//! visible and when to switch between named animation states based on
//! elapsed time, animation completion, or pointer interaction. All frame
//! quantities are integers in whole frame units; a host that wants
//! sub-frame precision can pre-scale all frame quantities by a common
//! factor, since the playhead arithmetic is scale-invariant.

pub mod animation_controller;
pub mod composition;
pub mod playback_settings;
pub mod playhead;
pub mod pointer;
pub mod systems;
pub mod transitions;
