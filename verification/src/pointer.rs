//! The narrow pointer hit-test the transition evaluator depends on: a 2D
//! point against an object's local, un-rotated bounding rectangle.

use vstd::prelude::*;

verus! {

/// A pointer position in the object's local coordinate space, in the same
/// fixed-point unit the host uses for the object's dimensions. The box is
/// anchored at the object's top-left, so points inside it have a
/// non-positive vertical coordinate.
#[derive(Clone, Copy, Debug, PartialEq, Eq, Structural)]
pub struct PointerPosition {
    pub x: i64,
    pub y: i64,
}

/// Whether a sampled pointer, if any, lies inside the local bounding box
/// spanning from the origin to `width` horizontally and from `-height` to
/// zero vertically.
pub open spec fn spec_pointer_inside(
    pointer: Option<PointerPosition>,
    width: i64,
    height: i64,
) -> bool {
    match pointer {
        None => false,
        Some(p) => 0 <= p.x <= width && -height <= p.y <= 0,
    }
}

/// Test a pointer, when one is present, against the object's local
/// bounding box `[0, width] x [-height, 0]`.
pub fn pointer_inside(pointer: Option<PointerPosition>, width: i64, height: i64) -> (r: bool)
    requires
        width >= 0,
        height >= 0,
    ensures
        r == spec_pointer_inside(pointer, width, height),
{
    match pointer {
        None => false,
        Some(p) => p.x <= width && p.x >= 0 && p.y >= -height && p.y <= 0,
    }
}

} // verus!
