use vstd::prelude::*;
use super::viewport_point::ViewportPoint;

verus! {

/// A rectangle, measured in viewport units, that is relative to the viewport:
/// its top left corner and its size.
#[derive(Clone, Copy, Debug, PartialEq, Eq, Structural)]
pub struct ViewportRect {
    pub x: i64,
    pub y: i64,
    pub width: u64,
    pub height: u64,
}

impl ViewportRect {
    /// The top left corner.
    pub open spec fn position_spec(&self) -> ViewportPoint {
        ViewportPoint { x: self.x, y: self.y }
    }

    /// The size: width, then height.
    pub open spec fn size_spec(&self) -> (u64, u64) {
        (self.width, self.height)
    }

    /// The top left corner.
    #[verifier::when_used_as_spec(position_spec)]
    pub fn position(&self) -> (corner: ViewportPoint)
        ensures
            corner == self.position_spec(),
    {
        ViewportPoint { x: self.x, y: self.y }
    }
}

} // verus!
