use core::ops::Add;
use vstd::prelude::*;
use vstd::std_specs::ops::AddSpecImpl;

verus! {

/// Viewport units per pixel.
pub const UNITS_PER_PIXEL: u64 = 1000;

/// A point, measured in viewport units, that is relative to the viewport: the
/// coordinates that the user experiences, `x` to the right and `y` downwards.
#[derive(Clone, Copy, Debug, PartialEq, Eq, Structural)]
pub struct ViewportPoint {
    pub x: i64,
    pub y: i64,
}

impl ViewportPoint {
    /// The point at the whole pixel (`x`, `y`).
    pub open spec fn at_pixel(x: i32, y: i32) -> ViewportPoint {
        ViewportPoint { x: (x * UNITS_PER_PIXEL) as i64, y: (y * UNITS_PER_PIXEL) as i64 }
    }

    /// The point at the whole pixel (`x`, `y`).
    pub fn from_pixels(x: i32, y: i32) -> (point: ViewportPoint)
        ensures
            point == ViewportPoint::at_pixel(x, y),
            point.x == x * 1000,
            point.y == y * 1000,
    {
        ViewportPoint { x: x as i64 * UNITS_PER_PIXEL as i64, y: y as i64 * UNITS_PER_PIXEL as i64 }
    }

    /// Whether the coordinate-wise sum of `self` and `other` is a point again.
    pub open spec fn can_add(self, other: ViewportPoint) -> bool {
        &&& i64::MIN <= self.x + other.x <= i64::MAX
        &&& i64::MIN <= self.y + other.y <= i64::MAX
    }

    /// The coordinate-wise sum of `self` and `other`.
    pub open spec fn plus(self, other: ViewportPoint) -> ViewportPoint {
        ViewportPoint { x: (self.x + other.x) as i64, y: (self.y + other.y) as i64 }
    }
}

impl AddSpecImpl<ViewportPoint> for ViewportPoint {
    open spec fn obeys_add_spec() -> bool {
        true
    }

    open spec fn add_req(self, other: ViewportPoint) -> bool {
        self.can_add(other)
    }

    open spec fn add_spec(self, other: ViewportPoint) -> ViewportPoint {
        self.plus(other)
    }
}

impl Add<ViewportPoint> for ViewportPoint {
    type Output = ViewportPoint;

    /// Adds coordinate by coordinate. Both sums have to fit.
    fn add(self, other: ViewportPoint) -> (sum: ViewportPoint) {
        ViewportPoint { x: self.x + other.x, y: self.y + other.y }
    }
}

} // verus!
