//! The stage on which characters appear: viewport geometry, and the choice of
//! the window's drawing configuration.

pub mod viewport;
pub mod viewport_point;
pub mod viewport_rect;

use vstd::prelude::*;

pub use viewport::Viewport;
pub use viewport_point::{ViewportPoint, UNITS_PER_PIXEL};
pub use viewport_rect::ViewportRect;

verus! {

/// Whether a drawing configuration supports a transparent window, as far as
/// it is known.
pub open spec fn is_transparent(supports_transparency: Option<bool>) -> bool {
    supports_transparency == Some(true)
}

/// Whether, in picking a drawing configuration for the window, a candidate is
/// taken in place of the one picked so far: it is where it is transparent and
/// the other is not, or where it has more samples.
pub fn prefers_config(
    config_transparency: Option<bool>,
    config_samples: u8,
    accum_transparency: Option<bool>,
    accum_samples: u8,
) -> (taken: bool)
    ensures
        taken == ((is_transparent(config_transparency) && !is_transparent(accum_transparency))
            || config_samples > accum_samples),
{
    let transparency_check = config_transparency.unwrap_or(false) && !accum_transparency.unwrap_or(
        false,
    );
    transparency_check || config_samples > accum_samples
}

} // verus!
