//! Characters and their instances on screen.

pub mod fursona_instance;

use crate::rendering::renderer_2d::ImageHandle;
use crate::stage::Viewport;
use vstd::prelude::*;

pub use fursona_instance::{FursonaInstance, WALK_FRAME_MS};

verus! {

/// A character as the settings describe it.
#[derive(Debug)]
pub struct Fursona {
    pub name: String,
}

impl Fursona {
    /// Puts the character on screen: see [`FursonaInstance::new`].
    pub fn make_instance(&self, viewport: &Viewport, walk_left_image: ImageHandle, walk_right_image: ImageHandle) -> (instance:
        FursonaInstance)
        ensures
            instance.starts_at(*viewport, walk_left_image, walk_right_image),
    {
        FursonaInstance::new(self, viewport, walk_left_image, walk_right_image)
    }
}

} // verus!
