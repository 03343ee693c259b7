use vstd::prelude::*;

verus! {

/// A reference to an image that a texture cache holds: the cache entry, and the
/// image's size in pixels. Two handles stand for the same image exactly when
/// they name the same entry.
#[derive(Clone, Copy, Debug, PartialEq, Eq, Structural)]
pub struct ImageHandle {
    pub texture: usize,
    pub width: u32,
    pub height: u32,
}

/// The render target of two-dimensional animations: it shows the image that it
/// was handed last.
#[derive(Clone, Copy, Debug, PartialEq, Eq, Structural)]
pub struct Renderer2D {
    /// The image on display, if any was handed over yet.
    pub texture: Option<ImageHandle>,
}

impl Renderer2D {
    /// A render target that shows nothing yet.
    pub fn new() -> (renderer: Renderer2D)
        ensures
            renderer.texture is None,
    {
        Renderer2D { texture: None }
    }

    /// Shows `texture` from now on.
    pub fn set_texture(&mut self, texture: ImageHandle)
        ensures
            final(self).texture == Some(texture),
    {
        self.texture = Some(texture);
    }
}

} // verus!
