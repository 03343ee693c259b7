//! Animations and the render target that they draw on.

pub mod animation;
pub mod animation_2d;
pub mod renderer_2d;
pub mod texture_cache;

pub use animation::Animation;
pub use animation_2d::{Animation2D, AnimationState, CurrentFrame, Keyframe2D};
pub use renderer_2d::{ImageHandle, Renderer2D};
pub use texture_cache::TextureCache;
