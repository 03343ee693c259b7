use super::Fursona;
use crate::behaviors::pace::{PaceBehavior, PaceDirection};
use crate::behaviors::{AnimationDictionary, Behavior, BehaviorContext};
use crate::rendering::animation_2d::{Animation2D, AnimationState, Keyframe2D};
use crate::rendering::renderer_2d::{ImageHandle, Renderer2D};
use crate::stage::{Viewport, ViewportPoint, ViewportRect};
use vstd::prelude::*;

verus! {

/// The time for which a character's walking image is shown.
pub const WALK_FRAME_MS: u32 = 2000;

enum FursonaInstanceRendering {
    TwoD { behavior: PaceBehavior<Animation2D>, renderer: Renderer2D },
}

/// A character on screen: where it is, how large, how it behaves and what is
/// drawn for it.
pub struct FursonaInstance {
    position: ViewportPoint,
    width: u64,
    height: u64,
    rendering: FursonaInstanceRendering,
}

/// The timeline of a walk: `image`, shown once for [`WALK_FRAME_MS`].
pub open spec fn walk_keyframes(image: ImageHandle) -> Seq<Keyframe2D> {
    seq![Keyframe2D { duration_ms: WALK_FRAME_MS, image }]
}

/// The animation of a walk that shows `image`, not started.
fn walk_animation(image: ImageHandle) -> (animation: Animation2D)
    ensures
        animation.keyframes() == walk_keyframes(image),
        animation.state() == AnimationState::NotStarted,
{
    Animation2D::new(vec![Keyframe2D { duration_ms: WALK_FRAME_MS, image }]).unwrap()
}

impl FursonaInstance {
    /// Where the character is: the top left corner of its bounding box.
    pub closed spec fn position(&self) -> ViewportPoint {
        self.position
    }

    /// The character's size: width, then height.
    pub closed spec fn size(&self) -> (u64, u64) {
        (self.width, self.height)
    }

    /// The behaviour that moves the character.
    pub closed spec fn behavior(&self) -> PaceBehavior<Animation2D> {
        match self.rendering {
            FursonaInstanceRendering::TwoD { behavior, .. } => behavior,
        }
    }

    /// The render target that the character's animations draw on.
    pub closed spec fn spec_renderer(&self) -> Renderer2D {
        match self.rendering {
            FursonaInstanceRendering::TwoD { renderer, .. } => renderer,
        }
    }

    /// What is asked of a tick: the character's position, and the viewport.
    pub open spec fn context<'a>(&self, viewport: &'a Viewport) -> BehaviorContext<'a> {
        BehaviorContext { position: self.position(), viewport }
    }

    /// Whether this is a character as it is first put on screen in `viewport`:
    /// at the top left, without a size yet, about to pace to the right, with
    /// nothing drawn, and with the two images for its walks.
    pub open spec fn starts_at(&self, viewport: Viewport, walk_left_image: ImageHandle, walk_right_image: ImageHandle) -> bool {
        &&& self.position() == (ViewportPoint { x: viewport.left(), y: viewport.top() })
        &&& self.size() == (0u64, 0u64)
        &&& self.spec_renderer().texture is None
        &&& self.behavior().spec_direction() == PaceDirection::Right
        &&& self.behavior().spec_walk_left().keyframes() == walk_keyframes(walk_left_image)
        &&& self.behavior().spec_walk_left().state() == AnimationState::NotStarted
        &&& self.behavior().spec_walk_right().keyframes() == walk_keyframes(walk_right_image)
        &&& self.behavior().spec_walk_right().state() == AnimationState::NotStarted
    }

    /// Puts a character on screen, at the top left of `viewport`. It paces, and
    /// shows `walk_left_image` on its way to the left and `walk_right_image`
    /// on its way to the right.
    pub fn new(_fursona: &Fursona, viewport: &Viewport, walk_left_image: ImageHandle, walk_right_image: ImageHandle) -> (instance:
        FursonaInstance)
        ensures
            instance.starts_at(*viewport, walk_left_image, walk_right_image),
    {
        let make_walk_left = move || -> (animation: Animation2D)
            ensures
                animation.keyframes() == walk_keyframes(walk_left_image),
                animation.state() == AnimationState::NotStarted,
            {
                walk_animation(walk_left_image)
            };
        let make_walk_right = move || -> (animation: Animation2D)
            ensures
                animation.keyframes() == walk_keyframes(walk_right_image),
                animation.state() == AnimationState::NotStarted,
            {
                walk_animation(walk_right_image)
            };
        let mut anim_dictionary = AnimationDictionary {
            walk_left: Some(make_walk_left),
            walk_right: Some(make_walk_right),
        };
        let behavior = PaceBehavior::new(&mut anim_dictionary).unwrap();

        FursonaInstance {
            position: ViewportPoint { x: viewport.left(), y: viewport.top() },
            width: 0,
            height: 0,
            rendering: FursonaInstanceRendering::TwoD { behavior, renderer: Renderer2D::new() },
        }
    }

    /// The character's bounding box.
    pub fn bounding_box(&self) -> (rect: ViewportRect)
        ensures
            rect == (ViewportRect {
                x: self.position().x,
                y: self.position().y,
                width: self.size().0,
                height: self.size().1,
            }),
    {
        ViewportRect { x: self.position.x, y: self.position.y, width: self.width, height: self.height }
    }

    /// The render target that the character's animations draw on.
    pub fn renderer(&self) -> (renderer: &Renderer2D)
        ensures
            *renderer == self.spec_renderer(),
    {
        match &self.rendering {
            FursonaInstanceRendering::TwoD { renderer, .. } => renderer,
        }
    }

    /// Lets the character's behaviour run for a tick of `delta_t_ms`
    /// milliseconds, and takes over what it answers as the character's
    /// position and size.
    pub fn update(&mut self, delta_t_ms: u32, viewport: &Viewport)
        ensures
            final(self).behavior() == old(self).behavior().after_advance(
                delta_t_ms,
                old(self).context(viewport),
            ),
            final(self).spec_renderer() == old(self).behavior().shown_by_advance(
                delta_t_ms,
                old(self).spec_renderer(),
                old(self).context(viewport),
            ),
            final(self).position() == old(self).behavior().result_of_advance(
                delta_t_ms,
                old(self).context(viewport),
            ).bounding_box.position_spec(),
            final(self).size() == old(self).behavior().result_of_advance(
                delta_t_ms,
                old(self).context(viewport),
            ).bounding_box.size_spec(),
    {
        // Process the current behavior
        let behavior_context = BehaviorContext { position: self.position, viewport };
        let result = match &mut self.rendering {
            FursonaInstanceRendering::TwoD { behavior, renderer } => {
                behavior.advance(delta_t_ms, renderer, behavior_context)
            },
        };

        self.position = result.bounding_box.position();
        self.width = result.bounding_box.width;
        self.height = result.bounding_box.height;
    }
}

} // verus!
