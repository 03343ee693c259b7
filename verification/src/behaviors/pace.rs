use super::{AnimationDictionary, Behavior, BehaviorContext, BehaviorPreview, BehaviorResult};
use crate::rendering::animation::Animation;
use crate::rendering::animation_2d::{fresh_frame, lemma_reset_then_advance, Animation2D, AnimationState};
use crate::rendering::renderer_2d::Renderer2D;
use crate::stage::viewport_point::UNITS_PER_PIXEL;
use crate::stage::ViewportRect;
use vstd::prelude::*;

verus! {

/// The walking speed.
pub const SPEED_PIXELS_PER_SECOND: u32 = 240;

/// The walking speed in viewport units per millisecond.
pub const UNITS_PER_MILLISECOND: u64 = SPEED_PIXELS_PER_SECOND as u64 * UNITS_PER_PIXEL / 1000;

/// The way that a pacing character walks.
#[derive(Clone, Copy, Debug, PartialEq, Eq, Structural)]
pub enum PaceDirection {
    Left,
    Right,
}

/// The distance, in viewport units, that a character walks in `delta_t_ms`
/// milliseconds.
pub open spec fn distance(delta_t_ms: u32) -> int {
    delta_t_ms * UNITS_PER_MILLISECOND
}

/// `x` moved into the range from `low` to `high`. Where the range is empty,
/// `low`.
pub open spec fn clamp(x: int, low: int, high: int) -> int {
    let capped = if x > high {
        high
    } else {
        x
    };
    if capped < low {
        low
    } else {
        capped
    }
}

/// Where a character that stands at `x` and walks in `direction` gets to in
/// `delta_t_ms` milliseconds, if nothing is in its way.
pub open spec fn target(direction: PaceDirection, x: int, delta_t_ms: u32) -> int {
    match direction {
        PaceDirection::Left => x - distance(delta_t_ms),
        PaceDirection::Right => x + distance(delta_t_ms),
    }
}

/// The direction in which a character walks on, once it stands at `x` after a
/// tick in `direction`: it turns round where it has reached the bound that it
/// was walking to.
pub open spec fn direction_after(direction: PaceDirection, x: int, left: int, right: int) -> PaceDirection {
    match direction {
        PaceDirection::Left => if x <= left {
            PaceDirection::Right
        } else {
            PaceDirection::Left
        },
        PaceDirection::Right => if x >= right {
            PaceDirection::Left
        } else {
            PaceDirection::Right
        },
    }
}

/// Walks back and forth between the left and the right edge of the viewport.
pub struct PaceBehavior<A: Animation> {
    direction: PaceDirection,
    walk_left: A,
    walk_right: A,
}

impl<A: Animation> PaceBehavior<A> {
    /// The way that the character walks.
    pub closed spec fn spec_direction(&self) -> PaceDirection {
        self.direction
    }

    /// The animation that plays while the character walks to the left.
    pub closed spec fn spec_walk_left(&self) -> A {
        self.walk_left
    }

    /// The animation that plays while the character walks to the right.
    pub closed spec fn spec_walk_right(&self) -> A {
        self.walk_right
    }

    /// The animation that plays: the one of the direction.
    pub open spec fn active(&self) -> A {
        match self.spec_direction() {
            PaceDirection::Left => self.spec_walk_left(),
            PaceDirection::Right => self.spec_walk_right(),
        }
    }

    /// The animation that does not play: the one of the other direction.
    pub open spec fn inactive(&self) -> A {
        match self.spec_direction() {
            PaceDirection::Left => self.spec_walk_right(),
            PaceDirection::Right => self.spec_walk_left(),
        }
    }

    /// The right end of the range in which the character's left edge moves: the
    /// viewport's right edge less the width of the animation that plays.
    pub open spec fn right_bound(&self, context: BehaviorContext) -> int {
        context.viewport.right() - self.active().dimensions().0
    }

    /// Where the character stands after a tick of `delta_t_ms` milliseconds.
    pub open spec fn x_after(&self, delta_t_ms: u32, context: BehaviorContext) -> int {
        clamp(
            target(self.spec_direction(), context.position.x as int, delta_t_ms),
            context.viewport.left() as int,
            self.right_bound(context),
        )
    }

    /// The way that the character walks after a tick of `delta_t_ms`
    /// milliseconds.
    pub open spec fn turned(&self, delta_t_ms: u32, context: BehaviorContext) -> PaceDirection {
        direction_after(
            self.spec_direction(),
            self.x_after(delta_t_ms, context),
            context.viewport.left() as int,
            self.right_bound(context),
        )
    }

    /// The way that the character walks.
    #[verifier::when_used_as_spec(spec_direction)]
    pub fn direction(&self) -> (direction: PaceDirection)
        ensures
            direction == self.spec_direction(),
    {
        self.direction
    }

    /// The animation that plays while the character walks to the left.
    pub fn walk_left(&self) -> (animation: &A)
        ensures
            *animation == self.spec_walk_left(),
    {
        &self.walk_left
    }

    /// The animation that plays while the character walks to the right.
    pub fn walk_right(&self) -> (animation: &A)
        ensures
            *animation == self.spec_walk_right(),
    {
        &self.walk_right
    }
}

/// `x` moved into the range from `low` to `high`.
fn clamp_into(x: i128, low: i128, high: i128) -> (clamped: i128)
    ensures
        clamped == clamp(x as int, low as int, high as int),
{
    let capped = if x > high {
        high
    } else {
        x
    };
    if capped < low {
        low
    } else {
        capped
    }
}

impl<A: Animation> BehaviorPreview for PaceBehavior<A> {
    open spec fn possible_with(walk_right: bool, walk_left: bool) -> bool {
        walk_left && walk_right
    }

    fn is_possible<R, L>(anims: &AnimationDictionary<R, L>) -> (possible: bool) {
        anims.walk_left.is_some() && anims.walk_right.is_some()
    }
}

impl<A: Animation> Behavior<A::ValidRenderer> for PaceBehavior<A> {
    type Animation = A;

    open spec fn has_required(walk_right: bool, walk_left: bool) -> bool {
        walk_left && walk_right
    }

    fn new<R, L>(anims: &mut AnimationDictionary<R, L>) -> (behavior: Option<Self>) where
        R: FnMut() -> A,
        L: FnMut() -> A,

        ensures
            behavior is Some <==> old(anims).walk_left is Some && old(anims).walk_right is Some,
            behavior matches Some(b) ==> {
                &&& b.direction() == PaceDirection::Right
                &&& call_ensures(old(anims).walk_left->0, (), b.spec_walk_left())
                &&& call_ensures(old(anims).walk_right->0, (), b.spec_walk_right())
            },
    {
        let walk_left = if let Some(anim) = &mut anims.walk_left {
            anim()
        } else {
            return None;
        };

        let walk_right = if let Some(anim) = &mut anims.walk_right {
            anim()
        } else {
            return None;
        };

        Some(Self { direction: PaceDirection::Right, walk_left, walk_right })
    }

    closed spec fn after_advance(self, delta_t_ms: u32, context: BehaviorContext) -> Self {
        let direction = self.turned(delta_t_ms, context);
        let restart = direction != self.direction;
        PaceBehavior {
            direction,
            walk_left: match direction {
                PaceDirection::Left => if restart {
                    self.walk_left.after_reset().after_advance(delta_t_ms)
                } else {
                    self.walk_left.after_advance(delta_t_ms)
                },
                PaceDirection::Right => self.walk_left,
            },
            walk_right: match direction {
                PaceDirection::Left => self.walk_right,
                PaceDirection::Right => if restart {
                    self.walk_right.after_reset().after_advance(delta_t_ms)
                } else {
                    self.walk_right.after_advance(delta_t_ms)
                },
            },
        }
    }

    open spec fn shown_by_advance(
        self,
        delta_t_ms: u32,
        renderer: A::ValidRenderer,
        context: BehaviorContext,
    ) -> A::ValidRenderer {
        if self.turned(delta_t_ms, context) == self.spec_direction() {
            self.active().shown_by_advance(delta_t_ms, renderer)
        } else {
            self.inactive().after_reset().shown_by_advance(delta_t_ms, renderer)
        }
    }

    open spec fn result_of_advance(self, delta_t_ms: u32, context: BehaviorContext) -> BehaviorResult {
        let size = self.after_advance(delta_t_ms, context).active().dimensions();
        BehaviorResult {
            bounding_box: ViewportRect {
                x: self.x_after(delta_t_ms, context) as i64,
                y: context.position.y,
                width: size.0,
                height: size.1,
            },
        }
    }

    fn advance(&mut self, delta_t_ms: u32, renderer: &mut A::ValidRenderer, context: BehaviorContext) -> (result:
        BehaviorResult)
        ensures
            result.bounding_box.x == old(self).x_after(delta_t_ms, context),
            final(self).spec_direction() == old(self).turned(delta_t_ms, context),
            final(self).inactive() == if final(self).spec_direction() == old(self).spec_direction() {
                old(self).inactive()
            } else {
                old(self).active()
            },
            final(self).active() == if final(self).spec_direction() == old(self).spec_direction() {
                old(self).active().after_advance(delta_t_ms)
            } else {
                old(self).inactive().after_reset().after_advance(delta_t_ms)
            },
            context.viewport.left() <= old(self).right_bound(context) ==> context.viewport.left()
                <= result.bounding_box.x <= old(self).right_bound(context),
    {
        // The bounds between which the character's left edge moves.
        let left = context.viewport.left() as i128;
        let width = match self.direction {
            PaceDirection::Left => self.walk_left.intrinsic_dimensions().0,
            PaceDirection::Right => self.walk_right.intrinsic_dimensions().0,
        };
        let right = context.viewport.right() as i128 - width as i128;

        // Where the character gets to.
        assert(UNITS_PER_MILLISECOND == 240);
        let dist = (delta_t_ms as u64 * UNITS_PER_MILLISECOND) as i128;
        let x = match self.direction {
            PaceDirection::Left => context.position.x as i128 - dist,
            PaceDirection::Right => context.position.x as i128 + dist,
        };
        let x = clamp_into(x, left, right);

        // At the edge that it was walking to, the character turns round.
        let updated_direction = match self.direction {
            PaceDirection::Left => if x <= left {
                PaceDirection::Right
            } else {
                PaceDirection::Left
            },
            PaceDirection::Right => if x >= right {
                PaceDirection::Left
            } else {
                PaceDirection::Right
            },
        };

        let did_change = updated_direction != self.direction;
        if did_change {
            self.direction = updated_direction;
        }

        // The animation of the new direction starts over; the other one keeps
        // its state.
        let (width, height) = match self.direction {
            PaceDirection::Left => {
                if did_change {
                    self.walk_left.reset();
                }
                self.walk_left.advance(delta_t_ms, renderer);
                self.walk_left.intrinsic_dimensions()
            },
            PaceDirection::Right => {
                if did_change {
                    self.walk_right.reset();
                }
                self.walk_right.advance(delta_t_ms, renderer);
                self.walk_right.intrinsic_dimensions()
            },
        };

        BehaviorResult {
            bounding_box: ViewportRect { x: x as i64, y: context.position.y, width, height },
        }
    }
}

/// A pacing character stays between the bounds, where there is room between
/// them, and turns round exactly when it stands at the bound that it was
/// walking to.
pub proof fn lemma_pace_turns_at_bounds(direction: PaceDirection, x: int, delta_t_ms: u32, left: int, right: int)
    requires
        left <= right,
    ensures
        ({
            let next = clamp(target(direction, x, delta_t_ms), left, right);
            &&& left <= next <= right
            &&& direction == PaceDirection::Right ==> (direction_after(direction, next, left, right)
                == PaceDirection::Left <==> next == right)
            &&& direction == PaceDirection::Left ==> (direction_after(direction, next, left, right)
                == PaceDirection::Right <==> next == left)
        }),
{
}

/// A character that paces in a viewport with room for it never leaves the
/// range between the viewport's left edge and its right edge less the
/// character's width, and turns round exactly when a tick leaves it at the end
/// of the range that it was walking to.
pub proof fn lemma_pacer_turns_at_bounds<A: Animation>(
    behavior: PaceBehavior<A>,
    delta_t_ms: u32,
    context: BehaviorContext,
)
    requires
        context.viewport.left() <= behavior.right_bound(context),
    ensures
        context.viewport.left() <= behavior.x_after(delta_t_ms, context) <= behavior.right_bound(
            context,
        ),
        behavior.turned(delta_t_ms, context) != behavior.spec_direction() <==> behavior.x_after(
            delta_t_ms,
            context,
        ) == match behavior.spec_direction() {
            PaceDirection::Left => context.viewport.left() as int,
            PaceDirection::Right => behavior.right_bound(context),
        },
{
    lemma_pace_turns_at_bounds(
        behavior.spec_direction(),
        context.position.x as int,
        delta_t_ms,
        context.viewport.left() as int,
        behavior.right_bound(context),
    );
}

/// What a tick makes of a pacing behaviour: its direction, the animation that
/// plays and the one that rests.
pub proof fn lemma_pace_after_advance<A: Animation>(
    behavior: PaceBehavior<A>,
    delta_t_ms: u32,
    context: BehaviorContext,
)
    ensures
        ({
            let next = behavior.after_advance(delta_t_ms, context);
            let turns = behavior.turned(delta_t_ms, context) != behavior.spec_direction();
            &&& next.spec_direction() == behavior.turned(delta_t_ms, context)
            &&& next.active() == if turns {
                behavior.inactive().after_reset().after_advance(delta_t_ms)
            } else {
                behavior.active().after_advance(delta_t_ms)
            }
            &&& next.inactive() == if turns {
                behavior.active()
            } else {
                behavior.inactive()
            }
        }),
{
}

/// Where a pacing character turns round, the walk of its new direction starts
/// over: the animation that plays now shows its first keyframe, whose image
/// went to the render target, and the animation that played before rests in
/// the state in which its last advance left it. This holds where the
/// animation of the new direction has a keyframe.
pub proof fn lemma_turn_restarts_walk(
    behavior: PaceBehavior<Animation2D>,
    delta_t_ms: u32,
    renderer: Renderer2D,
    context: BehaviorContext,
)
    requires
        behavior.turned(delta_t_ms, context) != behavior.spec_direction(),
        behavior.inactive().keyframes().len() > 0,
    ensures
        ({
            let next = behavior.after_advance(delta_t_ms, context);
            &&& next.spec_direction() != behavior.spec_direction()
            &&& next.active().keyframes() == behavior.inactive().keyframes()
            &&& next.active().state() == AnimationState::Active(
                fresh_frame(behavior.inactive().keyframes(), 0),
            )
            &&& next.inactive() == behavior.active()
            &&& behavior.shown_by_advance(delta_t_ms, renderer, context).texture == Some(
                behavior.inactive().keyframes()[0].image,
            )
        }),
{
    lemma_pace_after_advance(behavior, delta_t_ms, context);
    lemma_reset_then_advance(behavior.inactive(), delta_t_ms, renderer);
}

} // verus!
