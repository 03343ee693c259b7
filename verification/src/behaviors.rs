//! Behaviours: controllers that move a character and pick the animation that
//! plays, tick by tick.

pub mod pace;

use crate::stage::{Viewport, ViewportPoint, ViewportRect};
use vstd::prelude::*;

verus! {

/// The animations that a behaviour may ask for, by name. Each slot holds a
/// factory that makes a fresh animation at every call, or nothing where the
/// character has no such animation.
pub struct AnimationDictionary<R, L> {
    pub walk_right: Option<R>,
    pub walk_left: Option<L>,
}

/// What a behaviour is told at each tick: where the character is, and the
/// region in which it may move.
pub struct BehaviorContext<'a> {
    pub position: ViewportPoint,
    pub viewport: &'a Viewport,
}

/// What a behaviour answers at each tick: where the character is now, and how
/// large.
#[derive(Clone, Copy, Debug, PartialEq, Eq, Structural)]
pub struct BehaviorResult {
    pub bounding_box: ViewportRect,
}

/// A controller that, at each tick, moves the character and advances the
/// animation that plays.
pub trait Behavior<T>: Sized {
    /// The kind of animation that the behaviour plays.
    type Animation;

    /// Whether the behaviour has the animations that it needs in a dictionary
    /// of which these slots are filled.
    spec fn has_required(walk_right: bool, walk_left: bool) -> bool;

    /// Makes the behaviour's animations with the factories of `anims`, calling
    /// each factory that it needs once at most. There is no behaviour where a
    /// slot that it needs is empty. The dictionary keeps its factories, for
    /// the next behaviour to have animations of its own.
    fn new<R, L>(anims: &mut AnimationDictionary<R, L>) -> (behavior: Option<Self>) where
        R: FnMut() -> Self::Animation,
        L: FnMut() -> Self::Animation,

        requires
            old(anims).walk_right matches Some(factory) ==> call_requires(factory, ()),
            old(anims).walk_left matches Some(factory) ==> call_requires(factory, ()),
        ensures
            behavior is Some ==> Self::has_required(
                old(anims).walk_right is Some,
                old(anims).walk_left is Some,
            ),
            final(anims).walk_right is Some <==> old(anims).walk_right is Some,
            final(anims).walk_left is Some <==> old(anims).walk_left is Some,
    ;

    /// The behaviour after a tick of `delta_t_ms` milliseconds.
    spec fn after_advance(self, delta_t_ms: u32, context: BehaviorContext) -> Self;

    /// The render target after a tick of `delta_t_ms` milliseconds: `renderer`
    /// itself where the frame on display stays.
    spec fn shown_by_advance(self, delta_t_ms: u32, renderer: T, context: BehaviorContext) -> T;

    /// What a tick of `delta_t_ms` milliseconds answers.
    spec fn result_of_advance(self, delta_t_ms: u32, context: BehaviorContext) -> BehaviorResult;

    /// Moves the character for a tick of `delta_t_ms` milliseconds, advances
    /// the animation that plays, and returns the character's new bounding box.
    /// Ticks may be of any length, and of another length each time.
    fn advance(&mut self, delta_t_ms: u32, renderer: &mut T, context: BehaviorContext) -> (result:
        BehaviorResult)
        ensures
            *final(self) == old(self).after_advance(delta_t_ms, context),
            *final(renderer) == old(self).shown_by_advance(delta_t_ms, *old(renderer), context),
            result == old(self).result_of_advance(delta_t_ms, context),
    ;
}

/// Tells beforehand whether a behaviour can be had from a dictionary.
pub trait BehaviorPreview {
    /// Whether the behaviour is possible with a dictionary of which these
    /// slots are filled.
    spec fn possible_with(walk_right: bool, walk_left: bool) -> bool;

    /// Whether `anims` holds all that the behaviour needs. Nothing is made:
    /// the answer goes by which slots are filled.
    fn is_possible<R, L>(anims: &AnimationDictionary<R, L>) -> (possible: bool)
        ensures
            possible == Self::possible_with(anims.walk_right is Some, anims.walk_left is Some),
    ;
}

} // verus!
