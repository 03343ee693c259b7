use vstd::prelude::*;

verus! {

/// A visual timeline that a host advances by the time that has passed.
///
/// An animation is a deterministic state machine. What each operation does is
/// given by a function on values: `after_advance` and `shown_by_advance` for
/// [`advance`](Animation::advance), `after_reset` for
/// [`reset`](Animation::reset). A behaviour that drives an animation states
/// its own contract over these.
pub trait Animation: Sized {
    /// The render target that this kind of animation draws on.
    type ValidRenderer;

    /// Whether the animation has run past its end.
    spec fn finished(&self) -> bool;

    /// The natural size, in viewport units, of what the animation shows, or is
    /// about to show: width, then height.
    spec fn dimensions(&self) -> (u64, u64);

    /// The animation after `delta_t_ms` milliseconds have passed.
    spec fn after_advance(self, delta_t_ms: u32) -> Self;

    /// The render target after the animation has advanced by `delta_t_ms`
    /// milliseconds: `renderer` itself where the frame on display stays.
    spec fn shown_by_advance(self, delta_t_ms: u32, renderer: Self::ValidRenderer) -> Self::ValidRenderer;

    /// The animation back at its start.
    spec fn after_reset(self) -> Self;

    /// Advances the timeline by `delta_t_ms` milliseconds; zero only brings up
    /// the first frame. Where the frame on display changes, the first one
    /// included, its image is handed to `renderer` before the call returns.
    fn advance(&mut self, delta_t_ms: u32, renderer: &mut Self::ValidRenderer)
        ensures
            *final(self) == old(self).after_advance(delta_t_ms),
            *final(renderer) == old(self).shown_by_advance(delta_t_ms, *old(renderer)),
    ;

    /// Whether the animation has run past its end.
    fn is_finished(&self) -> (done: bool)
        ensures
            done == self.finished(),
    ;

    /// The natural size of what the animation shows, or is about to show.
    fn intrinsic_dimensions(&self) -> (size: (u64, u64))
        ensures
            size == self.dimensions(),
    ;

    /// Goes back to the start and drops all progress. The render target is not
    /// touched: the next `advance` brings up the first frame again.
    fn reset(&mut self)
        ensures
            *final(self) == old(self).after_reset(),
    ;
}

} // verus!
