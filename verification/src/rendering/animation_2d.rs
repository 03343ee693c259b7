use vstd::prelude::*;
use super::animation::Animation;
use super::renderer_2d::{ImageHandle, Renderer2D};
use crate::stage::viewport_point::UNITS_PER_PIXEL;

verus! {

/// One step of a frame timeline: an image and the time for which it is shown.
#[derive(Clone, Copy, Debug, PartialEq, Eq, Structural)]
pub struct Keyframe2D {
    pub duration_ms: u32,
    pub image: ImageHandle,
}

/// The keyframe on display and the time left before the next one is due.
#[derive(Clone, Copy, Debug, PartialEq, Eq, Structural)]
pub struct CurrentFrame {
    pub index: usize,
    pub time_remaining: u32,
}

/// Where a frame timeline stands.
#[derive(Clone, Copy, Debug, PartialEq, Eq, Structural)]
pub enum AnimationState {
    /// No frame has been selected yet.
    NotStarted,
    /// A keyframe is on display.
    Active(CurrentFrame),
    /// The timeline ran past its last keyframe.
    Finished,
}

/// The keyframe `index` with its whole duration ahead of it.
pub open spec fn fresh_frame(keyframes: Seq<Keyframe2D>, index: int) -> CurrentFrame
    recommends
        0 <= index < keyframes.len(),
{
    CurrentFrame { index: index as usize, time_remaining: keyframes[index].duration_ms }
}

/// The frame that is on display once `delta` milliseconds have passed with
/// keyframe `index` on display and `time_remaining` milliseconds of it left:
/// its index and what is left of it. `None` where the timeline then is past its
/// last keyframe.
///
/// A frame lasts until strictly more than its remaining time has passed. What
/// is left over of `delta` counts against the keyframes that follow, one after
/// the other.
pub open spec fn frame_after(keyframes: Seq<Keyframe2D>, index: int, time_remaining: int, delta: int) -> Option<
    (int, int),
>
    decreases keyframes.len() - index,
{
    if delta <= time_remaining {
        Some((index, time_remaining - delta))
    } else if 0 <= index && index + 1 < keyframes.len() {
        frame_after(
            keyframes,
            index + 1,
            keyframes[index + 1].duration_ms as int,
            delta - time_remaining,
        )
    } else {
        None
    }
}

/// The state of a timeline of `keyframes` once it has been advanced by `delta`
/// milliseconds from `state`. The first advance brings up keyframe 0 and uses
/// up no time, whatever `delta` is; a finished timeline stays finished.
pub open spec fn state_after(keyframes: Seq<Keyframe2D>, state: AnimationState, delta: u32) -> AnimationState {
    match state {
        AnimationState::NotStarted => if keyframes.len() > 0 {
            AnimationState::Active(fresh_frame(keyframes, 0))
        } else {
            AnimationState::Finished
        },
        AnimationState::Active(frame) => match frame_after(
            keyframes,
            frame.index as int,
            frame.time_remaining as int,
            delta as int,
        ) {
            Some((index, time_remaining)) => AnimationState::Active(
                CurrentFrame { index: index as usize, time_remaining: time_remaining as u32 },
            ),
            None => AnimationState::Finished,
        },
        AnimationState::Finished => AnimationState::Finished,
    }
}

/// The keyframe whose image an advance from `state` to `next` hands to the
/// render target: the one that `next` displays, where `state` did not display
/// it already.
pub open spec fn frame_pushed(state: AnimationState, next: AnimationState) -> Option<int> {
    match next {
        AnimationState::Active(shown) => match state {
            AnimationState::Active(before) if before.index == shown.index => None,
            _ => Some(shown.index as int),
        },
        _ => None,
    }
}

/// Whether `state` is a state of a timeline of `keyframes`: the frame on
/// display exists and has no more time left than it lasts.
pub open spec fn state_fits(keyframes: Seq<Keyframe2D>, state: AnimationState) -> bool {
    state matches AnimationState::Active(frame) ==> {
        &&& frame.index < keyframes.len()
        &&& frame.time_remaining <= keyframes[frame.index as int].duration_ms
    }
}

/// Whether every keyframe lasts for some time.
pub open spec fn durations_positive(keyframes: Seq<Keyframe2D>) -> bool {
    forall|i: int| 0 <= i < keyframes.len() ==> (#[trigger] keyframes[i]).duration_ms > 0
}

/// The keyframe by which a timeline's size is told: the one on display, the
/// first one before the start, the last one after the end.
pub open spec fn reference_frame(keyframes: Seq<Keyframe2D>, state: AnimationState) -> int {
    match state {
        AnimationState::NotStarted => 0,
        AnimationState::Active(frame) => frame.index as int,
        AnimationState::Finished => keyframes.len() - 1,
    }
}

/// The size of `image` in viewport units: width, then height.
pub open spec fn image_size(image: ImageHandle) -> (u64, u64) {
    ((image.width * UNITS_PER_PIXEL) as u64, (image.height * UNITS_PER_PIXEL) as u64)
}

/// How far a timeline of `keyframes` has got in `state`: before the start, at
/// a keyframe, or past the end.
pub open spec fn position(keyframes: Seq<Keyframe2D>, state: AnimationState) -> int {
    match state {
        AnimationState::NotStarted => -1,
        AnimationState::Active(frame) => frame.index as int,
        AnimationState::Finished => keyframes.len() as int,
    }
}

/// The time that the keyframes from `from` on last together.
pub open spec fn duration_from(keyframes: Seq<Keyframe2D>, from: int) -> int
    decreases keyframes.len() - from,
{
    if from < 0 || from >= keyframes.len() {
        0
    } else {
        keyframes[from].duration_ms + duration_from(keyframes, from + 1)
    }
}

/// The time that may pass with `frame` on display before the timeline is past
/// its end: what is left of the frame, and the keyframes after it.
pub open spec fn time_left(keyframes: Seq<Keyframe2D>, frame: CurrentFrame) -> int {
    frame.time_remaining + duration_from(keyframes, frame.index + 1)
}

/// The state of a timeline of `keyframes` once it has been advanced from
/// `state` by each of `deltas` in turn.
pub open spec fn state_after_all(keyframes: Seq<Keyframe2D>, state: AnimationState, deltas: Seq<u32>) -> AnimationState
    decreases deltas.len(),
{
    if deltas.len() == 0 {
        state
    } else {
        state_after_all(keyframes, state_after(keyframes, state, deltas[0]), deltas.drop_first())
    }
}

/// The sum of `deltas`.
pub open spec fn total_time(deltas: Seq<u32>) -> int
    decreases deltas.len(),
{
    if deltas.len() == 0 {
        0
    } else {
        deltas[0] + total_time(deltas.drop_first())
    }
}

/// A frame timeline: keyframes that are shown one after the other, each for its
/// duration.
pub struct Animation2D {
    keyframes: Vec<Keyframe2D>,
    state: AnimationState,
}

impl Animation2D {
    #[verifier::type_invariant]
    spec fn well_formed(&self) -> bool {
        &&& durations_positive(self.keyframes@)
        &&& state_fits(self.keyframes@, self.state)
    }

    /// The keyframes, in the order of display.
    pub closed spec fn keyframes(&self) -> Seq<Keyframe2D> {
        self.keyframes@
    }

    /// Where the timeline stands.
    pub closed spec fn spec_state(&self) -> AnimationState {
        self.state
    }

    /// Where the timeline stands.
    #[verifier::when_used_as_spec(spec_state)]
    pub fn state(&self) -> (state: AnimationState)
        ensures
            state == self.spec_state(),
    {
        self.state
    }

    /// A timeline of `keyframes` that has not started. A keyframe that lasts no
    /// time is not accepted.
    pub fn new(keyframes: Vec<Keyframe2D>) -> (animation: Option<Animation2D>)
        ensures
            animation is Some <==> durations_positive(keyframes@),
            animation matches Some(a) ==> a.keyframes() == keyframes@ && a.state()
                == AnimationState::NotStarted,
    {
        let mut i: usize = 0;
        while i < keyframes.len()
            invariant
                i <= keyframes.len(),
                forall|j: int| 0 <= j < i ==> (#[trigger] keyframes@[j]).duration_ms > 0,
            decreases keyframes.len() - i,
        {
            if keyframes[i].duration_ms == 0 {
                return None;
            }
            i += 1;
        }
        Some(Animation2D { keyframes, state: AnimationState::NotStarted })
    }

    fn get_fresh_frame(&self, index: usize) -> (frame: Option<CurrentFrame>)
        ensures
            frame == if index < self.keyframes().len() {
                Some(fresh_frame(self.keyframes(), index as int))
            } else {
                None
            },
    {
        if index < self.keyframes.len() {
            Some(CurrentFrame { index, time_remaining: self.keyframes[index].duration_ms })
        } else {
            None
        }
    }
}

impl Animation for Animation2D {
    type ValidRenderer = Renderer2D;

    closed spec fn finished(&self) -> bool {
        self.state == AnimationState::Finished
    }

    closed spec fn dimensions(&self) -> (u64, u64) {
        if self.keyframes@.len() > 0 {
            image_size(self.keyframes@[reference_frame(self.keyframes@, self.state)].image)
        } else {
            (0, 0)
        }
    }

    closed spec fn after_advance(self, delta_t_ms: u32) -> Animation2D {
        Animation2D {
            keyframes: self.keyframes,
            state: state_after(self.keyframes@, self.state, delta_t_ms),
        }
    }

    closed spec fn shown_by_advance(self, delta_t_ms: u32, renderer: Renderer2D) -> Renderer2D {
        match frame_pushed(self.state, state_after(self.keyframes@, self.state, delta_t_ms)) {
            Some(index) => Renderer2D { texture: Some(self.keyframes@[index].image) },
            None => renderer,
        }
    }

    closed spec fn after_reset(self) -> Animation2D {
        Animation2D { keyframes: self.keyframes, state: AnimationState::NotStarted }
    }

    fn advance(&mut self, delta_t_ms: u32, renderer: &mut Renderer2D)
        ensures
            final(self).keyframes() == old(self).keyframes(),
            final(self).state() == state_after(old(self).keyframes(), old(self).state(), delta_t_ms),
            final(renderer).texture == match frame_pushed(old(self).state(), final(self).state()) {
                Some(index) => Some(old(self).keyframes()[index].image),
                None => old(renderer).texture,
            },
            position(old(self).keyframes(), final(self).state()) >= position(
                old(self).keyframes(),
                old(self).state(),
            ),
            state_fits(final(self).keyframes(), final(self).state()),
    {
        let count = self.keyframes.len();
        proof {
            use_type_invariant(&*self);
            lemma_advance_is_monotonic(self.keyframes@, self.state, delta_t_ms);
        }
        let (current_frame, delta) = match self.state {
            // The first advance takes no time: no frame was on display for
            // any of it to have passed.
            AnimationState::NotStarted => (self.get_fresh_frame(0), 0u32),
            AnimationState::Active(current) => (Some(current), delta_t_ms),
            AnimationState::Finished => (None, 0u32),
        };

        let mut current_frame = match current_frame {
            Some(f) => f,
            None => {
                self.state = AnimationState::Finished;
                return ;
            },
        };
        let ghost first_frame = current_frame;
        let ghost first_delta = delta;

        // While the current frame would end, move to the next one.
        let mut delta = delta;
        while delta > current_frame.time_remaining
            invariant
                self.keyframes == old(self).keyframes,
                self.state == old(self).state,
                *renderer == *old(renderer),
                durations_positive(self.keyframes@),
                count == self.keyframes@.len(),
                self.state matches AnimationState::Active(c) ==> c == first_frame && first_delta
                    == delta_t_ms,
                self.state is NotStarted ==> first_delta == 0,
                !(self.state is Finished),
                current_frame.index < count,
                current_frame.time_remaining <= self.keyframes@[current_frame.index as int].duration_ms,
                first_frame.index <= current_frame.index,
                first_frame.index == current_frame.index ==> first_frame == current_frame
                    && first_delta == delta,
                frame_after(
                    self.keyframes@,
                    current_frame.index as int,
                    current_frame.time_remaining as int,
                    delta as int,
                ) == frame_after(
                    self.keyframes@,
                    first_frame.index as int,
                    first_frame.time_remaining as int,
                    first_delta as int,
                ),
            decreases count - current_frame.index,
        {
            delta -= current_frame.time_remaining;
            let next = self.get_fresh_frame(current_frame.index + 1);
            current_frame = match next {
                Some(f) => f,
                None => {
                    self.state = AnimationState::Finished;
                    return ;
                },
            };
        }

        // This is the frame to display. Where the state has another one, take
        // it over and tell the render target.
        let should_update_state = match self.state {
            AnimationState::NotStarted | AnimationState::Finished => true,
            AnimationState::Active(c) => c.index != current_frame.index,
        };

        if should_update_state {
            self.state = AnimationState::Active(current_frame);
            renderer.set_texture(self.keyframes[current_frame.index].image);
        }

        // Take the time that is left over off this frame.
        if delta > 0 {
            match self.state {
                AnimationState::Active(c) => {
                    self.state = AnimationState::Active(
                        CurrentFrame { index: c.index, time_remaining: c.time_remaining - delta },
                    );
                },
                _ => (),
            }
        }
    }

    fn is_finished(&self) -> (done: bool)
        ensures
            done == (self.state() == AnimationState::Finished),
    {
        match self.state {
            AnimationState::Finished => true,
            _ => false,
        }
    }

    fn intrinsic_dimensions(&self) -> (size: (u64, u64))
        ensures
            size == if self.keyframes().len() > 0 {
                image_size(self.keyframes()[reference_frame(self.keyframes(), self.state())].image)
            } else {
                (0u64, 0u64)
            },
    {
        proof {
            use_type_invariant(self);
        }
        let index = match self.state {
            AnimationState::NotStarted => 0,
            AnimationState::Active(frame) => frame.index,
            AnimationState::Finished => if self.keyframes.len() > 0 {
                self.keyframes.len() - 1
            } else {
                0
            },
        };
        if index < self.keyframes.len() {
            let image = self.keyframes[index].image;
            (image.width as u64 * UNITS_PER_PIXEL, image.height as u64 * UNITS_PER_PIXEL)
        } else {
            (0, 0)
        }
    }

    fn reset(&mut self)
        ensures
            final(self).keyframes() == old(self).keyframes(),
            final(self).state() == AnimationState::NotStarted,
    {
        proof {
            use_type_invariant(&*self);
        }
        self.state = AnimationState::NotStarted;
    }
}

/// No keyframes last less than no time.
pub proof fn lemma_duration_from_nonnegative(keyframes: Seq<Keyframe2D>, from: int)
    ensures
        duration_from(keyframes, from) >= 0,
    decreases keyframes.len() - from,
{
    if 0 <= from < keyframes.len() {
        lemma_duration_from_nonnegative(keyframes, from + 1);
    }
}

/// Time is not lost: the frame that is on display after `delta` milliseconds
/// has `delta` less to go to the end of the timeline than the frame before.
/// The timeline is past its end exactly when `delta` is more than there was to
/// go.
pub proof fn lemma_frame_after(keyframes: Seq<Keyframe2D>, index: int, time_remaining: int, delta: int)
    requires
        0 <= index < keyframes.len(),
        0 <= time_remaining,
        0 <= delta,
    ensures
        match frame_after(keyframes, index, time_remaining, delta) {
            Some((next, left)) => {
                &&& index <= next < keyframes.len()
                &&& next == index ==> left == time_remaining - delta
                &&& next > index ==> left < keyframes[next].duration_ms
                &&& 0 <= left
                &&& left + duration_from(keyframes, next + 1) == time_remaining + duration_from(
                    keyframes,
                    index + 1,
                ) - delta
            },
            None => delta > time_remaining + duration_from(keyframes, index + 1),
        },
    decreases keyframes.len() - index,
{
    if delta > time_remaining && index + 1 < keyframes.len() {
        lemma_frame_after(
            keyframes,
            index + 1,
            keyframes[index + 1].duration_ms as int,
            delta - time_remaining,
        );
    }
}

/// The keyframes after `earlier` last at least as long as keyframe `later`
/// and those after it.
pub proof fn lemma_duration_from_covers(keyframes: Seq<Keyframe2D>, earlier: int, later: int)
    requires
        0 <= earlier < later < keyframes.len(),
    ensures
        duration_from(keyframes, earlier + 1) >= keyframes[later].duration_ms + duration_from(
            keyframes,
            later + 1,
        ),
    decreases later - earlier,
{
    if earlier + 1 < later {
        lemma_duration_from_covers(keyframes, earlier + 1, later);
    }
}

/// The frame that is on display after `delta` milliseconds is the only one
/// that accounts for the time: the keyframe `next`, at or after `index`, with
/// `left` of its time to go, such that `delta` less is left to the end of the
/// timeline than before, and such that a keyframe other than `index` has had
/// some of its time.
pub proof fn lemma_frame_after_is_determined(
    keyframes: Seq<Keyframe2D>,
    index: int,
    time_remaining: int,
    delta: int,
    next: int,
    left: int,
)
    requires
        0 <= index <= next < keyframes.len(),
        0 <= time_remaining,
        0 <= delta,
        0 <= left,
        next > index ==> left < keyframes[next].duration_ms,
        left + duration_from(keyframes, next + 1) == time_remaining + duration_from(keyframes, index + 1)
            - delta,
    ensures
        frame_after(keyframes, index, time_remaining, delta) == Some((next, left)),
{
    lemma_frame_after(keyframes, index, time_remaining, delta);
    lemma_duration_from_nonnegative(keyframes, next + 1);
    match frame_after(keyframes, index, time_remaining, delta) {
        Some((found, found_left)) => {
            if found < next {
                lemma_duration_from_covers(keyframes, found, next);
            } else if next < found {
                lemma_duration_from_covers(keyframes, next, found);
            }
        },
        None => {},
    }
}

/// An advance never takes a timeline backwards: not to an earlier keyframe,
/// not back from the end, and not back to before the start. The state that it
/// leaves is a state of the same timeline.
pub proof fn lemma_advance_is_monotonic(keyframes: Seq<Keyframe2D>, state: AnimationState, delta: u32)
    requires
        keyframes.len() <= usize::MAX,
        state_fits(keyframes, state),
    ensures
        position(keyframes, state_after(keyframes, state, delta)) >= position(keyframes, state),
        !(state_after(keyframes, state, delta) is NotStarted),
        state_fits(keyframes, state_after(keyframes, state, delta)),
{
    if let AnimationState::Active(frame) = state {
        lemma_frame_after(keyframes, frame.index as int, frame.time_remaining as int, delta as int);
    }
}

/// A finished timeline stays finished, whatever time passes.
pub proof fn lemma_finished_stays_finished(keyframes: Seq<Keyframe2D>, deltas: Seq<u32>)
    ensures
        state_after_all(keyframes, AnimationState::Finished, deltas) is Finished,
    decreases deltas.len(),
{
    if deltas.len() > 0 {
        lemma_finished_stays_finished(keyframes, deltas.drop_first());
    }
}

/// No ticks last less than no time.
pub proof fn lemma_total_time_nonnegative(deltas: Seq<u32>)
    ensures
        total_time(deltas) >= 0,
    decreases deltas.len(),
{
    if deltas.len() > 0 {
        lemma_total_time_nonnegative(deltas.drop_first());
    }
}

/// With `frame` on display, a timeline is finished after some advances
/// exactly when they come to more time than was left.
pub proof fn lemma_finished_after_time_left(keyframes: Seq<Keyframe2D>, frame: CurrentFrame, deltas: Seq<u32>)
    requires
        keyframes.len() <= usize::MAX,
        state_fits(keyframes, AnimationState::Active(frame)),
    ensures
        state_after_all(keyframes, AnimationState::Active(frame), deltas) is Finished <==> total_time(
            deltas,
        ) > time_left(keyframes, frame),
    decreases deltas.len(),
{
    lemma_duration_from_nonnegative(keyframes, frame.index + 1);
    if deltas.len() > 0 {
        let rest = deltas.drop_first();
        lemma_total_time_nonnegative(rest);
        lemma_frame_after(keyframes, frame.index as int, frame.time_remaining as int, deltas[0] as int);
        match state_after(keyframes, AnimationState::Active(frame), deltas[0]) {
            AnimationState::Active(next) => {
                lemma_finished_after_time_left(keyframes, next, rest);
            },
            _ => {
                lemma_finished_stays_finished(keyframes, rest);
            },
        }
    }
}

/// A timeline that has a keyframe is not finished while the time that has
/// passed since its first advance is no more than its keyframes last together,
/// and is finished as soon as it is more. The first advance of `deltas` only
/// brings up the first keyframe, so its time does not count.
pub proof fn lemma_total_duration_boundary(keyframes: Seq<Keyframe2D>, deltas: Seq<u32>)
    requires
        0 < keyframes.len() <= usize::MAX,
        deltas.len() > 0,
    ensures
        state_after_all(keyframes, AnimationState::NotStarted, deltas) is Finished <==> total_time(
            deltas.drop_first(),
        ) > duration_from(keyframes, 0),
{
    lemma_finished_after_time_left(keyframes, fresh_frame(keyframes, 0), deltas.drop_first());
}

/// What the operations of an animation are for a frame timeline.
pub proof fn lemma_timeline_operations(animation: Animation2D, delta_t_ms: u32, renderer: Renderer2D)
    ensures
        animation.finished() == (animation.state() == AnimationState::Finished),
        animation.dimensions() == if animation.keyframes().len() > 0 {
            image_size(
                animation.keyframes()[reference_frame(animation.keyframes(), animation.state())].image,
            )
        } else {
            (0u64, 0u64)
        },
        animation.after_advance(delta_t_ms).keyframes() == animation.keyframes(),
        animation.after_advance(delta_t_ms).state() == state_after(
            animation.keyframes(),
            animation.state(),
            delta_t_ms,
        ),
        animation.shown_by_advance(delta_t_ms, renderer) == match frame_pushed(
            animation.state(),
            state_after(animation.keyframes(), animation.state(), delta_t_ms),
        ) {
            Some(index) => (Renderer2D { texture: Some(animation.keyframes()[index].image) }),
            None => renderer,
        },
        animation.after_reset().keyframes() == animation.keyframes(),
        animation.after_reset().state() == AnimationState::NotStarted,
{
}

/// After a reset the next advance brings up the first keyframe again and
/// hands its image to the render target, whatever state the timeline was in
/// and whatever time the advance is given. This holds of a timeline that has a
/// keyframe.
pub proof fn lemma_reset_then_advance(animation: Animation2D, delta_t_ms: u32, renderer: Renderer2D)
    requires
        animation.keyframes().len() > 0,
    ensures
        animation.after_reset().after_advance(delta_t_ms).state() == AnimationState::Active(
            fresh_frame(animation.keyframes(), 0),
        ),
        animation.after_reset().after_advance(delta_t_ms).keyframes() == animation.keyframes(),
        animation.after_reset().shown_by_advance(delta_t_ms, renderer).texture == Some(
            animation.keyframes()[0].image,
        ),
{
}

} // verus!
