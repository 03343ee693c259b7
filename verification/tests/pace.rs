use deskpet::{
    Animation, Animation2D, AnimationDictionary, AnimationState, Behavior, BehaviorContext,
    BehaviorPreview, CurrentFrame, ImageHandle, Keyframe2D, PaceBehavior, PaceDirection, Renderer2D,
    Viewport, ViewportPoint, ViewportRect, SPEED_PIXELS_PER_SECOND, UNITS_PER_PIXEL,
};
use std::cell::Cell;

const LEFT_IMAGE: ImageHandle = ImageHandle { texture: 1, width: 50, height: 40 };
const RIGHT_IMAGE: ImageHandle = ImageHandle { texture: 2, width: 50, height: 40 };

fn walk(image: ImageHandle) -> Animation2D {
    Animation2D::new(vec![
        Keyframe2D { duration_ms: 300, image },
        Keyframe2D { duration_ms: 300, image: ImageHandle { texture: image.texture + 10, ..image } },
    ])
    .unwrap()
}

fn pacer_with(left: ImageHandle, right: ImageHandle) -> PaceBehavior<Animation2D> {
    let mut anims = AnimationDictionary {
        walk_left: Some(move || walk(left)),
        walk_right: Some(move || walk(right)),
    };
    PaceBehavior::new(&mut anims).unwrap()
}

fn pacer() -> PaceBehavior<Animation2D> {
    pacer_with(LEFT_IMAGE, RIGHT_IMAGE)
}

/// One tick at `position` in `viewport`; returns the bounding box.
fn tick(
    behavior: &mut PaceBehavior<Animation2D>,
    renderer: &mut Renderer2D,
    delta: u32,
    position: ViewportPoint,
    viewport: &Viewport,
) -> ViewportRect {
    behavior.advance(delta, renderer, BehaviorContext { position, viewport }).bounding_box
}

fn at(x: i64) -> ViewportPoint {
    ViewportPoint { x, y: 25_000 }
}

#[test]
fn pacing_scenario() {
    // Viewport [0, 300], width 50, 240 pixels a second.
    let viewport = Viewport::new(0, 300_000, 0);
    let mut behavior = pacer();
    let mut renderer = Renderer2D::new();
    assert_eq!(behavior.direction(), PaceDirection::Right);

    let rect = tick(&mut behavior, &mut renderer, 500, ViewportPoint { x: 0, y: 0 }, &viewport);
    assert_eq!(rect.x, 120_000);
    assert_eq!(behavior.direction(), PaceDirection::Right);

    let rect = tick(&mut behavior, &mut renderer, 2000, rect.position(), &viewport);
    assert_eq!(rect.x, 250_000);
    assert_eq!(behavior.direction(), PaceDirection::Left);
}

#[test]
fn speed_is_exact() {
    assert_eq!(SPEED_PIXELS_PER_SECOND, 240);
    assert_eq!(UNITS_PER_PIXEL, 1000);
    let viewport = Viewport::new(0, 10_000_000, 0);
    let mut renderer = Renderer2D::new();

    let mut behavior = pacer();
    assert_eq!(tick(&mut behavior, &mut renderer, 1, at(0), &viewport).x, 240);
    assert_eq!(tick(&mut behavior, &mut renderer, 16, at(240), &viewport).x, 4_080);
    assert_eq!(tick(&mut behavior, &mut renderer, 1000, at(4_080), &viewport).x, 244_080);
    assert_eq!(tick(&mut behavior, &mut renderer, 0, at(244_080), &viewport).x, 244_080);
}

#[test]
fn bounding_box_has_position_and_size_of_active_animation() {
    let wide = ImageHandle { texture: 3, width: 80, height: 20 };
    let viewport = Viewport::new(0, 300_000, 0);
    let mut behavior = pacer_with(LEFT_IMAGE, wide);
    let mut renderer = Renderer2D::new();
    let rect = tick(&mut behavior, &mut renderer, 100, ViewportPoint { x: 1_000, y: 77_000 }, &viewport);
    assert_eq!(rect, ViewportRect { x: 25_000, y: 77_000, width: 80_000, height: 20_000 });
}

#[test]
fn right_bound_leaves_room_for_the_width() {
    let wide = ImageHandle { texture: 3, width: 80, height: 20 };
    let viewport = Viewport::new(0, 300_000, 0);
    let mut behavior = pacer_with(LEFT_IMAGE, wide);
    let mut renderer = Renderer2D::new();
    let rect = tick(&mut behavior, &mut renderer, 60_000, at(0), &viewport);
    assert_eq!(rect.x, 220_000);
    assert_eq!(behavior.direction(), PaceDirection::Left);
    // After the turn the size is that of the animation that plays now.
    assert_eq!((rect.width, rect.height), (50_000, 40_000));
}

#[test]
fn turns_exactly_at_the_right_bound() {
    let viewport = Viewport::new(0, 300_000, 0);
    let mut renderer = Renderer2D::new();

    // One unit short of the bound: walks on.
    let mut behavior = pacer();
    let rect = tick(&mut behavior, &mut renderer, 1, at(250_000 - 241), &viewport);
    assert_eq!(rect.x, 249_999);
    assert_eq!(behavior.direction(), PaceDirection::Right);

    // Onto the bound: turns.
    let mut behavior = pacer();
    let rect = tick(&mut behavior, &mut renderer, 1, at(250_000 - 240), &viewport);
    assert_eq!(rect.x, 250_000);
    assert_eq!(behavior.direction(), PaceDirection::Left);

    // Past the bound: stopped at it, and turns.
    let mut behavior = pacer();
    let rect = tick(&mut behavior, &mut renderer, 1, at(250_000 - 239), &viewport);
    assert_eq!(rect.x, 250_000);
    assert_eq!(behavior.direction(), PaceDirection::Left);

    // Standing at the bound without any time passing turns as well.
    let mut behavior = pacer();
    let rect = tick(&mut behavior, &mut renderer, 0, at(250_000), &viewport);
    assert_eq!(rect.x, 250_000);
    assert_eq!(behavior.direction(), PaceDirection::Left);
}

#[test]
fn paces_back_and_forth_between_the_bounds() {
    let left = 10_000;
    let right = 310_000;
    let viewport = Viewport::new(left, right, 0);
    let mut behavior = pacer();
    let mut renderer = Renderer2D::new();
    let mut position = ViewportPoint { x: left, y: 0 };
    let mut turns = 0;

    for step in 0..400u32 {
        // Ticks of uneven length.
        let delta = 7 + (step * 13) % 40;
        let before = behavior.direction();
        let rect = tick(&mut behavior, &mut renderer, delta, position, &viewport);
        assert!(rect.x >= left);
        assert!(rect.x <= right - 50_000);
        let turned = behavior.direction() != before;
        match before {
            PaceDirection::Right => assert_eq!(turned, rect.x == right - 50_000),
            PaceDirection::Left => assert_eq!(turned, rect.x == left),
        }
        if turned {
            turns += 1;
        } else {
            let walked = (delta * 240) as i64;
            match before {
                PaceDirection::Right => assert_eq!(rect.x, position.x + walked),
                PaceDirection::Left => assert_eq!(rect.x, position.x - walked),
            }
        }
        position = rect.position();
    }
    assert!(turns >= 4);
}

#[test]
fn turns_at_the_left_bound_on_the_way_back() {
    let viewport = Viewport::new(0, 300_000, 0);
    let mut behavior = pacer();
    let mut renderer = Renderer2D::new();
    let rect = tick(&mut behavior, &mut renderer, 5_000, at(0), &viewport);
    assert_eq!(behavior.direction(), PaceDirection::Left);

    let rect = tick(&mut behavior, &mut renderer, 1_000, rect.position(), &viewport);
    assert_eq!(rect.x, 10_000);
    assert_eq!(behavior.direction(), PaceDirection::Left);

    let rect = tick(&mut behavior, &mut renderer, 1_000, rect.position(), &viewport);
    assert_eq!(rect.x, 0);
    assert_eq!(behavior.direction(), PaceDirection::Right);
}

#[test]
fn position_outside_the_viewport_is_brought_in() {
    let viewport = Viewport::new(100_000, 400_000, 0);
    let mut renderer = Renderer2D::new();

    let mut behavior = pacer();
    let rect = tick(&mut behavior, &mut renderer, 10, at(-5_000_000), &viewport);
    assert_eq!(rect.x, 100_000);
    assert_eq!(behavior.direction(), PaceDirection::Right);

    let mut behavior = pacer();
    let rect = tick(&mut behavior, &mut renderer, 10, at(5_000_000), &viewport);
    assert_eq!(rect.x, 350_000);
    assert_eq!(behavior.direction(), PaceDirection::Left);
}

#[test]
fn character_wider_than_the_viewport_stays_at_the_left_edge() {
    let viewport = Viewport::new(0, 30_000, 0);
    let mut behavior = pacer();
    let mut renderer = Renderer2D::new();
    let rect = tick(&mut behavior, &mut renderer, 100, at(0), &viewport);
    assert_eq!(rect.x, 0);
    assert_eq!(behavior.direction(), PaceDirection::Left);
    let rect = tick(&mut behavior, &mut renderer, 100, rect.position(), &viewport);
    assert_eq!(rect.x, 0);
    assert_eq!(behavior.direction(), PaceDirection::Right);
}

#[test]
fn extreme_coordinates_are_taken() {
    let mut renderer = Renderer2D::new();

    let viewport = Viewport::new(i64::MIN, i64::MAX, 0);
    let mut behavior = pacer();
    let rect = tick(&mut behavior, &mut renderer, u32::MAX, at(i64::MAX), &viewport);
    assert_eq!(rect.x, i64::MAX - 50_000);
    assert_eq!(behavior.direction(), PaceDirection::Left);
    let rect = tick(&mut behavior, &mut renderer, u32::MAX, at(i64::MIN), &viewport);
    assert_eq!(rect.x, i64::MIN);
    assert_eq!(behavior.direction(), PaceDirection::Right);

    let viewport = Viewport::new(i64::MIN, i64::MIN, 0);
    let mut behavior = pacer();
    let rect = tick(&mut behavior, &mut renderer, 1, at(0), &viewport);
    assert_eq!(rect.x, i64::MIN);
}

#[test]
fn turn_restarts_the_walk_of_the_new_direction() {
    let viewport = Viewport::new(0, 300_000, 0);
    let mut behavior = pacer();
    let mut renderer = Renderer2D::new();

    // To the right, into the second keyframe of that walk.
    let rect = tick(&mut behavior, &mut renderer, 0, at(0), &viewport);
    let rect = tick(&mut behavior, &mut renderer, 400, rect.position(), &viewport);
    let right_walk = AnimationState::Active(CurrentFrame { index: 1, time_remaining: 200 });
    assert_eq!(behavior.walk_right().state(), right_walk);
    assert_eq!(behavior.walk_left().state(), AnimationState::NotStarted);
    assert_eq!(renderer.texture, Some(ImageHandle { texture: 12, ..RIGHT_IMAGE }));

    // Onto the bound: the walk to the left starts at its first keyframe, and
    // the walk to the right rests as it was.
    let rect = tick(&mut behavior, &mut renderer, 1_000, rect.position(), &viewport);
    assert_eq!(behavior.direction(), PaceDirection::Left);
    assert_eq!(
        behavior.walk_left().state(),
        AnimationState::Active(CurrentFrame { index: 0, time_remaining: 300 })
    );
    assert_eq!(behavior.walk_right().state(), right_walk);
    assert_eq!(renderer.texture, Some(LEFT_IMAGE));
    assert_eq!((rect.width, rect.height), (50_000, 40_000));

    // All the way back, past the end of the walk to the left.
    let rect = tick(&mut behavior, &mut renderer, 500, rect.position(), &viewport);
    assert_eq!(
        behavior.walk_left().state(),
        AnimationState::Active(CurrentFrame { index: 1, time_remaining: 100 })
    );
    let rect = tick(&mut behavior, &mut renderer, 5_000, rect.position(), &viewport);
    assert_eq!(rect.x, 0);
    assert_eq!(behavior.direction(), PaceDirection::Right);

    // The walk to the right does not go on from where it rested: it starts over.
    assert_eq!(
        behavior.walk_right().state(),
        AnimationState::Active(CurrentFrame { index: 0, time_remaining: 300 })
    );
    assert_eq!(
        behavior.walk_left().state(),
        AnimationState::Active(CurrentFrame { index: 1, time_remaining: 100 })
    );
    assert_eq!(renderer.texture, Some(RIGHT_IMAGE));
}

#[test]
fn resting_animation_is_not_advanced() {
    let viewport = Viewport::new(0, 3_000_000, 0);
    let mut behavior = pacer();
    let mut renderer = Renderer2D::new();
    let mut position = at(0);
    for _ in 0..10 {
        position = tick(&mut behavior, &mut renderer, 50, position, &viewport).position();
        assert_eq!(behavior.direction(), PaceDirection::Right);
        assert_eq!(behavior.walk_left().state(), AnimationState::NotStarted);
    }
    assert!(behavior.walk_right().is_finished() || behavior.walk_right().state() != AnimationState::NotStarted);
}

#[test]
fn possible_with_both_walks_only() {
    let both = AnimationDictionary {
        walk_left: Some(|| walk(LEFT_IMAGE)),
        walk_right: Some(|| walk(RIGHT_IMAGE)),
    };
    assert!(PaceBehavior::<Animation2D>::is_possible(&both));

    let no_left: AnimationDictionary<_, fn() -> Animation2D> =
        AnimationDictionary { walk_left: None, walk_right: Some(|| walk(RIGHT_IMAGE)) };
    assert!(!PaceBehavior::<Animation2D>::is_possible(&no_left));

    let no_right: AnimationDictionary<fn() -> Animation2D, _> =
        AnimationDictionary { walk_left: Some(|| walk(LEFT_IMAGE)), walk_right: None };
    assert!(!PaceBehavior::<Animation2D>::is_possible(&no_right));

    let none: AnimationDictionary<fn() -> Animation2D, fn() -> Animation2D> =
        AnimationDictionary { walk_left: None, walk_right: None };
    assert!(!PaceBehavior::<Animation2D>::is_possible(&none));
}

#[test]
fn is_possible_makes_nothing() {
    let made = Cell::new(0);
    let anims = AnimationDictionary {
        walk_left: Some(|| {
            made.set(made.get() + 1);
            walk(LEFT_IMAGE)
        }),
        walk_right: Some(|| {
            made.set(made.get() + 1);
            walk(RIGHT_IMAGE)
        }),
    };
    assert!(PaceBehavior::<Animation2D>::is_possible(&anims));
    assert_eq!(made.get(), 0);
}

#[test]
fn new_calls_each_factory_once() {
    let left_made = Cell::new(0);
    let right_made = Cell::new(0);
    let mut anims = AnimationDictionary {
        walk_left: Some(|| {
            left_made.set(left_made.get() + 1);
            walk(LEFT_IMAGE)
        }),
        walk_right: Some(|| {
            right_made.set(right_made.get() + 1);
            walk(RIGHT_IMAGE)
        }),
    };
    let behavior: PaceBehavior<Animation2D> = PaceBehavior::new(&mut anims).unwrap();
    assert_eq!((left_made.get(), right_made.get()), (1, 1));
    assert_eq!(behavior.direction(), PaceDirection::Right);
    assert_eq!(behavior.walk_left().state(), AnimationState::NotStarted);
    assert_eq!(behavior.walk_right().state(), AnimationState::NotStarted);
    assert_eq!(behavior.walk_left().intrinsic_dimensions(), (50_000, 40_000));

    // Each behaviour has animations of its own.
    let second: PaceBehavior<Animation2D> = PaceBehavior::new(&mut anims).unwrap();
    assert_eq!((left_made.get(), right_made.get()), (2, 2));
    assert_eq!(second.direction(), PaceDirection::Right);
}

#[test]
fn no_behaviour_without_a_walk() {
    let mut no_left: AnimationDictionary<_, fn() -> Animation2D> =
        AnimationDictionary { walk_left: None, walk_right: Some(|| walk(RIGHT_IMAGE)) };
    assert!(PaceBehavior::<Animation2D>::new(&mut no_left).is_none());

    let mut no_right: AnimationDictionary<fn() -> Animation2D, _> =
        AnimationDictionary { walk_left: Some(|| walk(LEFT_IMAGE)), walk_right: None };
    assert!(PaceBehavior::<Animation2D>::new(&mut no_right).is_none());

    let mut none: AnimationDictionary<fn() -> Animation2D, fn() -> Animation2D> =
        AnimationDictionary { walk_left: None, walk_right: None };
    assert!(PaceBehavior::<Animation2D>::new(&mut none).is_none());
}
