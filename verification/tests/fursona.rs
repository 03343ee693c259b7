use deskpet::{
    Fursona, FursonaInstance, ImageHandle, Viewport, ViewportRect,
};

const WALK_LEFT: ImageHandle = ImageHandle { texture: 0, width: 50, height: 40 };
const WALK_RIGHT: ImageHandle = ImageHandle { texture: 1, width: 60, height: 45 };

fn jack() -> Fursona {
    Fursona { name: "Jack".to_string() }
}

#[test]
fn instance_starts_at_the_top_left_without_a_size() {
    let viewport = Viewport::new(5_000, 300_000, 25_000);
    let instance = FursonaInstance::new(&jack(), &viewport, WALK_LEFT, WALK_RIGHT);
    assert_eq!(instance.bounding_box(), ViewportRect { x: 5_000, y: 25_000, width: 0, height: 0 });
    assert_eq!(instance.renderer().texture, None);

    let same = jack().make_instance(&viewport, WALK_LEFT, WALK_RIGHT);
    assert_eq!(same.bounding_box(), instance.bounding_box());
    assert_eq!(same.renderer().texture, None);
}

#[test]
fn update_moves_the_instance_and_shows_its_walk() {
    let viewport = Viewport::new(0, 300_000, 25_000);
    let mut instance = FursonaInstance::new(&jack(), &viewport, WALK_LEFT, WALK_RIGHT);

    instance.update(500, &viewport);
    assert_eq!(
        instance.bounding_box(),
        ViewportRect { x: 120_000, y: 25_000, width: 60_000, height: 45_000 }
    );
    assert_eq!(instance.renderer().texture, Some(WALK_RIGHT));

    // Onto the right bound: 300 less the width of the walk to the right.
    instance.update(2_000, &viewport);
    assert_eq!(
        instance.bounding_box(),
        ViewportRect { x: 240_000, y: 25_000, width: 50_000, height: 40_000 }
    );
    assert_eq!(instance.renderer().texture, Some(WALK_LEFT));

    // Back to the left, by 24 pixels in 100 milliseconds.
    instance.update(100, &viewport);
    assert_eq!(instance.bounding_box().x, 216_000);
    assert_eq!(instance.renderer().texture, Some(WALK_LEFT));
}

#[test]
fn walk_image_stays_after_its_time() {
    let viewport = Viewport::new(0, 3_000_000, 0);
    let mut instance = FursonaInstance::new(&jack(), &viewport, WALK_LEFT, WALK_RIGHT);
    instance.update(0, &viewport);
    // The walk's one keyframe lasts two seconds; the character walks on.
    instance.update(2_000, &viewport);
    instance.update(1, &viewport);
    instance.update(1_000, &viewport);
    assert_eq!(
        instance.bounding_box(),
        ViewportRect { x: 720_240, y: 0, width: 60_000, height: 45_000 }
    );
    assert_eq!(instance.renderer().texture, Some(WALK_RIGHT));
}
