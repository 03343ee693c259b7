use deskpet::stage::prefers_config;
use deskpet::{Viewport, ViewportPoint, ViewportRect, UNITS_PER_PIXEL};

#[test]
fn viewport_keeps_its_edges() {
    let viewport = Viewport::new(-5, 1_440_000, 25_000);
    assert_eq!(viewport.left(), -5);
    assert_eq!(viewport.right(), 1_440_000);
    assert_eq!(viewport.top(), 25_000);
}

#[test]
fn points_add_by_coordinate() {
    let sum = ViewportPoint { x: 3, y: -4 } + ViewportPoint { x: 10, y: 20 };
    assert_eq!(sum, ViewportPoint { x: 13, y: 16 });
    let sum = ViewportPoint { x: i64::MAX, y: i64::MIN } + ViewportPoint { x: 0, y: 0 };
    assert_eq!(sum, ViewportPoint { x: i64::MAX, y: i64::MIN });
}

#[test]
fn point_from_whole_pixels() {
    assert_eq!(UNITS_PER_PIXEL, 1000);
    assert_eq!(ViewportPoint::from_pixels(12, -7), ViewportPoint { x: 12_000, y: -7_000 });
    assert_eq!(ViewportPoint::from_pixels(0, 0), ViewportPoint { x: 0, y: 0 });
    assert_eq!(
        ViewportPoint::from_pixels(i32::MAX, i32::MIN),
        ViewportPoint { x: 2_147_483_647_000, y: -2_147_483_648_000 }
    );
}

#[test]
fn rect_position_is_its_corner() {
    let rect = ViewportRect { x: 7, y: -9, width: 50, height: 40 };
    assert_eq!(rect.position(), ViewportPoint { x: 7, y: -9 });
}

#[test]
fn config_with_more_samples_is_taken() {
    assert!(prefers_config(None, 8, None, 4));
    assert!(!prefers_config(None, 4, None, 4));
    assert!(!prefers_config(None, 2, None, 4));
    assert!(prefers_config(Some(false), 1, Some(true), 0));
}

#[test]
fn transparent_config_is_taken_over_one_that_is_not() {
    assert!(prefers_config(Some(true), 0, Some(false), 16));
    assert!(prefers_config(Some(true), 0, None, 16));
    // Not where both are transparent, or neither.
    assert!(!prefers_config(Some(true), 0, Some(true), 16));
    assert!(!prefers_config(Some(false), 0, Some(false), 16));
    assert!(!prefers_config(None, 0, Some(false), 16));
    assert!(!prefers_config(Some(false), 0, Some(true), 16));
    assert!(!prefers_config(None, 16, Some(true), 16));
}
