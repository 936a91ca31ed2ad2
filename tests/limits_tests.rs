use pano_rs::cube::Vec3;
use pano_rs::image::{Image, MAX_DIM};
use pano_rs::rotation::{rotate_euler, Turn, WideVec3, ROTATE_INPUT_MAX, TURN_SCALE_MAX};
use pano_rs::transfer::{splat_covers, COVER_INPUT_MAX};
use pano_rs::view::BrushStroke;

#[test]
fn oversized_images_are_refused() {
    assert!(Image::from_raw(MAX_DIM + 1, 0, vec![]).is_none());
    assert!(Image::from_raw(0, MAX_DIM + 1, vec![]).is_none());
}

#[test]
fn negative_quarter_turns_wrap() {
    assert_eq!(Turn::quarter_turns(-1), Turn { c: 0, s: -1, h: 1 });
    assert_eq!(Turn::quarter_turns(-6), Turn { c: -1, s: 0, h: 1 });
    assert_eq!(Turn::quarter_turns(7), Turn { c: 0, s: -1, h: 1 });
}

#[test]
fn largest_inputs_rotate_without_overflow() {
    let h = TURN_SCALE_MAX;
    let t = Turn::new(h, 0, h).unwrap();
    let m = ROTATE_INPUT_MAX;
    let r = rotate_euler(&Vec3 { x: m, y: -m, z: m }, &t, &t, &t);
    let k = (h as i128) * (h as i128) * (h as i128) * (m as i128);
    assert_eq!(r, WideVec3 { x: k, y: -k, z: k });
    assert!(Turn::new(h + 1, 0, h + 1).is_none());
}

#[test]
fn largest_inputs_cover_without_overflow() {
    let m = COVER_INPUT_MAX;
    assert!(splat_covers(&Vec3 { x: 0, y: 0, z: m }, 1));
    assert!(!splat_covers(&Vec3 { x: m, y: m, z: m }, 1_000_000));
    assert!(splat_covers(&Vec3 { x: m, y: 0, z: m }, 1_000_000));
}

#[test]
fn brush_travel_near_the_top_of_its_range() {
    let mut b = BrushStroke::start();
    let far = u64::MAX - 5;
    let (dots, offset) = b.advance(far);
    assert_eq!(dots, far / 1_000_000);
    assert_eq!(offset, 0);
    let (dots, offset) = b.advance(5);
    assert_eq!(dots, u64::MAX / 1_000_000 - far / 1_000_000);
    assert_eq!(offset, far % 1_000_000);
}
