use pano_rs::view::{BrushStroke, PanoramaShower};

fn view(x: i64, y: i64) -> PanoramaShower {
    let mut v = PanoramaShower::new();
    v.set_rotation_x(x);
    v.set_rotation_y(y);
    v
}

#[test]
fn pitch_within_range_is_kept() {
    let mut v = view(450, 123);
    v.modify_rotation();
    assert_eq!((v.get_rotation_x(), v.get_rotation_y()), (450, 123));
    let mut v = view(900, 0);
    v.modify_rotation();
    assert_eq!((v.get_rotation_x(), v.get_rotation_y()), (900, 0));
}

#[test]
fn pitch_past_straight_up_folds_back_and_turns_yaw() {
    let mut v = view(1000, 50);
    v.modify_rotation();
    assert_eq!((v.get_rotation_x(), v.get_rotation_y()), (800, 1850));
}

#[test]
fn pitch_past_straight_down_folds_back_and_turns_yaw() {
    let mut v = view(-1000, 50);
    v.modify_rotation();
    assert_eq!((v.get_rotation_x(), v.get_rotation_y()), (-800, 1850));
}

#[test]
fn pitch_wraps_by_whole_turns_first() {
    // 190 degrees is -170 degrees, past straight down: folds to -10 degrees
    let mut v = view(1900, 0);
    v.modify_rotation();
    assert_eq!((v.get_rotation_x(), v.get_rotation_y()), (-100, 1800));
    // -300 degrees is 60 degrees
    let mut v = view(-3000, 0);
    v.modify_rotation();
    assert_eq!((v.get_rotation_x(), v.get_rotation_y()), (600, 0));
    // 720 degrees is level
    let mut v = view(7200, 10);
    v.modify_rotation();
    assert_eq!((v.get_rotation_x(), v.get_rotation_y()), (0, 10));
}

#[test]
fn increases_add_up() {
    let mut v = PanoramaShower::new();
    v.increase_rotation_y(3 * 5);
    v.increase_rotation_x(-3 * 4);
    assert_eq!((v.get_rotation_x(), v.get_rotation_y()), (-12, 15));
}

#[test]
fn brush_counts_dots_and_offset() {
    let mut b = BrushStroke::start();
    assert_eq!(b.advance(2_500_000), (2, 0));
    assert_eq!(b.advance(600_000), (1, 500_000));
    assert_eq!(b.advance(0), (0, 100_000));
    assert_eq!(b.travelled, 3_100_000);
}
