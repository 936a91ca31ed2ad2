use pano_rs::cube::Vec3;
use pano_rs::rotation::{rotate_euler, Turn, WideVec3};

fn vec3(x: i64, y: i64, z: i64) -> Vec3 {
    Vec3 { x, y, z }
}

fn none() -> Turn {
    Turn::from_degrees(0).unwrap()
}

#[test]
fn pitch_of_ninety_degrees_turns_forward_into_down() {
    // right-handed rotation about x by +90 degrees takes +z to -y
    let t = Turn::from_degrees(90).unwrap();
    let r = rotate_euler(&vec3(0, 0, 1), &t, &none(), &none());
    assert_eq!(r, WideVec3 { x: 0, y: -1, z: 0 });
}

#[test]
fn yaw_and_roll_by_right_angles() {
    let t = Turn::from_degrees(90).unwrap();
    // about y: +z goes to +x
    assert_eq!(rotate_euler(&vec3(0, 0, 1), &none(), &t, &none()), WideVec3 { x: 1, y: 0, z: 0 });
    // about z: +x goes to +y
    assert_eq!(rotate_euler(&vec3(1, 0, 0), &none(), &none(), &t), WideVec3 { x: 0, y: 1, z: 0 });
}

#[test]
fn composition_applies_z_then_y_then_x() {
    let t = Turn::from_degrees(90).unwrap();
    // z: (1,0,0) -> (0,1,0); y leaves it; x: (0,1,0) -> (0,0,1)
    assert_eq!(rotate_euler(&vec3(1, 0, 0), &t, &t, &t), WideVec3 { x: 0, y: 0, z: 1 });
}

#[test]
fn degrees_are_exact_only_at_right_angles() {
    assert!(Turn::from_degrees(45).is_none());
    assert_eq!(Turn::from_degrees(180).unwrap(), Turn { c: -1, s: 0, h: 1 });
    assert_eq!(Turn::from_degrees(-90).unwrap(), Turn { c: 0, s: -1, h: 1 });
    assert_eq!(Turn::from_degrees(450).unwrap(), Turn { c: 0, s: 1, h: 1 });
}

#[test]
fn half_angle_turns() {
    // tan(half) = 1: a right angle of scale 2
    assert_eq!(Turn::from_half_angle(1, 1).unwrap(), Turn { c: 0, s: 2, h: 2 });
    // tan(half) = 1/2: cos 3/5, sin 4/5
    assert_eq!(Turn::from_half_angle(1, 2).unwrap(), Turn { c: 3, s: 4, h: 5 });
    assert!(Turn::from_half_angle(0, 0).is_none());
    assert!(Turn::from_half_angle(725, 1).is_none());
}

#[test]
fn turn_new_checks_the_circle() {
    assert_eq!(Turn::new(3, 4, 5), Some(Turn { c: 3, s: 4, h: 5 }));
    assert!(Turn::new(3, 4, 6).is_none());
    assert!(Turn::new(0, 0, 0).is_none());
}

fn dot(a: WideVec3, b: WideVec3) -> i128 {
    a.x * b.x + a.y * b.y + a.z * b.z
}

fn det(a: WideVec3, b: WideVec3, c: WideVec3) -> i128 {
    a.x * (b.y * c.z - b.z * c.y) - a.y * (b.x * c.z - b.z * c.x) + a.z * (b.x * c.y - b.y * c.x)
}

#[test]
fn composed_columns_are_orthogonal_with_positive_determinant() {
    let tx = Turn::from_half_angle(1, 2).unwrap();
    let ty = Turn::from_half_angle(-3, 7).unwrap();
    let tz = Turn::from_half_angle(5, 4).unwrap();
    let h = (tx.h as i128) * (ty.h as i128) * (tz.h as i128);
    let c0 = rotate_euler(&vec3(1, 0, 0), &tx, &ty, &tz);
    let c1 = rotate_euler(&vec3(0, 1, 0), &tx, &ty, &tz);
    let c2 = rotate_euler(&vec3(0, 0, 1), &tx, &ty, &tz);
    assert_eq!(dot(c0, c0), h * h);
    assert_eq!(dot(c1, c1), h * h);
    assert_eq!(dot(c2, c2), h * h);
    assert_eq!(dot(c0, c1), 0);
    assert_eq!(dot(c0, c2), 0);
    assert_eq!(dot(c1, c2), 0);
    assert_eq!(det(c0, c1, c2), h * h * h);
}

#[test]
fn rotation_keeps_a_vector_on_its_ray_scaled() {
    let t = Turn::from_half_angle(1, 2).unwrap();
    // about z by the angle with cos 3/5, sin 4/5, scale 5: (5, 0, 0) -> (15, 20, 0)
    assert_eq!(rotate_euler(&vec3(5, 0, 0), &none(), &none(), &t), WideVec3 { x: 15, y: 20, z: 0 });
}
