use pano_rs::cube::Vec3;
use pano_rs::icosphere::{icosphere_point, icosphere_points, ICO_LONG, ICO_SHORT};

#[test]
fn subdivision_count() {
    assert_eq!(icosphere_points(1).len(), 20 * 3);
    assert_eq!(icosphere_points(2).len(), 20 * 6);
    assert_eq!(icosphere_points(180).len(), 20 * 181 * 182 / 2);
}

#[test]
fn first_face_at_resolution_one_is_its_corners() {
    let pts = icosphere_points(1);
    let (s, l) = (ICO_SHORT, ICO_LONG);
    // face (0, 4, 1): weight on the third corner first, then the second, then the first
    assert_eq!(pts[0], Vec3 { x: s, y: 0, z: l });
    assert_eq!(pts[1], Vec3 { x: 0, y: l, z: s });
    assert_eq!(pts[2], Vec3 { x: -s, y: 0, z: l });
}

#[test]
fn grid_points_mix_the_corners() {
    let (s, l) = (ICO_SHORT, ICO_LONG);
    // face 0 at resolution 2, weights (1, 1, 0): corner 0 plus corner 4
    assert_eq!(icosphere_point(0, 1, 1, 2), Vec3 { x: -s, y: l, z: l + s });
    // last face (7, 2, 11) at resolution 3, weights (1, 0, 2)
    assert_eq!(icosphere_point(19, 1, 0, 3), Vec3 { x: -2 * l, y: -l - 2 * s, z: -s });
    let pts = icosphere_points(3);
    assert_eq!(pts[19 * 10 + 4], icosphere_point(19, 1, 0, 3));
}

#[test]
fn every_point_lies_away_from_the_centre() {
    for p in icosphere_points(8) {
        assert!(p != Vec3 { x: 0, y: 0, z: 0 });
    }
}
