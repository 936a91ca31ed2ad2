use pano_rs::cube::{face_coord, face_texel, select_face, CubeFace, CubeFaces, Vec3};
use pano_rs::image::{Image, Rgba};

fn v(x: i64, y: i64, z: i64) -> Vec3 {
    Vec3 { x, y, z }
}

fn solid(size: usize, c: Rgba) -> Image {
    let mut data = Vec::new();
    for _ in 0..size * size {
        data.push(c.r);
        data.push(c.g);
        data.push(c.b);
        data.push(c.a);
    }
    Image::from_raw(size, size, data).unwrap()
}

fn rgba(r: u8, g: u8, b: u8, a: u8) -> Rgba {
    Rgba { r, g, b, a }
}

#[test]
fn plus_z_selects_front_at_centre() {
    let d = v(0, 0, 1);
    assert_eq!(select_face(&d), CubeFace::Front);
    let c = face_coord(&d);
    assert_eq!(c.face, CubeFace::Front);
    // u = v = 1 / 2
    assert_eq!(c.den, 2);
    assert_eq!(c.u, 1);
    assert_eq!(c.v, 1);
}

#[test]
fn each_axis_selects_its_face() {
    assert_eq!(select_face(&v(-3, 1, 2)), CubeFace::Left);
    assert_eq!(select_face(&v(3, 1, 2)), CubeFace::Right);
    assert_eq!(select_face(&v(1, -3, 2)), CubeFace::Bottom);
    assert_eq!(select_face(&v(1, 3, 2)), CubeFace::Top);
    assert_eq!(select_face(&v(1, 2, -3)), CubeFace::Back);
    assert_eq!(select_face(&v(1, 2, 3)), CubeFace::Front);
}

#[test]
fn ties_go_to_x_then_y() {
    assert_eq!(select_face(&v(2, 2, 2)), CubeFace::Right);
    assert_eq!(select_face(&v(-2, 2, -2)), CubeFace::Left);
    assert_eq!(select_face(&v(0, 5, 5)), CubeFace::Top);
    assert_eq!(select_face(&v(0, -5, 5)), CubeFace::Bottom);
}

#[test]
fn every_nonzero_direction_on_a_grid_gets_one_face_with_coordinates_in_range() {
    for x in -3i64..=3 {
        for y in -3i64..=3 {
            for z in -3i64..=3 {
                if x == 0 && y == 0 && z == 0 {
                    continue;
                }
                let c = face_coord(&v(x, y, z));
                assert!(c.den > 0);
                assert!(0 <= c.u && c.u <= c.den);
                assert!(0 <= c.v && c.v <= c.den);
            }
        }
    }
}

#[test]
fn face_coordinates_follow_the_table() {
    // left: u = (-z/x + 1) / 2, v = (-y/x + 1) / 2 with (x, y, z) = (-4, 1, 2)
    // u = (2/4 + 1) / 2 = 3/4, v = (1/4 + 1) / 2 = 5/8
    let c = face_coord(&v(-4, 1, 2));
    assert_eq!(c.face, CubeFace::Left);
    assert_eq!((c.u, c.v, c.den), (6, 5, 8));
    // right: u = (-z/x + 1) / 2, v = (y/x + 1) / 2 with (4, 1, 2): u = 1/4, v = 5/8
    let c = face_coord(&v(4, 1, 2));
    assert_eq!(c.face, CubeFace::Right);
    assert_eq!((c.u, c.v, c.den), (2, 5, 8));
    // bottom: u = (-x/y + 1) / 2, v = (-z/y + 1) / 2 with (1, -4, 2): u = 5/8, v = 3/4
    let c = face_coord(&v(1, -4, 2));
    assert_eq!(c.face, CubeFace::Bottom);
    assert_eq!((c.u, c.v, c.den), (5, 6, 8));
    // top: u = (x/y + 1) / 2, v = (-z/y + 1) / 2 with (1, 4, 2): u = 5/8, v = 1/4
    let c = face_coord(&v(1, 4, 2));
    assert_eq!(c.face, CubeFace::Top);
    assert_eq!((c.u, c.v, c.den), (5, 2, 8));
    // back: u = (x/z + 1) / 2, v = (-y/z + 1) / 2 with (1, 2, -4): u = 3/8, v = 3/4
    let c = face_coord(&v(1, 2, -4));
    assert_eq!(c.face, CubeFace::Back);
    assert_eq!((c.u, c.v, c.den), (3, 6, 8));
    // front: u = (x/z + 1) / 2, v = (y/z + 1) / 2 with (1, 2, 4): u = 5/8, v = 3/4
    let c = face_coord(&v(1, 2, 4));
    assert_eq!(c.face, CubeFace::Front);
    assert_eq!((c.u, c.v, c.den), (5, 6, 8));
}

#[test]
fn face_texel_rounds_down_and_keeps_the_edge_inside() {
    assert_eq!(face_texel(0, 8, 4), 0);
    assert_eq!(face_texel(1, 2, 4), 2);
    assert_eq!(face_texel(5, 8, 4), 2);
    assert_eq!(face_texel(8, 8, 4), 3);
}

#[test]
fn sampling_reads_the_selected_face() {
    let faces = CubeFaces {
        front: solid(2, rgba(1, 0, 0, 255)),
        back: solid(2, rgba(2, 0, 0, 255)),
        left: solid(2, rgba(3, 0, 0, 255)),
        right: solid(2, rgba(4, 0, 0, 255)),
        top: solid(2, rgba(5, 0, 0, 255)),
        bottom: solid(2, rgba(6, 0, 0, 255)),
    };
    assert_eq!(faces.sample(&v(0, 0, 9)).r, 1);
    assert_eq!(faces.sample(&v(0, 0, -9)).r, 2);
    assert_eq!(faces.sample(&v(-9, 0, 0)).r, 3);
    assert_eq!(faces.sample(&v(9, 0, 0)).r, 4);
    assert_eq!(faces.sample(&v(0, 9, 0)).r, 5);
    assert_eq!(faces.sample(&v(0, -9, 0)).r, 6);
}

#[test]
fn sampling_picks_the_texel_within_a_face() {
    // a 2 by 2 front face with four different texels
    let data = vec![10, 0, 0, 255, 20, 0, 0, 255, 30, 0, 0, 255, 40, 0, 0, 255];
    let front = Image::from_raw(2, 2, data).unwrap();
    let faces = CubeFaces {
        front,
        back: solid(2, rgba(0, 0, 0, 255)),
        left: solid(2, rgba(0, 0, 0, 255)),
        right: solid(2, rgba(0, 0, 0, 255)),
        top: solid(2, rgba(0, 0, 0, 255)),
        bottom: solid(2, rgba(0, 0, 0, 255)),
    };
    // u = 1/4, v = 1/4 -> texel (0, 0)
    assert_eq!(faces.sample(&v(-2, -2, 4)).r, 10);
    // u = 3/4, v = 1/4 -> texel (1, 0)
    assert_eq!(faces.sample(&v(2, -2, 4)).r, 20);
    // u = 1/4, v = 3/4 -> texel (0, 1)
    assert_eq!(faces.sample(&v(-2, 2, 4)).r, 30);
    // u = 3/4, v = 3/4 -> texel (1, 1)
    assert_eq!(faces.sample(&v(2, 2, 4)).r, 40);
}

#[test]
fn image_from_raw_checks_the_length() {
    assert!(Image::from_raw(2, 2, vec![0; 16]).is_some());
    assert!(Image::from_raw(2, 2, vec![0; 15]).is_none());
    assert!(Image::from_raw(0, 0, vec![]).is_some());
    let img = Image::from_raw(2, 1, vec![1, 2, 3, 4, 5, 6, 7, 8]).unwrap();
    assert_eq!(img.pixel(1, 0), rgba(5, 6, 7, 8));
}
