use pano_rs::cube::Vec3;
use pano_rs::equirect::{equirect_texel, texel_point, EquirectPoint, ANGLE_ONE};
use pano_rs::rotation::Turn;
use pano_rs::image::{Image, Rgba};
use pano_rs::transfer::{circle_covers, make_splat, monte_carlo_transfer, splat_covers, Sample, RADIUS_MIN};

fn p(azimuth: i64, elevation: i64) -> EquirectPoint {
    EquirectPoint { azimuth, elevation }
}

fn gradient(width: usize, height: usize, alpha: u8) -> Image {
    let mut data = Vec::new();
    for row in 0..height {
        for col in 0..width {
            data.push(col as u8);
            data.push(row as u8);
            data.push(7);
            data.push(alpha);
        }
    }
    Image::from_raw(width, height, data).unwrap()
}

#[test]
fn texel_of_the_centre_and_the_edges() {
    // texture coordinate (1 - a) / 2 times the size, rounded, modulo the size
    assert_eq!(equirect_texel(&p(0, 0), 3840, 1920), (1920, 960));
    assert_eq!(equirect_texel(&p(ANGLE_ONE, ANGLE_ONE), 3840, 1920), (0, 0));
    assert_eq!(equirect_texel(&p(-ANGLE_ONE, -ANGLE_ONE), 3840, 1920), (0, 0));
    assert_eq!(equirect_texel(&p(ANGLE_ONE / 2, -ANGLE_ONE / 2), 3840, 1920), (960, 1440));
}

#[test]
fn texel_rounds_half_up() {
    // (1 - a) / 2 * 4 = 0.5 exactly for a = 3/4
    assert_eq!(equirect_texel(&p(750_000, 0), 4, 2).0, 1);
    // just under a half rounds down
    assert_eq!(equirect_texel(&p(750_001, 0), 4, 2).0, 0);
}

#[test]
fn splat_takes_colour_and_alpha_of_the_source_texel() {
    let img = gradient(8, 4, 128);
    let s = make_splat(&img, &Sample { point: p(0, 0), radius_jitter: 0 });
    assert_eq!(s.color, Rgba { r: 4, g: 2, b: 7, a: 128 });
    assert_eq!(s.point, p(0, 0));
    assert_eq!(s.radius, RADIUS_MIN);
}

#[test]
fn splat_radius_spans_the_range() {
    let img = gradient(8, 4, 255);
    let lo = make_splat(&img, &Sample { point: p(0, 0), radius_jitter: 0 });
    let mid = make_splat(&img, &Sample { point: p(0, 0), radius_jitter: 1 << 31 });
    let hi = make_splat(&img, &Sample { point: p(0, 0), radius_jitter: u32::MAX });
    assert_eq!(lo.radius, 5000);
    assert_eq!(mid.radius, 7500);
    assert_eq!(hi.radius, 9999);
}

#[test]
fn opaque_source_gives_opaque_splats() {
    let img = gradient(16, 8, 255);
    let mut samples = Vec::new();
    let mut a: i64 = -ANGLE_ONE;
    while a <= ANGLE_ONE {
        samples.push(Sample { point: p(a, -a / 3), radius_jitter: (a.unsigned_abs() as u32) * 7 });
        a += 125_000;
    }
    let splats = monte_carlo_transfer(&img, &samples);
    assert_eq!(splats.len(), samples.len());
    for (s, sp) in samples.iter().zip(splats.iter()) {
        assert_eq!(sp.color.a, 255);
        assert_eq!(sp.point, s.point);
    }
}

#[test]
fn transfer_of_nothing_is_empty() {
    let img = gradient(4, 2, 255);
    assert!(monte_carlo_transfer(&img, &Vec::new()).is_empty());
}

#[test]
fn covers_inside_on_and_outside_the_rim() {
    let one = ANGLE_ONE;
    assert!(splat_covers(&Vec3 { x: 0, y: 0, z: 1 }, 5000));
    assert!(splat_covers(&Vec3 { x: 5000, y: 0, z: one }, 5000));
    assert!(!splat_covers(&Vec3 { x: 5001, y: 0, z: one }, 5000));
    assert!(splat_covers(&Vec3 { x: 3000, y: 4000, z: one }, 5000));
    assert!(!splat_covers(&Vec3 { x: 3000, y: 4001, z: one }, 5000));
}

#[test]
fn covers_nothing_behind_or_beside() {
    assert!(!splat_covers(&Vec3 { x: 0, y: 0, z: 0 }, 5000));
    assert!(!splat_covers(&Vec3 { x: 0, y: 0, z: -1 }, 5000));
    assert!(!splat_covers(&Vec3 { x: 1, y: 0, z: 0 }, 1_000_000));
}

#[test]
fn circle_test_on_rotated_directions() {
    let none = Turn::from_degrees(0).unwrap();
    let quarter = Turn::from_degrees(90).unwrap();
    let half = Turn::from_degrees(180).unwrap();
    assert!(circle_covers(&Vec3 { x: 0, y: 0, z: 1 }, &none, &none, &none, 5000));
    // +y turned a right angle about x lands on +z, the splat's centre
    assert!(circle_covers(&Vec3 { x: 0, y: 1, z: 0 }, &quarter, &none, &none, 5000));
    assert!(!circle_covers(&Vec3 { x: 0, y: 1, z: 0 }, &none, &none, &none, 5000));
    let rim = Vec3 { x: 3000, y: 4000, z: 1_000_000 };
    assert!(circle_covers(&rim, &none, &none, &none, 5000));
    // half a turn about y faces it away
    assert!(!circle_covers(&rim, &none, &half, &none, 5000));
    // half a turn about z keeps it on the rim
    assert!(circle_covers(&rim, &none, &none, &half, 5000));
}

#[test]
fn texel_centres_map_back_onto_their_texels() {
    assert_eq!(texel_point(0, 0, 4, 2), p(ANGLE_ONE, ANGLE_ONE));
    assert_eq!(texel_point(1, 1, 4, 2), p(500_000, 0));
    assert_eq!(texel_point(2, 0, 3, 1).azimuth, -333_333);
    for (w, h) in [(3840usize, 1920usize), (7, 3), (1, 1)] {
        for col in [0, w / 3, w / 2, w - 1] {
            for row in [0, h / 2, h - 1] {
                assert_eq!(equirect_texel(&texel_point(col, row, w, h), w, h), (col, row));
            }
        }
    }
}
