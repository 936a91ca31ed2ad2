use vstd::prelude::*;

use crate::cube::Vec3;
use crate::equirect::{equirect_texel, texel_along, EquirectPoint, ANGLE_ONE};
use crate::image::{Image, Rgba};
use crate::rotation::{
    dot, euler_scale, euler_spec, lemma_euler_dot, rotate_euler, v3, Turn, V3, ROTATE_INPUT_MAX,
};

verus! {

/// Smallest splat radius, in units of `1 / ANGLE_ONE` of the tangent plane.
pub const RADIUS_MIN: i64 = 5_000;

/// Width of the range of splat radii above `RADIUS_MIN`.
pub const RADIUS_SPAN: i64 = 5_000;

/// Largest magnitude of a component of a direction that `splat_covers` accepts.
pub const COVER_INPUT_MAX: i64 = 1_099_511_627_776;

/// One draw of the transfer: where to sample, and a uniform draw that sets the radius.
#[derive(Clone, Copy, Debug, PartialEq, Eq, Structural)]
pub struct Sample {
    pub point: EquirectPoint,
    pub radius_jitter: u32,
}

/// A small disc to paint: its centre, its radius on the tangent plane (in units of
/// `1 / ANGLE_ONE`) and its colour.
#[derive(Clone, Copy, Debug, PartialEq, Eq, Structural)]
pub struct Splat {
    pub point: EquirectPoint,
    pub radius: i64,
    pub color: Rgba,
}

/// The radius that a jitter draw gives: `RADIUS_MIN` plus the draw's share of `RADIUS_SPAN`.
pub open spec fn radius_of(jitter: u32) -> int {
    RADIUS_MIN + (jitter as int * RADIUS_SPAN) / 0x1_0000_0000
}

/// The source texel under point `p`.
pub open spec fn source_color(src: Image, p: EquirectPoint) -> Rgba {
    src.texel(
        texel_along(p.azimuth as int, src.width as int),
        texel_along(p.elevation as int, src.height as int),
    )
}

/// The splat that sample `s` of image `src` gives.
pub open spec fn splat_of(src: Image, s: Sample) -> Splat {
    Splat { point: s.point, radius: radius_of(s.radius_jitter) as i64, color: source_color(src, s.point) }
}

/// The splat for one sample: centred on the sample, coloured by the source texel under it,
/// alpha included, with a radius in [`RADIUS_MIN`, `RADIUS_MIN + RADIUS_SPAN`).
pub fn make_splat(src: &Image, s: &Sample) -> (r: Splat)
    requires
        src.wf(),
        src.width >= 1,
        src.height >= 1,
        s.point.wf(),
    ensures
        r == splat_of(*src, *s),
        RADIUS_MIN <= r.radius < RADIUS_MIN + RADIUS_SPAN,
{
    let (col, row) = equirect_texel(&s.point, src.width, src.height);
    let color = src.pixel(col, row);
    assert((s.radius_jitter as int * RADIUS_SPAN) / 0x1_0000_0000 < RADIUS_SPAN) by (nonlinear_arith)
        requires
            0 <= s.radius_jitter < 0x1_0000_0000,
    ;
    assert(0 <= (s.radius_jitter as int * RADIUS_SPAN) / 0x1_0000_0000) by (nonlinear_arith)
        requires
            0 <= s.radius_jitter,
    ;
    let extra = ((s.radius_jitter as u64) * (RADIUS_SPAN as u64)) / 0x1_0000_0000u64;
    Splat { point: s.point, radius: RADIUS_MIN + extra as i64, color }
}

/// Turns each sample into its splat, in the order of the samples.
pub fn monte_carlo_transfer(src: &Image, samples: &Vec<Sample>) -> (r: Vec<Splat>)
    requires
        src.wf(),
        src.width >= 1,
        src.height >= 1,
        forall|i: int| 0 <= i < samples@.len() ==> (#[trigger] samples@[i]).point.wf(),
    ensures
        r@.len() == samples@.len(),
        forall|i: int| 0 <= i < r@.len() ==> #[trigger] r@[i] == splat_of(*src, samples@[i]),
{
    let mut out: Vec<Splat> = Vec::new();
    let mut i: usize = 0;
    while i < samples.len()
        invariant
            i <= samples@.len(),
            out@.len() == i,
            src.wf(),
            src.width >= 1,
            src.height >= 1,
            forall|j: int| 0 <= j < samples@.len() ==> (#[trigger] samples@[j]).point.wf(),
            forall|j: int| 0 <= j < i ==> #[trigger] out@[j] == splat_of(*src, samples@[j]),
        decreases samples@.len() - i,
    {
        let sp = make_splat(src, &samples[i]);
        out.push(sp);
        i = i + 1;
    }
    out
}

/// A fully opaque source gives only fully opaque splats: every splat keeps the alpha of the
/// source texel it was drawn from.
pub proof fn lemma_transfer_keeps_alpha(src: Image, s: Sample)
    requires
        src.wf(),
        src.width >= 1,
        src.height >= 1,
        src.is_opaque(),
        s.point.wf(),
    ensures
        splat_of(src, s).color.a == 255,
{
    let col = texel_along(s.point.azimuth as int, src.width as int);
    let row = texel_along(s.point.elevation as int, src.height as int);
    assert(0 <= col < src.width);
    assert(0 <= row < src.height);
    assert(src.texel(col, row).a == 255);
}

/// Whether a direction `p`, given in the frame whose z axis points at a splat's centre, falls
/// inside the splat of radius `radius / ANGLE_ONE` on the tangent plane: it must face the
/// splat (`z > 0`) and its gnomonic projection `(x / z, y / z)` must lie within the radius.
pub open spec fn covers(p: Vec3, radius: int) -> bool {
    covers_point(v3(p.x as int, p.y as int, p.z as int), radius)
}

/// `covers` for a vector of mathematical integers.
pub open spec fn covers_point(p: V3, radius: int) -> bool {
    p.z > 0 && ANGLE_ONE * ANGLE_ONE * (p.x * p.x + p.y * p.y) <= radius * radius * (p.z * p.z)
}

/// Decides `covers` exactly, in integers.
pub fn splat_covers(p: &Vec3, radius: i64) -> (r: bool)
    requires
        -COVER_INPUT_MAX <= p.x <= COVER_INPUT_MAX,
        -COVER_INPUT_MAX <= p.y <= COVER_INPUT_MAX,
        -COVER_INPUT_MAX <= p.z <= COVER_INPUT_MAX,
        0 <= radius <= ANGLE_ONE,
    ensures
        r == covers(*p, radius as int),
{
    if p.z <= 0 {
        return false;
    }
    let x = p.x as i128;
    let y = p.y as i128;
    let z = p.z as i128;
    let k = radius as i128;
    proof {
        assert(x * x <= COVER_INPUT_MAX * COVER_INPUT_MAX) by (nonlinear_arith)
            requires
                -COVER_INPUT_MAX <= x <= COVER_INPUT_MAX,
        ;
        assert(y * y <= COVER_INPUT_MAX * COVER_INPUT_MAX) by (nonlinear_arith)
            requires
                -COVER_INPUT_MAX <= y <= COVER_INPUT_MAX,
        ;
        assert(z * z <= COVER_INPUT_MAX * COVER_INPUT_MAX) by (nonlinear_arith)
            requires
                -COVER_INPUT_MAX <= z <= COVER_INPUT_MAX,
        ;
        assert(0 <= x * x && 0 <= y * y && 0 <= z * z) by (nonlinear_arith);
        assert(k * k <= ANGLE_ONE * ANGLE_ONE) by (nonlinear_arith)
            requires
                0 <= k <= ANGLE_ONE,
        ;
        assert(0 <= k * k) by (nonlinear_arith);
        assert(k * k * (z * z) <= ANGLE_ONE * ANGLE_ONE * (COVER_INPUT_MAX * COVER_INPUT_MAX))
            by (nonlinear_arith)
            requires
                0 <= k * k <= ANGLE_ONE * ANGLE_ONE,
                0 <= z * z <= COVER_INPUT_MAX * COVER_INPUT_MAX,
        ;
        assert(0 <= k * k * (z * z)) by (nonlinear_arith)
            requires
                0 <= k * k,
                0 <= z * z,
        ;
        assert(ANGLE_ONE * ANGLE_ONE * (x * x + y * y) <= ANGLE_ONE * ANGLE_ONE * (2
            * COVER_INPUT_MAX * COVER_INPUT_MAX)) by (nonlinear_arith)
            requires
                0 <= x * x + y * y <= 2 * COVER_INPUT_MAX * COVER_INPUT_MAX,
        ;
    }
    let one = ANGLE_ONE as i128;
    let lhs = one * one * (x * x + y * y);
    let rhs = k * k * (z * z);
    lhs <= rhs
}

/// `|x| <= c` where `x * x <= c * c`.
proof fn lemma_square_bound(x: int, c: int)
    requires
        0 <= c,
        x * x <= c * c,
    ensures
        -c <= x <= c,
{
    assert(-c <= x <= c) by (nonlinear_arith)
        requires
            0 <= c,
            x * x <= c * c,
    ;
}

/// Whether the texel direction `d` falls inside a splat of radius `radius / ANGLE_ONE`
/// after the rotation `R_x(tx) * R_y(ty) * R_z(tz)` that brings the splat's centre onto
/// the z axis: the circle test applied to the rotated direction. The rotated vector must
/// stay within `COVER_INPUT_MAX`, which its squared length `H * H * |d|^2` bounds.
pub fn circle_covers(d: &Vec3, tx: &Turn, ty: &Turn, tz: &Turn, radius: i64) -> (r: bool)
    requires
        tx.wf(),
        ty.wf(),
        tz.wf(),
        -ROTATE_INPUT_MAX <= d.x <= ROTATE_INPUT_MAX,
        -ROTATE_INPUT_MAX <= d.y <= ROTATE_INPUT_MAX,
        -ROTATE_INPUT_MAX <= d.z <= ROTATE_INPUT_MAX,
        euler_scale(*tx, *ty, *tz) * euler_scale(*tx, *ty, *tz) * dot(
            v3(d.x as int, d.y as int, d.z as int),
            v3(d.x as int, d.y as int, d.z as int),
        ) <= COVER_INPUT_MAX * COVER_INPUT_MAX,
        0 <= radius <= ANGLE_ONE,
    ensures
        r == covers_point(
            euler_spec(*tx, *ty, *tz, v3(d.x as int, d.y as int, d.z as int)),
            radius as int,
        ),
{
    let w = rotate_euler(d, tx, ty, tz);
    proof {
        let v = v3(d.x as int, d.y as int, d.z as int);
        let q = euler_spec(*tx, *ty, *tz, v);
        lemma_euler_dot(*tx, *ty, *tz, v, v);
        let c = COVER_INPUT_MAX as int;
        assert(q.x * q.x >= 0 && q.y * q.y >= 0 && q.z * q.z >= 0) by (nonlinear_arith);
        lemma_square_bound(q.x, c);
        lemma_square_bound(q.y, c);
        lemma_square_bound(q.z, c);
    }
    let p = Vec3 { x: w.x as i64, y: w.y as i64, z: w.z as i64 };
    splat_covers(&p, radius)
}

} // verus!
