use vstd::prelude::*;

use crate::cube::Vec3;

verus! {

/// Largest scale `h` of a turn.
pub const TURN_SCALE_MAX: i64 = 1_048_576;

/// Largest magnitude of either coordinate given to `Turn::from_half_angle`.
pub const HALF_ANGLE_MAX: i64 = 724;

/// Largest magnitude of a component of a vector that `rotate_euler` accepts.
pub const ROTATE_INPUT_MAX: i64 = 1_099_511_627_776;

/// An exact angle: its cosine is `c / h` and its sine `s / h`, with `c * c + s * s == h * h`.
#[derive(Clone, Copy, Debug, PartialEq, Eq, Structural)]
pub struct Turn {
    pub c: i64,
    pub s: i64,
    pub h: i64,
}

/// A vector with wide integer components: a rotated direction, scaled by the product of the
/// scales of the turns applied to it.
#[derive(Clone, Copy, Debug, PartialEq, Eq, Structural)]
pub struct WideVec3 {
    pub x: i128,
    pub y: i128,
    pub z: i128,
}

/// A vector of mathematical integers.
pub struct V3 {
    pub x: int,
    pub y: int,
    pub z: int,
}

pub open spec fn v3(x: int, y: int, z: int) -> V3 {
    V3 { x, y, z }
}

impl Turn {
    /// Cosine and sine lie on the circle of radius `h`, and `h` is positive and bounded.
    pub open spec fn wf(&self) -> bool {
        &&& 0 < self.h <= TURN_SCALE_MAX
        &&& -self.h <= self.c <= self.h
        &&& -self.h <= self.s <= self.h
        &&& self.c * self.c + self.s * self.s == self.h * self.h
    }

    /// The turn with cosine `c / h` and sine `s / h`; `None` unless `c * c + s * s == h * h`,
    /// `0 < h <= TURN_SCALE_MAX` and `|c|, |s| <= h`.
    pub fn new(c: i64, s: i64, h: i64) -> (r: Option<Turn>)
        ensures
            r is Some <==> (Turn { c, s, h }).wf(),
            r matches Some(t) ==> t == (Turn { c, s, h }),
    {
        if h <= 0 || h > TURN_SCALE_MAX || c < -h || c > h || s < -h || s > h {
            return None;
        }
        proof {
            lemma_mul_bound(c as int, c as int, h as int, h as int);
            lemma_mul_bound(s as int, s as int, h as int, h as int);
            assert(h * h <= TURN_SCALE_MAX * TURN_SCALE_MAX) by (nonlinear_arith)
                requires
                    0 < h <= TURN_SCALE_MAX,
            ;
        }
        if c * c + s * s == h * h {
            Some(Turn { c, s, h })
        } else {
            None
        }
    }

    /// The turn by twice the angle of the point `(q, p)`: with `t = p / q` the tangent of the
    /// half angle, the cosine is `(q * q - p * p) / h` and the sine `2 * p * q / h`, where
    /// `h = p * p + q * q`. Every rational rotation angle arises this way. `None` where
    /// `p == q == 0` or either exceeds `HALF_ANGLE_MAX` in magnitude.
    pub fn from_half_angle(p: i64, q: i64) -> (r: Option<Turn>)
        ensures
            r is Some <==> (!(p == 0 && q == 0) && -HALF_ANGLE_MAX <= p <= HALF_ANGLE_MAX
                && -HALF_ANGLE_MAX <= q <= HALF_ANGLE_MAX),
            r matches Some(t) ==> t.wf() && t.c == q * q - p * p && t.s == 2 * (p * q) && t.h == p * p
                + q * q,
    {
        if (p == 0 && q == 0) || p < -HALF_ANGLE_MAX || p > HALF_ANGLE_MAX || q < -HALF_ANGLE_MAX
            || q > HALF_ANGLE_MAX {
            return None;
        }
        proof {
            lemma_mul_bound(p as int, p as int, HALF_ANGLE_MAX as int, HALF_ANGLE_MAX as int);
            lemma_mul_bound(q as int, q as int, HALF_ANGLE_MAX as int, HALF_ANGLE_MAX as int);
            lemma_mul_bound(p as int, q as int, HALF_ANGLE_MAX as int, HALF_ANGLE_MAX as int);
            lemma_half_angle(p as int, q as int);
        }
        let pp = p * p;
        let qq = q * q;
        let t = Turn { c: qq - pp, s: 2 * (p * q), h: pp + qq };
        Some(t)
    }

    /// `k` right angles counter-clockwise, exactly: scale 1.
    pub fn quarter_turns(k: i64) -> (r: Turn)
        ensures
            r.wf(),
            r.h == 1,
            (k % 4 == 0) ==> r.c == 1 && r.s == 0,
            (k % 4 == 1) ==> r.c == 0 && r.s == 1,
            (k % 4 == 2) ==> r.c == -1 && r.s == 0,
            (k % 4 == 3) ==> r.c == 0 && r.s == -1,
    {
        let q = match k.checked_rem_euclid(4) {
            Some(q) => q,
            None => 0,
        };
        if q == 0 {
            Turn { c: 1, s: 0, h: 1 }
        } else if q == 1 {
            Turn { c: 0, s: 1, h: 1 }
        } else if q == 2 {
            Turn { c: -1, s: 0, h: 1 }
        } else {
            Turn { c: 0, s: -1, h: 1 }
        }
    }

    /// An angle in whole degrees; `None` unless it is a multiple of 90, the angles whose
    /// cosine and sine are rational.
    pub fn from_degrees(deg: i64) -> (r: Option<Turn>)
        ensures
            r is Some <==> deg % 90 == 0,
            r matches Some(t) ==> t == Turn::quarter_spec((deg % 360) / 90),
    {
        let rem = match deg.checked_rem_euclid(90) {
            Some(q) => q,
            None => 1,
        };
        if rem != 0 {
            None
        } else {
            let q = match deg.checked_rem_euclid(360) {
                Some(q) => q,
                None => 0,
            };
            let k = q / 90;
            let t = Turn::quarter_turns(k);
            assert(k % 4 == k);
            Some(t)
        }
    }

    /// `k` right angles, as a turn of scale 1.
    pub open spec fn quarter_spec(k: int) -> Turn {
        if k % 4 == 0 {
            Turn { c: 1, s: 0, h: 1 }
        } else if k % 4 == 1 {
            Turn { c: 0, s: 1, h: 1 }
        } else if k % 4 == 2 {
            Turn { c: -1i64, s: 0, h: 1 }
        } else {
            Turn { c: 0, s: -1i64, h: 1 }
        }
    }
}

/// `h * R_x(t) * w`: right-handed rotation about the x axis, scaled by `h`.
pub open spec fn turn_about_x(t: Turn, w: V3) -> V3 {
    v3(t.h * w.x, t.c * w.y - t.s * w.z, t.s * w.y + t.c * w.z)
}

/// `h * R_y(t) * w`: right-handed rotation about the y axis, scaled by `h`.
pub open spec fn turn_about_y(t: Turn, w: V3) -> V3 {
    v3(t.c * w.x + t.s * w.z, t.h * w.y, t.c * w.z - t.s * w.x)
}

/// `h * R_z(t) * w`: right-handed rotation about the z axis, scaled by `h`.
pub open spec fn turn_about_z(t: Turn, w: V3) -> V3 {
    v3(t.c * w.x - t.s * w.y, t.s * w.x + t.c * w.y, t.h * w.z)
}

/// `R_x(tx) * R_y(ty) * R_z(tz) * w`, scaled by the product of the three scales.
pub open spec fn euler_spec(tx: Turn, ty: Turn, tz: Turn, w: V3) -> V3 {
    turn_about_x(tx, turn_about_y(ty, turn_about_z(tz, w)))
}

pub open spec fn wide_view(w: WideVec3) -> V3 {
    v3(w.x as int, w.y as int, w.z as int)
}

/// `|a * b| <= ma * mb` where `|a| <= ma` and `|b| <= mb`.
pub proof fn lemma_mul_bound(a: int, b: int, ma: int, mb: int)
    requires
        -ma <= a <= ma,
        -mb <= b <= mb,
    ensures
        -(ma * mb) <= a * b <= ma * mb,
{
    assert(-(ma * mb) <= a * b <= ma * mb) by (nonlinear_arith)
        requires
            -ma <= a <= ma,
            -mb <= b <= mb,
    ;
}

/// One rotation step on a vector whose components are at most `m` in magnitude; the result
/// is at most `2 * h * m`.
fn turn_pair(t: &Turn, a: i128, b: i128, m: i128) -> (r: (i128, i128))
    requires
        t.wf(),
        0 <= m <= 0x10_0000_0000_0000_0000_0000_0000,
        -m <= a <= m,
        -m <= b <= m,
    ensures
        r.0 == t.c * a - t.s * b,
        r.1 == t.s * a + t.c * b,
        -(2 * t.h * m) <= r.0 <= 2 * t.h * m,
        -(2 * t.h * m) <= r.1 <= 2 * t.h * m,
{
    proof {
        lemma_mul_bound(t.c as int, a as int, t.h as int, m as int);
        lemma_mul_bound(t.s as int, b as int, t.h as int, m as int);
        lemma_mul_bound(t.s as int, a as int, t.h as int, m as int);
        lemma_mul_bound(t.c as int, b as int, t.h as int, m as int);
        assert(t.h * m <= TURN_SCALE_MAX * 0x10_0000_0000_0000_0000_0000_0000) by (nonlinear_arith)
            requires
                0 < t.h <= TURN_SCALE_MAX,
                0 <= m <= 0x10_0000_0000_0000_0000_0000_0000,
        ;
        assert(2 * t.h * m == 2 * (t.h * m)) by (nonlinear_arith);
    }
    let c = t.c as i128;
    let s = t.s as i128;
    (c * a - s * b, s * a + c * b)
}

/// Rotates `w` by `R_x(tx) * R_y(ty) * R_z(tz)`: first about z, then y, then x, each turn
/// right-handed. The result is exact and scaled by `tx.h * ty.h * tz.h`; as a direction it
/// is the rotated direction.
pub fn rotate_euler(w: &Vec3, tx: &Turn, ty: &Turn, tz: &Turn) -> (r: WideVec3)
    requires
        tx.wf(),
        ty.wf(),
        tz.wf(),
        -ROTATE_INPUT_MAX <= w.x <= ROTATE_INPUT_MAX,
        -ROTATE_INPUT_MAX <= w.y <= ROTATE_INPUT_MAX,
        -ROTATE_INPUT_MAX <= w.z <= ROTATE_INPUT_MAX,
    ensures
        wide_view(r) == euler_spec(*tx, *ty, *tz, v3(w.x as int, w.y as int, w.z as int)),
{
    let m0: i128 = ROTATE_INPUT_MAX as i128;
    // about z
    let (x1, y1) = turn_pair(tz, w.x as i128, w.y as i128, m0);
    proof {
        lemma_mul_bound(tz.h as int, w.z as int, TURN_SCALE_MAX as int, m0 as int);
        assert(2 * tz.h * m0 <= 2 * TURN_SCALE_MAX * m0) by (nonlinear_arith)
            requires
                0 < tz.h <= TURN_SCALE_MAX,
                0 <= m0,
        ;
    }
    let z1 = (tz.h as i128) * (w.z as i128);
    let m1: i128 = 2 * (TURN_SCALE_MAX as i128) * m0;
    // about y: (x, z) -> (c x + s z, -s x + c z) == turn_pair on (z, x) giving (c z - s x, s z + c x)
    let (z2, x2) = turn_pair(ty, z1, x1, m1);
    proof {
        lemma_mul_bound(ty.h as int, y1 as int, TURN_SCALE_MAX as int, m1 as int);
        assert(2 * ty.h * m1 <= 2 * TURN_SCALE_MAX * m1) by (nonlinear_arith)
            requires
                0 < ty.h <= TURN_SCALE_MAX,
                0 <= m1,
        ;
    }
    let y2 = (ty.h as i128) * y1;
    let m2: i128 = 2 * (TURN_SCALE_MAX as i128) * m1;
    // about x
    let (y3, z3) = turn_pair(tx, y2, z2, m2);
    proof {
        lemma_mul_bound(tx.h as int, x2 as int, TURN_SCALE_MAX as int, m2 as int);
    }
    let x3 = (tx.h as i128) * x2;
    WideVec3 { x: x3, y: y3, z: z3 }
}


pub open spec fn dot(u: V3, w: V3) -> int {
    u.x * w.x + u.y * w.y + u.z * w.z
}

pub open spec fn cross(u: V3, w: V3) -> V3 {
    v3(u.y * w.z - u.z * w.y, u.z * w.x - u.x * w.z, u.x * w.y - u.y * w.x)
}

/// `k * w`.
pub open spec fn scale(k: int, w: V3) -> V3 {
    v3(k * w.x, k * w.y, k * w.z)
}

/// The triple product `u . (v x w)`, the determinant of the matrix with columns u, v, w.
pub open spec fn triple(u: V3, v: V3, w: V3) -> int {
    dot(u, cross(v, w))
}

/// Product of the scales of three turns.
pub open spec fn euler_scale(tx: Turn, ty: Turn, tz: Turn) -> int {
    tx.h * ty.h * tz.h
}

/// Column `j` of the composed rotation `R_x(tx) * R_y(ty) * R_z(tz)`, scaled by its scale:
/// the image of the `j`-th unit vector.
pub open spec fn euler_column(tx: Turn, ty: Turn, tz: Turn, j: int) -> V3 {
    euler_spec(
        tx,
        ty,
        tz,
        if j == 0 {
            v3(1, 0, 0)
        } else if j == 1 {
            v3(0, 1, 0)
        } else {
            v3(0, 0, 1)
        },
    )
}

/// The half-angle parametrisation lands on the circle, with `|cos|, |sin| <= h`.
proof fn lemma_half_angle(p: int, q: int)
    requires
        !(p == 0 && q == 0),
        -HALF_ANGLE_MAX <= p <= HALF_ANGLE_MAX,
        -HALF_ANGLE_MAX <= q <= HALF_ANGLE_MAX,
    ensures
        (q * q - p * p) * (q * q - p * p) + (2 * (p * q)) * (2 * (p * q)) == (p * p + q * q) * (p
            * p + q * q),
        0 < p * p + q * q <= TURN_SCALE_MAX,
        -(p * p + q * q) <= q * q - p * p <= p * p + q * q,
        -(p * p + q * q) <= 2 * (p * q) <= p * p + q * q,
{
    let a = p * p;
    let b = q * q;
    lemma_product4(b, a, b, a);
    lemma_product4(a, b, a, b);
    lemma_regroup(p, q, p, q);
    assert((2 * (p * q)) * (2 * (p * q)) == 4 * ((p * q) * (p * q))) by {
        broadcast use vstd::arithmetic::mul::group_mul_properties;

    }
    assert(a * b == b * a) by {
        vstd::arithmetic::mul::lemma_mul_is_commutative(a, b);
    }
    assert(0 <= a && 0 <= b) by (nonlinear_arith)
        requires
            a == p * p,
            b == q * q,
    ;
    assert(a > 0 || b > 0) by (nonlinear_arith)
        requires
            !(p == 0 && q == 0),
            a == p * p,
            b == q * q,
    ;
    assert(a <= HALF_ANGLE_MAX * HALF_ANGLE_MAX && b <= HALF_ANGLE_MAX * HALF_ANGLE_MAX)
        by (nonlinear_arith)
        requires
            -HALF_ANGLE_MAX <= p <= HALF_ANGLE_MAX,
            -HALF_ANGLE_MAX <= q <= HALF_ANGLE_MAX,
            a == p * p,
            b == q * q,
    ;
    assert((p + q) * (p + q) >= 0 && (p - q) * (p - q) >= 0) by (nonlinear_arith);
    lemma_product4(p, q, p, q);
    lemma_regroup(p, 1, q, 1);
    assert(q * p == p * q) by {
        vstd::arithmetic::mul::lemma_mul_is_commutative(p, q);
    }
}

proof fn lemma_product4(x: int, y: int, u: int, v: int)
    ensures
        (x - y) * (u - v) == x * u - x * v - y * u + y * v,
        (x + y) * (u + v) == x * u + x * v + y * u + y * v,
        (x - y) * (u + v) == x * u + x * v - y * u - y * v,
        (x + y) * (u - v) == x * u - x * v + y * u - y * v,
{
    broadcast use vstd::arithmetic::mul::group_mul_properties;

}

proof fn lemma_regroup(a: int, b: int, c: int, d: int)
    ensures
        (a * b) * (c * d) == (a * c) * (b * d),
{
    broadcast use vstd::arithmetic::mul::group_mul_properties;

}

/// A plane turn `(p, q) -> (c p - s q, s p + c q)` with the third coordinate scaled by `h`
/// multiplies dot products by `h * h`.
proof fn lemma_turn_dot(
    c: int,
    s: int,
    h: int,
    a1: int,
    p1: int,
    q1: int,
    a2: int,
    p2: int,
    q2: int,
)
    requires
        c * c + s * s == h * h,
    ensures
        (h * a1) * (h * a2) + (c * p1 - s * q1) * (c * p2 - s * q2) + (s * p1 + c * q1) * (s * p2
            + c * q2) == (h * h) * (a1 * a2 + p1 * p2 + q1 * q2),
{
    broadcast use vstd::arithmetic::mul::group_mul_properties;

    lemma_product4(c * p1, s * q1, c * p2, s * q2);
    lemma_product4(s * p1, c * q1, s * p2, c * q2);
    lemma_regroup(h, a1, h, a2);
    lemma_regroup(c, p1, c, p2);
    lemma_regroup(c, p1, s, q2);
    lemma_regroup(s, q1, c, p2);
    lemma_regroup(s, q1, s, q2);
    lemma_regroup(s, p1, s, p2);
    lemma_regroup(s, p1, c, q2);
    lemma_regroup(c, q1, s, p2);
    lemma_regroup(c, q1, c, q2);
    assert((c * c) * (p1 * p2) + (s * s) * (p1 * p2) == (h * h) * (p1 * p2));
    assert((s * s) * (q1 * q2) + (c * c) * (q1 * q2) == (h * h) * (q1 * q2));
}

proof fn lemma_turn_cross_a(c: int, s: int, h: int, p1: int, q1: int, p2: int, q2: int)
    requires
        c * c + s * s == h * h,
    ensures
        (c * p1 - s * q1) * (s * p2 + c * q2) - (s * p1 + c * q1) * (c * p2 - s * q2) == h * (h * (
        p1 * q2 - q1 * p2)),
{
    lemma_product4(c * p1, s * q1, s * p2, c * q2);
    lemma_product4(s * p1, c * q1, c * p2, s * q2);
    lemma_regroup(c, p1, s, p2);
    lemma_regroup(c, p1, c, q2);
    lemma_regroup(s, q1, s, p2);
    lemma_regroup(s, q1, c, q2);
    lemma_regroup(s, p1, c, p2);
    lemma_regroup(s, p1, s, q2);
    lemma_regroup(c, q1, c, p2);
    lemma_regroup(c, q1, s, q2);
    assert((c * s) * (p1 * p2) == (s * c) * (p1 * p2)) by {
        vstd::arithmetic::mul::lemma_mul_is_commutative(c, s);
    }
    assert((s * c) * (q1 * q2) == (c * s) * (q1 * q2)) by {
        vstd::arithmetic::mul::lemma_mul_is_commutative(c, s);
    }
    assert((c * c) * (p1 * q2) + (s * s) * (p1 * q2) == (h * h) * (p1 * q2)) by {
        vstd::arithmetic::mul::lemma_mul_is_distributive_add_other_way(p1 * q2, c * c, s * s);
    }
    assert((s * s) * (q1 * p2) + (c * c) * (q1 * p2) == (h * h) * (q1 * p2)) by {
        vstd::arithmetic::mul::lemma_mul_is_distributive_add_other_way(q1 * p2, s * s, c * c);
    }
    assert(h * (h * (p1 * q2 - q1 * p2)) == (h * h) * (p1 * q2) - (h * h) * (q1 * p2)) by {
        broadcast use vstd::arithmetic::mul::group_mul_properties;

    }
}

proof fn lemma_turn_cross_p(c: int, s: int, h: int, a1: int, p1: int, q1: int, a2: int, p2: int, q2: int)
    ensures
        (s * p1 + c * q1) * (h * a2) - (h * a1) * (s * p2 + c * q2) == h * (c * (q1 * a2 - a1 * q2)
            - s * (a1 * p2 - p1 * a2)),
{
    assert((s * p1 + c * q1) * (h * a2) == h * (s * (p1 * a2)) + h * (c * (q1 * a2))) by {
        broadcast use vstd::arithmetic::mul::group_mul_properties;

    }
    assert((h * a1) * (s * p2 + c * q2) == h * (s * (a1 * p2)) + h * (c * (a1 * q2))) by {
        broadcast use vstd::arithmetic::mul::group_mul_properties;

    }
    assert(h * (c * (q1 * a2 - a1 * q2) - s * (a1 * p2 - p1 * a2)) == h * (c * (q1 * a2)) - h * (c
        * (a1 * q2)) - h * (s * (a1 * p2)) + h * (s * (p1 * a2))) by {
        broadcast use vstd::arithmetic::mul::group_mul_properties;

    }
}

proof fn lemma_turn_cross_q(c: int, s: int, h: int, a1: int, p1: int, q1: int, a2: int, p2: int, q2: int)
    ensures
        (h * a1) * (c * p2 - s * q2) - (c * p1 - s * q1) * (h * a2) == h * (s * (q1 * a2 - a1 * q2)
            + c * (a1 * p2 - p1 * a2)),
{
    assert((h * a1) * (c * p2 - s * q2) == h * (c * (a1 * p2)) - h * (s * (a1 * q2))) by {
        broadcast use vstd::arithmetic::mul::group_mul_properties;

    }
    assert((c * p1 - s * q1) * (h * a2) == h * (c * (p1 * a2)) - h * (s * (q1 * a2))) by {
        broadcast use vstd::arithmetic::mul::group_mul_properties;

    }
    assert(h * (s * (q1 * a2 - a1 * q2) + c * (a1 * p2 - p1 * a2)) == h * (s * (q1 * a2)) - h * (s
        * (a1 * q2)) + h * (c * (a1 * p2)) - h * (c * (p1 * a2))) by {
        broadcast use vstd::arithmetic::mul::group_mul_properties;

    }
}

/// The same plane turn maps cross products to `h` times the turned cross product.
proof fn lemma_turn_cross(
    c: int,
    s: int,
    h: int,
    a1: int,
    p1: int,
    q1: int,
    a2: int,
    p2: int,
    q2: int,
)
    requires
        c * c + s * s == h * h,
    ensures
        (c * p1 - s * q1) * (s * p2 + c * q2) - (s * p1 + c * q1) * (c * p2 - s * q2) == h * (h * (
        p1 * q2 - q1 * p2)),
        (s * p1 + c * q1) * (h * a2) - (h * a1) * (s * p2 + c * q2) == h * (c * (q1 * a2 - a1 * q2)
            - s * (a1 * p2 - p1 * a2)),
        (h * a1) * (c * p2 - s * q2) - (c * p1 - s * q1) * (h * a2) == h * (s * (q1 * a2 - a1 * q2)
            + c * (a1 * p2 - p1 * a2)),
{
    lemma_turn_cross_a(c, s, h, p1, q1, p2, q2);
    lemma_turn_cross_p(c, s, h, a1, p1, q1, a2, p2, q2);
    lemma_turn_cross_q(c, s, h, a1, p1, q1, a2, p2, q2);
}

/// `dot(u, k * w) == k * dot(u, w)`.
proof fn lemma_dot_scale(u: V3, k: int, w: V3)
    ensures
        dot(u, scale(k, w)) == k * dot(u, w),
{
    broadcast use vstd::arithmetic::mul::group_mul_properties;

}

proof fn lemma_x_turn(t: Turn, u: V3, w: V3)
    requires
        t.wf(),
    ensures
        dot(turn_about_x(t, u), turn_about_x(t, w)) == (t.h * t.h) * dot(u, w),
        cross(turn_about_x(t, u), turn_about_x(t, w)) == scale(t.h as int, turn_about_x(t, cross(u, w))),
{
    lemma_turn_dot(t.c as int, t.s as int, t.h as int, u.x, u.y, u.z, w.x, w.y, w.z);
    lemma_turn_cross(t.c as int, t.s as int, t.h as int, u.x, u.y, u.z, w.x, w.y, w.z);
}

proof fn lemma_y_turn(t: Turn, u: V3, w: V3)
    requires
        t.wf(),
    ensures
        dot(turn_about_y(t, u), turn_about_y(t, w)) == (t.h * t.h) * dot(u, w),
        cross(turn_about_y(t, u), turn_about_y(t, w)) == scale(t.h as int, turn_about_y(t, cross(u, w))),
{
    lemma_turn_dot(t.c as int, t.s as int, t.h as int, u.y, u.z, u.x, w.y, w.z, w.x);
    lemma_turn_cross(t.c as int, t.s as int, t.h as int, u.y, u.z, u.x, w.y, w.z, w.x);
}

proof fn lemma_z_turn(t: Turn, u: V3, w: V3)
    requires
        t.wf(),
    ensures
        dot(turn_about_z(t, u), turn_about_z(t, w)) == (t.h * t.h) * dot(u, w),
        cross(turn_about_z(t, u), turn_about_z(t, w)) == scale(t.h as int, turn_about_z(t, cross(u, w))),
{
    lemma_turn_dot(t.c as int, t.s as int, t.h as int, u.z, u.x, u.y, w.z, w.x, w.y);
    lemma_turn_cross(t.c as int, t.s as int, t.h as int, u.z, u.x, u.y, w.z, w.x, w.y);
}


proof fn lemma_triple_from(h: int, a1: V3, a2: V3, a3: V3, b: V3, u1: V3, x: V3)
    requires
        cross(a2, a3) == scale(h, b),
        dot(a1, b) == (h * h) * dot(u1, x),
    ensures
        dot(a1, cross(a2, a3)) == (h * h * h) * dot(u1, x),
{
    lemma_dot_scale(a1, h, b);
    assert(h * ((h * h) * dot(u1, x)) == (h * h * h) * dot(u1, x)) by {
        broadcast use vstd::arithmetic::mul::group_mul_properties;

    }
}

/// Each elemental turn multiplies triple products by `h * h * h`.
proof fn lemma_turn_triples(t: Turn, u1: V3, u2: V3, u3: V3)
    requires
        t.wf(),
    ensures
        triple(turn_about_x(t, u1), turn_about_x(t, u2), turn_about_x(t, u3)) == (t.h * t.h * t.h)
            * triple(u1, u2, u3),
        triple(turn_about_y(t, u1), turn_about_y(t, u2), turn_about_y(t, u3)) == (t.h * t.h * t.h)
            * triple(u1, u2, u3),
        triple(turn_about_z(t, u1), turn_about_z(t, u2), turn_about_z(t, u3)) == (t.h * t.h * t.h)
            * triple(u1, u2, u3),
{
    let x = cross(u2, u3);
    lemma_x_turn(t, u2, u3);
    lemma_x_turn(t, u1, x);
    lemma_triple_from(
        t.h as int,
        turn_about_x(t, u1),
        turn_about_x(t, u2),
        turn_about_x(t, u3),
        turn_about_x(t, x),
        u1,
        x,
    );
    lemma_y_turn(t, u2, u3);
    lemma_y_turn(t, u1, x);
    lemma_triple_from(
        t.h as int,
        turn_about_y(t, u1),
        turn_about_y(t, u2),
        turn_about_y(t, u3),
        turn_about_y(t, x),
        u1,
        x,
    );
    lemma_z_turn(t, u2, u3);
    lemma_z_turn(t, u1, x);
    lemma_triple_from(
        t.h as int,
        turn_about_z(t, u1),
        turn_about_z(t, u2),
        turn_about_z(t, u3),
        turn_about_z(t, x),
        u1,
        x,
    );
}

/// The composed rotation multiplies dot products by the square of its scale.
pub proof fn lemma_euler_dot(tx: Turn, ty: Turn, tz: Turn, u: V3, w: V3)
    requires
        tx.wf(),
        ty.wf(),
        tz.wf(),
    ensures
        dot(euler_spec(tx, ty, tz, u), euler_spec(tx, ty, tz, w)) == (euler_scale(tx, ty, tz)
            * euler_scale(tx, ty, tz)) * dot(u, w),
{
    let zu = turn_about_z(tz, u);
    let zw = turn_about_z(tz, w);
    let yu = turn_about_y(ty, zu);
    let yw = turn_about_y(ty, zw);
    lemma_z_turn(tz, u, w);
    lemma_y_turn(ty, zu, zw);
    lemma_x_turn(tx, yu, yw);
    let (hx, hy, hz) = (tx.h as int, ty.h as int, tz.h as int);
    assert((hx * hx) * ((hy * hy) * ((hz * hz) * dot(u, w))) == ((hx * hy * hz) * (hx * hy * hz))
        * dot(u, w)) by {
        broadcast use vstd::arithmetic::mul::group_mul_properties;

    }
}

/// The composed rotation multiplies triple products by the cube of its scale.
pub proof fn lemma_euler_triple(tx: Turn, ty: Turn, tz: Turn, u1: V3, u2: V3, u3: V3)
    requires
        tx.wf(),
        ty.wf(),
        tz.wf(),
    ensures
        triple(euler_spec(tx, ty, tz, u1), euler_spec(tx, ty, tz, u2), euler_spec(tx, ty, tz, u3))
            == (euler_scale(tx, ty, tz) * euler_scale(tx, ty, tz) * euler_scale(tx, ty, tz))
            * triple(u1, u2, u3),
{
    let z1 = turn_about_z(tz, u1);
    let z2 = turn_about_z(tz, u2);
    let z3 = turn_about_z(tz, u3);
    lemma_turn_triples(tz, u1, u2, u3);
    lemma_turn_triples(ty, z1, z2, z3);
    lemma_turn_triples(tx, turn_about_y(ty, z1), turn_about_y(ty, z2), turn_about_y(ty, z3));
    let (hx, hy, hz) = (tx.h as int, ty.h as int, tz.h as int);
    assert((hx * hx * hx) * ((hy * hy * hy) * ((hz * hz * hz) * triple(u1, u2, u3))) == ((hx * hy
        * hz) * (hx * hy * hz) * (hx * hy * hz)) * triple(u1, u2, u3)) by {
        broadcast use vstd::arithmetic::mul::group_mul_properties;

    }
}

/// Composing three elemental turns gives a proper rotation: the columns of
/// `R_x(tx) * R_y(ty) * R_z(tz)`, scaled by `H = tx.h * ty.h * tz.h`, are pairwise orthogonal,
/// each of squared length `H * H`, and their determinant is `H * H * H`; divided by `H` the
/// matrix is orthogonal with determinant 1.
pub proof fn lemma_euler_is_proper_rotation(tx: Turn, ty: Turn, tz: Turn)
    requires
        tx.wf(),
        ty.wf(),
        tz.wf(),
    ensures
        euler_scale(tx, ty, tz) > 0,
        dot(euler_column(tx, ty, tz, 0), euler_column(tx, ty, tz, 0)) == euler_scale(tx, ty, tz)
            * euler_scale(tx, ty, tz),
        dot(euler_column(tx, ty, tz, 1), euler_column(tx, ty, tz, 1)) == euler_scale(tx, ty, tz)
            * euler_scale(tx, ty, tz),
        dot(euler_column(tx, ty, tz, 2), euler_column(tx, ty, tz, 2)) == euler_scale(tx, ty, tz)
            * euler_scale(tx, ty, tz),
        dot(euler_column(tx, ty, tz, 0), euler_column(tx, ty, tz, 1)) == 0,
        dot(euler_column(tx, ty, tz, 0), euler_column(tx, ty, tz, 2)) == 0,
        dot(euler_column(tx, ty, tz, 1), euler_column(tx, ty, tz, 2)) == 0,
        triple(euler_column(tx, ty, tz, 0), euler_column(tx, ty, tz, 1), euler_column(tx, ty, tz, 2))
            == euler_scale(tx, ty, tz) * euler_scale(tx, ty, tz) * euler_scale(tx, ty, tz),
{
    let e0 = v3(1, 0, 0);
    let e1 = v3(0, 1, 0);
    let e2 = v3(0, 0, 1);
    let hh = euler_scale(tx, ty, tz) * euler_scale(tx, ty, tz);
    assert(euler_scale(tx, ty, tz) > 0) by {
        broadcast use vstd::arithmetic::mul::group_mul_properties;

    }
    lemma_euler_dot(tx, ty, tz, e0, e0);
    lemma_euler_dot(tx, ty, tz, e1, e1);
    lemma_euler_dot(tx, ty, tz, e2, e2);
    lemma_euler_dot(tx, ty, tz, e0, e1);
    lemma_euler_dot(tx, ty, tz, e0, e2);
    lemma_euler_dot(tx, ty, tz, e1, e2);
    lemma_euler_triple(tx, ty, tz, e0, e1, e2);
    assert(dot(e0, e0) == 1 && dot(e1, e1) == 1 && dot(e2, e2) == 1);
    assert(dot(e0, e1) == 0 && dot(e0, e2) == 0 && dot(e1, e2) == 0);
    assert(triple(e0, e1, e2) == 1);
    assert(hh * 1 == hh && hh * 0 == 0);
    let hhh = euler_scale(tx, ty, tz) * euler_scale(tx, ty, tz) * euler_scale(tx, ty, tz);
    lemma_mul_one(hhh, triple(e0, e1, e2));
}

proof fn lemma_mul_one(a: int, b: int)
    requires
        b == 1,
    ensures
        a * b == a,
{
}


/// `a * u + b * v + c * w`.
pub open spec fn combo(a: int, b: int, c: int, u: V3, v: V3, w: V3) -> V3 {
    v3(a * u.x + b * v.x + c * w.x, a * u.y + b * v.y + c * w.y, a * u.z + b * v.z + c * w.z)
}

proof fn lemma_linear_entry(m: int, n: int, a: int, b: int, c: int, u1: int, u2: int, v1: int, v2: int, w1: int, w2: int)
    ensures
        m * (a * u1 + b * v1 + c * w1) + n * (a * u2 + b * v2 + c * w2) == a * (m * u1 + n * u2) + b
            * (m * v1 + n * v2) + c * (m * w1 + n * w2),
{
    broadcast use vstd::arithmetic::mul::group_mul_properties;

}

proof fn lemma_linear_single(m: int, a: int, b: int, c: int, u1: int, v1: int, w1: int)
    ensures
        m * (a * u1 + b * v1 + c * w1) == a * (m * u1) + b * (m * v1) + c * (m * w1),
{
    broadcast use vstd::arithmetic::mul::group_mul_properties;

}

/// Each elemental turn is linear.
proof fn lemma_turns_linear(t: Turn, a: int, b: int, c: int, u: V3, v: V3, w: V3)
    ensures
        turn_about_x(t, combo(a, b, c, u, v, w)) == combo(
            a,
            b,
            c,
            turn_about_x(t, u),
            turn_about_x(t, v),
            turn_about_x(t, w),
        ),
        turn_about_y(t, combo(a, b, c, u, v, w)) == combo(
            a,
            b,
            c,
            turn_about_y(t, u),
            turn_about_y(t, v),
            turn_about_y(t, w),
        ),
        turn_about_z(t, combo(a, b, c, u, v, w)) == combo(
            a,
            b,
            c,
            turn_about_z(t, u),
            turn_about_z(t, v),
            turn_about_z(t, w),
        ),
{
    let (h, cs, sn) = (t.h as int, t.c as int, t.s as int);
    lemma_linear_single(h, a, b, c, u.x, v.x, w.x);
    lemma_linear_single(h, a, b, c, u.y, v.y, w.y);
    lemma_linear_single(h, a, b, c, u.z, v.z, w.z);
    lemma_linear_entry_sub(cs, sn, a, b, c, u.y, u.z, v.y, v.z, w.y, w.z);
    lemma_linear_entry(sn, cs, a, b, c, u.y, u.z, v.y, v.z, w.y, w.z);
    lemma_linear_entry(cs, sn, a, b, c, u.x, u.z, v.x, v.z, w.x, w.z);
    lemma_linear_entry_sub(cs, sn, a, b, c, u.z, u.x, v.z, v.x, w.z, w.x);
    lemma_linear_entry_sub(cs, sn, a, b, c, u.x, u.y, v.x, v.y, w.x, w.y);
    lemma_linear_entry(sn, cs, a, b, c, u.x, u.y, v.x, v.y, w.x, w.y);
}

proof fn lemma_linear_entry_sub(m: int, n: int, a: int, b: int, c: int, u1: int, u2: int, v1: int, v2: int, w1: int, w2: int)
    ensures
        m * (a * u1 + b * v1 + c * w1) - n * (a * u2 + b * v2 + c * w2) == a * (m * u1 - n * u2) + b
            * (m * v1 - n * v2) + c * (m * w1 - n * w2),
{
    broadcast use vstd::arithmetic::mul::group_mul_properties;

}

/// The composed rotation is the matrix whose columns are `euler_column(.., 0..3)`:
/// it sends `w` to `w.x * col0 + w.y * col1 + w.z * col2`.
pub proof fn lemma_euler_is_matrix(tx: Turn, ty: Turn, tz: Turn, w: V3)
    ensures
        euler_spec(tx, ty, tz, w) == combo(
            w.x,
            w.y,
            w.z,
            euler_column(tx, ty, tz, 0),
            euler_column(tx, ty, tz, 1),
            euler_column(tx, ty, tz, 2),
        ),
{
    let e0 = v3(1, 0, 0);
    let e1 = v3(0, 1, 0);
    let e2 = v3(0, 0, 1);
    assert(w == combo(w.x, w.y, w.z, e0, e1, e2));
    lemma_turns_linear(tz, w.x, w.y, w.z, e0, e1, e2);
    let z0 = turn_about_z(tz, e0);
    let z1 = turn_about_z(tz, e1);
    let z2 = turn_about_z(tz, e2);
    lemma_turns_linear(ty, w.x, w.y, w.z, z0, z1, z2);
    lemma_turns_linear(
        tx,
        w.x,
        w.y,
        w.z,
        turn_about_y(ty, z0),
        turn_about_y(ty, z1),
        turn_about_y(ty, z2),
    );
}

} // verus!
