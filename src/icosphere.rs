use vstd::prelude::*;

use crate::cube::Vec3;
use crate::rotation::lemma_mul_bound;

verus! {

/// The circumradius of the icosahedron in the units of its vertex coordinates.
pub const ICO_UNIT: i64 = 1_000_000;

/// The shorter vertex coordinate of the icosahedron, in millionths of its circumradius.
pub const ICO_SHORT: i64 = 525_731;

/// The longer vertex coordinate of the icosahedron, in millionths of its circumradius.
pub const ICO_LONG: i64 = 850_651;

/// Largest subdivision of a face that `icosphere_points` accepts.
pub const MAX_RES: u32 = 4096;

/// Number of faces of the icosahedron.
pub const ICO_FACES: usize = 20;

/// Vertex `n` of the icosahedron: the cyclic permutations of `(0, ±LONG, ±SHORT)`.
pub open spec fn ico_vertex(n: int) -> (int, int, int) {
    let (s, l) = (ICO_SHORT as int, ICO_LONG as int);
    if n == 0 {
        (-s, 0, l)
    } else if n == 1 {
        (s, 0, l)
    } else if n == 2 {
        (-s, 0, -l)
    } else if n == 3 {
        (s, 0, -l)
    } else if n == 4 {
        (0, l, s)
    } else if n == 5 {
        (0, l, -s)
    } else if n == 6 {
        (0, -l, s)
    } else if n == 7 {
        (0, -l, -s)
    } else if n == 8 {
        (l, s, 0)
    } else if n == 9 {
        (-l, s, 0)
    } else if n == 10 {
        (l, -s, 0)
    } else {
        (-l, -s, 0)
    }
}

/// The three vertices of face `t` of the icosahedron.
pub open spec fn ico_face(t: int) -> (int, int, int) {
    if t == 0 {
        (0, 4, 1)
    } else if t == 1 {
        (0, 9, 4)
    } else if t == 2 {
        (9, 5, 4)
    } else if t == 3 {
        (4, 5, 8)
    } else if t == 4 {
        (4, 8, 1)
    } else if t == 5 {
        (8, 10, 1)
    } else if t == 6 {
        (8, 3, 10)
    } else if t == 7 {
        (5, 3, 8)
    } else if t == 8 {
        (5, 2, 3)
    } else if t == 9 {
        (2, 7, 3)
    } else if t == 10 {
        (7, 10, 3)
    } else if t == 11 {
        (7, 6, 10)
    } else if t == 12 {
        (7, 11, 6)
    } else if t == 13 {
        (11, 0, 6)
    } else if t == 14 {
        (0, 1, 6)
    } else if t == 15 {
        (6, 1, 10)
    } else if t == 16 {
        (9, 0, 11)
    } else if t == 17 {
        (9, 11, 2)
    } else if t == 18 {
        (9, 2, 5)
    } else {
        (7, 2, 11)
    }
}

/// `i * a + j * b + k * c` for the vertices `a`, `b`, `c` of face `t`, with `k = res - i - j`:
/// the grid point of barycentric weights `(i, j, k) / res`, as a ray.
pub open spec fn grid_point(t: int, i: int, j: int, res: int) -> Vec3 {
    let f = ico_face(t);
    let (a, b, c) = (ico_vertex(f.0), ico_vertex(f.1), ico_vertex(f.2));
    let k = res - i - j;
    Vec3 {
        x: (i * a.0 + j * b.0 + k * c.0) as i64,
        y: (i * a.1 + j * b.1 + k * c.1) as i64,
        z: (i * a.2 + j * b.2 + k * c.2) as i64,
    }
}

/// Row `i` of face `t`: the points with first weight `i`, by growing second weight.
pub open spec fn grid_row(t: int, i: int, res: int) -> Seq<Vec3> {
    Seq::new((res + 1 - i) as nat, |j: int| grid_point(t, i, j, res))
}

/// The first `n` rows of face `t`.
pub open spec fn grid_face(t: int, n: int, res: int) -> Seq<Vec3>
    decreases n,
{
    if n <= 0 {
        seq![]
    } else {
        grid_face(t, n - 1, res) + grid_row(t, n - 1, res)
    }
}

/// The grids of the first `m` faces, face after face.
pub open spec fn grid_upto(m: int, res: int) -> Seq<Vec3>
    decreases m,
{
    if m <= 0 {
        seq![]
    } else {
        grid_upto(m - 1, res) + grid_face(m - 1, res + 1, res)
    }
}

fn vertex(n: usize) -> (r: (i64, i64, i64))
    requires
        n < 12,
    ensures
        r.0 == ico_vertex(n as int).0,
        r.1 == ico_vertex(n as int).1,
        r.2 == ico_vertex(n as int).2,
{
    let (s, l) = (ICO_SHORT, ICO_LONG);
    if n == 0 {
        (-s, 0, l)
    } else if n == 1 {
        (s, 0, l)
    } else if n == 2 {
        (-s, 0, -l)
    } else if n == 3 {
        (s, 0, -l)
    } else if n == 4 {
        (0, l, s)
    } else if n == 5 {
        (0, l, -s)
    } else if n == 6 {
        (0, -l, s)
    } else if n == 7 {
        (0, -l, -s)
    } else if n == 8 {
        (l, s, 0)
    } else if n == 9 {
        (-l, s, 0)
    } else if n == 10 {
        (l, -s, 0)
    } else {
        (-l, -s, 0)
    }
}

fn face(t: usize) -> (r: (usize, usize, usize))
    requires
        t < ICO_FACES,
    ensures
        r.0 == ico_face(t as int).0,
        r.1 == ico_face(t as int).1,
        r.2 == ico_face(t as int).2,
        r.0 < 12 && r.1 < 12 && r.2 < 12,
{
    if t == 0 {
        (0, 4, 1)
    } else if t == 1 {
        (0, 9, 4)
    } else if t == 2 {
        (9, 5, 4)
    } else if t == 3 {
        (4, 5, 8)
    } else if t == 4 {
        (4, 8, 1)
    } else if t == 5 {
        (8, 10, 1)
    } else if t == 6 {
        (8, 3, 10)
    } else if t == 7 {
        (5, 3, 8)
    } else if t == 8 {
        (5, 2, 3)
    } else if t == 9 {
        (2, 7, 3)
    } else if t == 10 {
        (7, 10, 3)
    } else if t == 11 {
        (7, 6, 10)
    } else if t == 12 {
        (7, 11, 6)
    } else if t == 13 {
        (11, 0, 6)
    } else if t == 14 {
        (0, 1, 6)
    } else if t == 15 {
        (6, 1, 10)
    } else if t == 16 {
        (9, 0, 11)
    } else if t == 17 {
        (9, 11, 2)
    } else if t == 18 {
        (9, 2, 5)
    } else {
        (7, 2, 11)
    }
}

fn weighted(i: i64, a: i64, j: i64, b: i64, k: i64, c: i64) -> (r: i64)
    requires
        0 <= i <= MAX_RES,
        0 <= j <= MAX_RES,
        0 <= k <= MAX_RES,
        -ICO_LONG <= a <= ICO_LONG,
        -ICO_LONG <= b <= ICO_LONG,
        -ICO_LONG <= c <= ICO_LONG,
    ensures
        r == i * a + j * b + k * c,
{
    proof {
        lemma_mul_bound(i as int, a as int, MAX_RES as int, ICO_LONG as int);
        lemma_mul_bound(j as int, b as int, MAX_RES as int, ICO_LONG as int);
        lemma_mul_bound(k as int, c as int, MAX_RES as int, ICO_LONG as int);
    }
    i * a + j * b + k * c
}

/// The grid point of face `t` with weights `(i, j, res - i - j) / res`, as a ray.
pub fn icosphere_point(t: usize, i: u32, j: u32, res: u32) -> (r: Vec3)
    requires
        t < ICO_FACES,
        res <= MAX_RES,
        i + j <= res,
    ensures
        r == grid_point(t as int, i as int, j as int, res as int),
{
    let (fa, fb, fc) = face(t);
    let a = vertex(fa);
    let b = vertex(fb);
    let c = vertex(fc);
    let (ii, jj) = (i as i64, j as i64);
    let kk = (res - i - j) as i64;
    Vec3 {
        x: weighted(ii, a.0, jj, b.0, kk, c.0),
        y: weighted(ii, a.1, jj, b.1, kk, c.1),
        z: weighted(ii, a.2, jj, b.2, kk, c.2),
    }
}

/// Every point of the subdivided icosahedron: for each of its faces in turn, the points of
/// barycentric weights `(i, j, res - i - j) / res`, row by row in `i`, each row by `j`.
pub fn icosphere_points(res: u32) -> (r: Vec<Vec3>)
    requires
        res <= MAX_RES,
    ensures
        r@ == grid_upto(ICO_FACES as int, res as int),
{
    let mut out: Vec<Vec3> = Vec::new();
    let mut t: usize = 0;
    while t < ICO_FACES
        invariant
            t <= ICO_FACES,
            res <= MAX_RES,
            out@ == grid_upto(t as int, res as int),
        decreases ICO_FACES - t,
    {
        let mut i: u32 = 0;
        while i <= res
            invariant
                t < ICO_FACES,
                i <= res + 1,
                res <= MAX_RES,
                out@ == grid_upto(t as int, res as int) + grid_face(t as int, i as int, res as int),
            decreases res + 1 - i,
        {
            let mut j: u32 = 0;
            let base = Ghost(out@);
            while j <= res - i
                invariant
                    t < ICO_FACES,
                    i <= res,
                    j <= res - i + 1,
                    res <= MAX_RES,
                    base@ == grid_upto(t as int, res as int) + grid_face(t as int, i as int, res as int),
                    out@ == base@ + grid_row(t as int, i as int, res as int).take(j as int),
                decreases res - i + 1 - j,
            {
                let p = icosphere_point(t, i, j, res);
                proof {
                    assert(grid_row(t as int, i as int, res as int).take(j as int + 1)
                        =~= grid_row(t as int, i as int, res as int).take(j as int).push(p));
                }
                out.push(p);
                j = j + 1;
            }
            proof {
                assert(grid_row(t as int, i as int, res as int).take(j as int) =~= grid_row(
                    t as int,
                    i as int,
                    res as int,
                ));
                assert(grid_face(t as int, i as int + 1, res as int) == grid_face(t as int, i as int, res as int)
                    + grid_row(t as int, i as int, res as int));
                assert(out@ =~= grid_upto(t as int, res as int) + grid_face(t as int, i as int + 1, res as int));
            }
            i = i + 1;
        }
        proof {
            assert(grid_upto(t as int + 1, res as int) == grid_upto(t as int, res as int) + grid_face(
                t as int,
                res as int + 1,
                res as int,
            ));
        }
        t = t + 1;
    }
    out
}

} // verus!
