use vstd::prelude::*;

use crate::image::MAX_DIM;

verus! {

/// Fixed-point unit of the signed panorama coordinates: `ANGLE_ONE` stands for a half turn of
/// azimuth and for a quarter turn of elevation.
pub const ANGLE_ONE: i64 = 1_000_000;

/// A point of an equirectangular panorama in signed coordinates: `azimuth / ANGLE_ONE`
/// is the azimuth over pi, `elevation / ANGLE_ONE` the elevation over pi / 2.
#[derive(Clone, Copy, Debug, PartialEq, Eq, Structural)]
pub struct EquirectPoint {
    pub azimuth: i64,
    pub elevation: i64,
}

impl EquirectPoint {
    /// Both coordinates lie in [-1, 1].
    pub open spec fn wf(&self) -> bool {
        &&& -ANGLE_ONE <= self.azimuth <= ANGLE_ONE
        &&& -ANGLE_ONE <= self.elevation <= ANGLE_ONE
    }
}

/// The texel index along a side of `size` texels for the signed coordinate `a`: the texture
/// coordinate `(1 - a) / 2`, times `size`, rounded half up, modulo `size`.
pub open spec fn texel_along(a: int, size: int) -> int {
    (((ANGLE_ONE - a) * size + ANGLE_ONE) / (2 * ANGLE_ONE)) % size
}

/// Column and row of the texel that holds point `p` in a `width` by `height` panorama.
pub fn equirect_texel(p: &EquirectPoint, width: usize, height: usize) -> (r: (usize, usize))
    requires
        p.wf(),
        1 <= width <= MAX_DIM,
        1 <= height <= MAX_DIM,
    ensures
        r.0 == texel_along(p.azimuth as int, width as int),
        r.1 == texel_along(p.elevation as int, height as int),
        r.0 < width,
        r.1 < height,
{
    let col = texel_along_exec(p.azimuth, width);
    let row = texel_along_exec(p.elevation, height);
    (col, row)
}

fn texel_along_exec(a: i64, size: usize) -> (r: usize)
    requires
        -ANGLE_ONE <= a <= ANGLE_ONE,
        1 <= size <= MAX_DIM,
    ensures
        r == texel_along(a as int, size as int),
        r < size,
{
    let n: u64 = (ANGLE_ONE - a) as u64;
    assert(n * size <= 2 * ANGLE_ONE * MAX_DIM) by (nonlinear_arith)
        requires
            n <= 2 * ANGLE_ONE,
            size <= MAX_DIM,
    ;
    let q = (n * (size as u64) + (ANGLE_ONE as u64)) / (2 * ANGLE_ONE as u64);
    (q % (size as u64)) as usize
}

/// Signed coordinate of texel `i` on a side of `size` texels: the value that `texel_along`
/// rounds exactly onto `i`, that is `1 - 2 * i / size`, rounded towards `-1`.
pub open spec fn texel_coord(i: int, size: int) -> int {
    ANGLE_ONE - (2 * i * ANGLE_ONE) / size
}

proof fn lemma_texel_coord(i: int, size: int)
    requires
        0 <= i < size,
        size <= ANGLE_ONE,
    ensures
        -ANGLE_ONE <= texel_coord(i, size) <= ANGLE_ONE,
        texel_along(texel_coord(i, size), size) == i,
{
    let n = 2 * i * ANGLE_ONE;
    let f = n / size;
    vstd::arithmetic::div_mod::lemma_fundamental_div_mod(n, size);
    vstd::arithmetic::div_mod::lemma_mod_bound(n, size);
    assert(0 <= f <= 2 * ANGLE_ONE) by (nonlinear_arith)
        requires
            n == size * f + n % size,
            0 <= n % size < size,
            0 <= i < size,
            n == 2 * i * ANGLE_ONE,
    ;
    assert(f * size == size * f) by (nonlinear_arith);
    let t = f * size + ANGLE_ONE;
    assert(2 * ANGLE_ONE * i <= t < 2 * ANGLE_ONE * i + 2 * ANGLE_ONE);
    assert(t / (2 * ANGLE_ONE) == i) by (nonlinear_arith)
        requires
            2 * ANGLE_ONE * i <= t < 2 * ANGLE_ONE * i + 2 * ANGLE_ONE,
    ;
    assert((ANGLE_ONE - texel_coord(i, size)) == f);
    assert((ANGLE_ONE - texel_coord(i, size)) * size + ANGLE_ONE == t);
    vstd::arithmetic::div_mod::lemma_small_mod(i as nat, size as nat);
}

/// The point at the centre of texel (col, row) of a `width` by `height` panorama, in the
/// convention of `equirect_texel`, which maps it back onto (col, row).
pub fn texel_point(col: usize, row: usize, width: usize, height: usize) -> (r: EquirectPoint)
    requires
        col < width <= ANGLE_ONE,
        row < height <= ANGLE_ONE,
    ensures
        r.wf(),
        r.azimuth == texel_coord(col as int, width as int),
        r.elevation == texel_coord(row as int, height as int),
        texel_along(r.azimuth as int, width as int) == col,
        texel_along(r.elevation as int, height as int) == row,
{
    proof {
        lemma_texel_coord(col as int, width as int);
        lemma_texel_coord(row as int, height as int);
    }
    let a = ANGLE_ONE - ((2 * (col as u64) * (ANGLE_ONE as u64)) / (width as u64)) as i64;
    let e = ANGLE_ONE - ((2 * (row as u64) * (ANGLE_ONE as u64)) / (height as u64)) as i64;
    EquirectPoint { azimuth: a, elevation: e }
}

} // verus!
