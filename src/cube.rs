use vstd::prelude::*;

use crate::image::{Image, Rgba, MAX_DIM};

verus! {

/// A direction in space, given by any non-zero integer vector along it.
/// Its length carries no meaning: `(0, 0, 1)` and `(0, 0, 7)` are the same direction.
#[derive(Clone, Copy, Debug, PartialEq, Eq, Structural)]
pub struct Vec3 {
    pub x: i64,
    pub y: i64,
    pub z: i64,
}

impl Vec3 {
    pub open spec fn is_zero(&self) -> bool {
        self.x == 0 && self.y == 0 && self.z == 0
    }
}

/// The six faces of a cube map.
#[derive(Clone, Copy, Debug, PartialEq, Eq, Structural)]
pub enum CubeFace {
    Front,
    Back,
    Left,
    Right,
    Top,
    Bottom,
}

pub open spec fn abs(a: int) -> int {
    if a < 0 {
        -a
    } else {
        a
    }
}

/// The x axis wins the comparison of magnitudes (ties go to x).
pub open spec fn x_dominant(x: int, y: int, z: int) -> bool {
    abs(x) >= abs(y) && abs(x) >= abs(z)
}

/// The face that a direction selects: the axis of largest magnitude, ties broken
/// x before y before z, and the sign of that component (zero or less: the negative face).
pub open spec fn face_of(x: int, y: int, z: int) -> CubeFace {
    if x_dominant(x, y, z) {
        if x <= 0 {
            CubeFace::Left
        } else {
            CubeFace::Right
        }
    } else if abs(y) >= abs(z) {
        if y <= 0 {
            CubeFace::Bottom
        } else {
            CubeFace::Top
        }
    } else {
        if z <= 0 {
            CubeFace::Back
        } else {
            CubeFace::Front
        }
    }
}

/// The condition under which each face's branch is taken, written out face by face.
pub open spec fn in_region(f: CubeFace, x: int, y: int, z: int) -> bool {
    match f {
        CubeFace::Left => x_dominant(x, y, z) && x <= 0,
        CubeFace::Right => x_dominant(x, y, z) && x > 0,
        CubeFace::Bottom => !x_dominant(x, y, z) && abs(y) >= abs(z) && y <= 0,
        CubeFace::Top => !x_dominant(x, y, z) && abs(y) >= abs(z) && y > 0,
        CubeFace::Back => !x_dominant(x, y, z) && abs(y) < abs(z) && z <= 0,
        CubeFace::Front => !x_dominant(x, y, z) && abs(y) < abs(z) && z > 0,
    }
}

/// The component along the face's own axis.
pub open spec fn face_axis(f: CubeFace, x: int, y: int, z: int) -> int {
    match f {
        CubeFace::Left | CubeFace::Right => x,
        CubeFace::Bottom | CubeFace::Top => y,
        CubeFace::Back | CubeFace::Front => z,
    }
}

/// The signed term `a` of the face's horizontal coordinate `u = (a / axis + 1) / 2`.
pub open spec fn face_u_term(f: CubeFace, x: int, y: int, z: int) -> int {
    match f {
        CubeFace::Left | CubeFace::Right => -z,
        CubeFace::Bottom => -x,
        CubeFace::Top | CubeFace::Back | CubeFace::Front => x,
    }
}

/// The signed term `b` of the face's vertical coordinate `v = (b / axis + 1) / 2`.
pub open spec fn face_v_term(f: CubeFace, x: int, y: int, z: int) -> int {
    match f {
        CubeFace::Left | CubeFace::Back => -y,
        CubeFace::Right | CubeFace::Front => y,
        CubeFace::Bottom | CubeFace::Top => -z,
    }
}

/// Numerator of `(term / axis + 1) / 2` over the positive denominator `2 * |axis|`.
pub open spec fn half_shift(term: int, axis: int) -> int {
    abs(axis) + if axis < 0 {
        -term
    } else {
        term
    }
}

/// Texel index along one side of `size` texels for the coordinate `num / den` in [0, 1];
/// the coordinate 1 falls into the last texel.
pub open spec fn texel_index(num: int, den: int, size: int) -> int {
    let i = num * size / den;
    if i < size {
        i
    } else {
        size - 1
    }
}

/// A point on a cube face: the face, and its coordinates `u / den` and `v / den` in [0, 1].
#[derive(Clone, Copy, Debug, PartialEq, Eq, Structural)]
pub struct FaceCoord {
    pub face: CubeFace,
    pub u: i128,
    pub v: i128,
    pub den: i128,
}

impl FaceCoord {
    /// The exact point where direction `d` meets the unit cube.
    pub open spec fn of(d: Vec3) -> FaceCoord {
        let f = face_of(d.x as int, d.y as int, d.z as int);
        let axis = face_axis(f, d.x as int, d.y as int, d.z as int);
        FaceCoord {
            face: f,
            u: half_shift(face_u_term(f, d.x as int, d.y as int, d.z as int), axis) as i128,
            v: half_shift(face_v_term(f, d.x as int, d.y as int, d.z as int), axis) as i128,
            den: (2 * abs(axis)) as i128,
        }
    }
}

/// Selects the face that direction `d` points at.
pub fn select_face(d: &Vec3) -> (r: CubeFace)
    ensures
        r == face_of(d.x as int, d.y as int, d.z as int),
{
    let ax = abs_i128(d.x);
    let ay = abs_i128(d.y);
    let az = abs_i128(d.z);
    if ax >= ay && ax >= az {
        if d.x <= 0 {
            CubeFace::Left
        } else {
            CubeFace::Right
        }
    } else if ay >= az {
        if d.y <= 0 {
            CubeFace::Bottom
        } else {
            CubeFace::Top
        }
    } else {
        if d.z <= 0 {
            CubeFace::Back
        } else {
            CubeFace::Front
        }
    }
}

fn abs_i128(a: i64) -> (r: i128)
    ensures
        r == abs(a as int),
{
    if a < 0 {
        -(a as i128)
    } else {
        a as i128
    }
}

/// Where direction `d` meets its cube face, in exact face-local coordinates.
pub fn face_coord(d: &Vec3) -> (r: FaceCoord)
    requires
        !d.is_zero(),
    ensures
        r == FaceCoord::of(*d),
        r.den > 0,
        0 <= r.u <= r.den,
        0 <= r.v <= r.den,
{
    proof {
        lemma_face_selection(d.x as int, d.y as int, d.z as int);
    }
    let face = select_face(d);
    let (axis, ut, vt): (i128, i128, i128) = match face {
        CubeFace::Left => (d.x as i128, -(d.z as i128), -(d.y as i128)),
        CubeFace::Right => (d.x as i128, -(d.z as i128), d.y as i128),
        CubeFace::Bottom => (d.y as i128, -(d.x as i128), -(d.z as i128)),
        CubeFace::Top => (d.y as i128, d.x as i128, -(d.z as i128)),
        CubeFace::Back => (d.z as i128, d.x as i128, -(d.y as i128)),
        CubeFace::Front => (d.z as i128, d.x as i128, d.y as i128),
    };
    let (m, u, v) = if axis < 0 {
        (-axis, -axis - ut, -axis - vt)
    } else {
        (axis, axis + ut, axis + vt)
    };
    FaceCoord { face, u, v, den: 2 * m }
}

/// Face selection is total and its branches exclude each other: a non-zero direction lies
/// in the region of exactly one face, the one `face_of` names; along that face's axis the
/// direction has a non-zero component at least as large as the other two, so the
/// face-local coordinates lie in [0, 1].
pub proof fn lemma_face_selection(x: int, y: int, z: int)
    requires
        !(x == 0 && y == 0 && z == 0),
    ensures
        in_region(face_of(x, y, z), x, y, z),
        forall|f: CubeFace| #[trigger] in_region(f, x, y, z) ==> f == face_of(x, y, z),
        abs(face_axis(face_of(x, y, z), x, y, z)) > 0,
        abs(face_u_term(face_of(x, y, z), x, y, z)) <= abs(face_axis(face_of(x, y, z), x, y, z)),
        abs(face_v_term(face_of(x, y, z), x, y, z)) <= abs(face_axis(face_of(x, y, z), x, y, z)),
{
}

/// Six square images of one size, one for each face of a cube.
pub struct CubeFaces {
    pub front: Image,
    pub back: Image,
    pub left: Image,
    pub right: Image,
    pub top: Image,
    pub bottom: Image,
}

impl CubeFaces {
    /// The image of face `f`.
    pub open spec fn image(&self, f: CubeFace) -> Image {
        match f {
            CubeFace::Front => self.front,
            CubeFace::Back => self.back,
            CubeFace::Left => self.left,
            CubeFace::Right => self.right,
            CubeFace::Top => self.top,
            CubeFace::Bottom => self.bottom,
        }
    }

    /// The side length shared by all six images.
    pub open spec fn size(&self) -> nat {
        self.front.width as nat
    }

    /// Every image is well formed, square, non-empty and of the same size.
    pub open spec fn wf(&self) -> bool {
        forall|f: CubeFace|
            {
                &&& #[trigger] self.image(f).wf()
                &&& self.image(f).width == self.size()
                &&& self.image(f).height == self.size()
                &&& self.size() >= 1
            }
    }

    /// The texel that direction `d` reads: column from `u`, row from `v`, rows counted from
    /// the first row of the face's buffer. Sampling takes the nearest texel, the one whose
    /// cell holds the point; it does not blend neighbouring texels.
    pub open spec fn sample_spec(&self, d: Vec3) -> Rgba {
        let c = FaceCoord::of(d);
        self.image(c.face).texel(
            texel_index(c.u as int, c.den as int, self.size() as int),
            texel_index(c.v as int, c.den as int, self.size() as int),
        )
    }

    fn face_image(&self, f: CubeFace) -> (r: &Image)
        ensures
            *r == self.image(f),
    {
        match f {
            CubeFace::Front => &self.front,
            CubeFace::Back => &self.back,
            CubeFace::Left => &self.left,
            CubeFace::Right => &self.right,
            CubeFace::Top => &self.top,
            CubeFace::Bottom => &self.bottom,
        }
    }

    /// The colour that the cube map shows in direction `d`: the nearest texel of the face
    /// it points at, without filtering.
    pub fn sample(&self, d: &Vec3) -> (r: Rgba)
        requires
            self.wf(),
            !d.is_zero(),
        ensures
            r == self.sample_spec(*d),
    {
        let c = face_coord(d);
        let img = self.face_image(c.face);
        assert(self.image(c.face).wf());
        assert(img.wf() && img.width == self.size() && img.height == self.size());
        let col = face_texel(c.u, c.den, img.width);
        let row = face_texel(c.v, c.den, img.width);
        img.pixel(col, row)
    }
}

/// Index of the texel that holds coordinate `num / den` on a side of `size` texels.
pub fn face_texel(num: i128, den: i128, size: usize) -> (r: usize)
    requires
        0 <= num <= den,
        0 < den <= 0x4_0000_0000_0000_0000,
        1 <= size <= MAX_DIM,
    ensures
        r == texel_index(num as int, den as int, size as int),
        r < size,
{
    assert(num * size <= den * size) by (nonlinear_arith)
        requires
            0 <= num <= den,
            1 <= size,
    ;
    assert(den * size <= 0x4_0000_0000_0000_0000 * MAX_DIM) by (nonlinear_arith)
        requires
            0 < den <= 0x4_0000_0000_0000_0000,
            size <= MAX_DIM,
    ;
    assert(0 <= num * size) by (nonlinear_arith)
        requires
            0 <= num,
            1 <= size,
    ;
    let i = num * (size as i128) / den;
    assert(i <= size) by (nonlinear_arith)
        requires
            i == (num * size) / (den as int),
            0 <= num <= den,
            0 < den,
            1 <= size,
    ;
    if i < size as i128 {
        i as usize
    } else {
        size - 1
    }
}

} // verus!
