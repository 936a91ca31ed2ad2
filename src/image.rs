use vstd::prelude::*;

verus! {

/// Largest width or height, in texels, that an image may have.
pub const MAX_DIM: usize = 16_777_216;

/// One texel: red, green, blue and alpha, each a byte.
#[derive(Clone, Copy, Debug, PartialEq, Eq, Structural)]
pub struct Rgba {
    pub r: u8,
    pub g: u8,
    pub b: u8,
    pub a: u8,
}

/// An RGBA8 raster stored row after row, the first row first, four bytes a texel.
pub struct Image {
    pub width: usize,
    pub height: usize,
    pub data: Vec<u8>,
}

impl Image {
    /// The buffer holds exactly four bytes for each texel.
    pub open spec fn wf(&self) -> bool {
        &&& self.width <= MAX_DIM
        &&& self.height <= MAX_DIM
        &&& self.data@.len() == 4 * self.width * self.height
    }

    /// Index of the first byte of texel (col, row).
    pub open spec fn offset(&self, col: int, row: int) -> int {
        4 * (row * self.width + col)
    }

    /// The texel at column `col` and row `row`.
    pub open spec fn texel(&self, col: int, row: int) -> Rgba {
        let o = self.offset(col, row);
        Rgba {
            r: self.data@[o],
            g: self.data@[o + 1],
            b: self.data@[o + 2],
            a: self.data@[o + 3],
        }
    }

    /// Every texel has full alpha.
    pub open spec fn is_opaque(&self) -> bool {
        forall|col: int, row: int|
            0 <= col < self.width && 0 <= row < self.height ==> #[trigger] self.texel(col, row).a
                == 255
    }

    /// Wraps a raw buffer; `None` where its length is not four bytes for each texel,
    /// or where a side exceeds `MAX_DIM`.
    pub fn from_raw(width: usize, height: usize, data: Vec<u8>) -> (r: Option<Image>)
        ensures
            r is Some <==> (width <= MAX_DIM && height <= MAX_DIM && data@.len() == 4 * width
                * height),
            r matches Some(img) ==> img.wf() && img.width == width && img.height == height
                && img.data@ == data@,
    {
        if width > MAX_DIM || height > MAX_DIM {
            return None;
        }
        assert((width as u128) * (height as u128) <= 0x1_0000_0000_0000) by (nonlinear_arith)
            requires
                width <= MAX_DIM,
                height <= MAX_DIM,
        ;
        let wanted: u128 = 4 * ((width as u128) * (height as u128));
        assert(4 * width * height == 4 * ((width as u128) * (height as u128))) by (nonlinear_arith);
        if data.len() as u128 != wanted {
            None
        } else {
            Some(Image { width, height, data })
        }
    }

    /// Reads texel (col, row).
    pub fn pixel(&self, col: usize, row: usize) -> (r: Rgba)
        requires
            self.wf(),
            col < self.width,
            row < self.height,
        ensures
            r == self.texel(col as int, row as int),
    {
        let n = self.data.len();
        proof {
            lemma_texel_in_bounds(self.width as int, self.height as int, col as int, row as int);
            assert(self.data@.len() == 4 * self.width * self.height);
            assert(row * self.width <= row * self.width + col);
        }
        let o = 4 * (row * self.width + col);
        Rgba { r: self.data[o], g: self.data[o + 1], b: self.data[o + 2], a: self.data[o + 3] }
    }
}

/// The last byte of a texel inside a `w` by `h` raster lies inside its buffer.
pub proof fn lemma_texel_in_bounds(w: int, h: int, col: int, row: int)
    requires
        0 <= col < w,
        0 <= row < h,
    ensures
        0 <= row * w + col,
        4 * (row * w + col) + 3 < 4 * w * h,
{
    assert(row * w + col < w * h) by (nonlinear_arith)
        requires
            0 <= col < w,
            0 <= row < h,
    ;
    assert(0 <= row * w) by (nonlinear_arith)
        requires
            0 <= w,
            0 <= row,
    ;
    assert(4 * w * h == 4 * (w * h)) by (nonlinear_arith);
}

} // verus!
