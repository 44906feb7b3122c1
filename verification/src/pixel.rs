//! Pixels and face images: the 8-bit RGBA quadruple that the pipeline
//! exchanges, and the square face buffer it fills, with its row-major layout
//! stated exactly.

use vstd::prelude::*;
use crate::face::Side;

verus! {

/// One 8-bit RGBA pixel, the internal exchange format of the pipeline.
#[derive(Clone, Copy, Debug, PartialEq, Eq, Structural)]
pub struct Rgba8 {
    pub r: u8,
    pub g: u8,
    pub b: u8,
    pub a: u8,
}

impl Rgba8 {
    /// The fallback pixel written when a sample misses: opaque black.
    pub fn miss() -> (r: Rgba8)
        ensures
            r == (Rgba8 { r: 0, g: 0, b: 0, a: 255 }),
    {
        Rgba8 { r: 0, g: 0, b: 0, a: 255 }
    }
}

/// A square 8-bit RGBA image of side length `size`, tagged with the cubemap
/// face it belongs to. Pixels are stored row-major: the pixel at column `x`
/// and row `y` sits at index `y * size + x`.
pub struct FaceImage {
    pub side: Side,
    pub size: u32,
    pub data: Vec<Rgba8>,
}

/// Row-major index of the pixel at column `x`, row `y` in a square of side `s`.
pub open spec fn row_major(x: int, y: int, s: int) -> int {
    y * s + x
}

/// The row-major index of an in-bounds coordinate pair lies within the square.
pub proof fn lemma_row_major_in_bounds(x: int, y: int, s: int)
    requires
        0 <= x < s,
        0 <= y < s,
    ensures
        0 <= row_major(x, y, s) < s * s,
{
    assert(0 <= y * s + x < s * s) by (nonlinear_arith)
        requires
            0 <= x < s,
            0 <= y < s,
    ;
}

/// Distinct in-bounds coordinate pairs have distinct row-major indices.
pub proof fn lemma_row_major_injective(x1: int, y1: int, x2: int, y2: int, s: int)
    requires
        0 <= x1 < s,
        0 <= y1 < s,
        0 <= x2 < s,
        0 <= y2 < s,
        !(x1 == x2 && y1 == y2),
    ensures
        row_major(x1, y1, s) != row_major(x2, y2, s),
{
    assert(y1 * s + x1 != y2 * s + x2) by (nonlinear_arith)
        requires
            0 <= x1 < s,
            0 <= y1 < s,
            0 <= x2 < s,
            0 <= y2 < s,
            !(x1 == x2 && y1 == y2),
    ;
}

impl FaceImage {
    /// The buffer holds exactly one pixel per coordinate of the square, and
    /// the square is small enough that every index fits the machine.
    pub open spec fn wf(self) -> bool {
        &&& self.data.len() == self.size as int * self.size as int
        &&& self.size as int * self.size as int <= u32::MAX as int
    }

    /// The pixel at column `x`, row `y`.
    pub open spec fn pixel(self, x: int, y: int) -> Rgba8 {
        self.data[row_major(x, y, self.size as int)]
    }

    /// Every pixel of the image equals `c`.
    pub open spec fn is_constant(self, c: Rgba8) -> bool {
        forall|x: int, y: int|
            0 <= x < self.size && 0 <= y < self.size ==> self.pixel(x, y) == c
    }

    /// A blank face: every pixel is fully transparent black, as a freshly
    /// allocated face buffer starts out.
    pub fn new_blank(side: Side, size: u32) -> (r: FaceImage)
        requires
            size as int * size as int <= u32::MAX as int,
        ensures
            r.wf(),
            r.side == side,
            r.size == size,
            r.is_constant(Rgba8 { r: 0, g: 0, b: 0, a: 0 }),
    {
        let total: u32 = size * size;
        let mut data: Vec<Rgba8> = Vec::new();
        let mut i: u32 = 0;
        while i < total
            invariant
                i <= total,
                data.len() == i as int,
                forall|j: int|
                    0 <= j < i as int ==> data[j] == (Rgba8 { r: 0, g: 0, b: 0, a: 0 }),
            decreases total as int - i as int,
        {
            data.push(Rgba8 { r: 0, g: 0, b: 0, a: 0 });
            i = i + 1;
        }
        let r = FaceImage { side, size, data };
        proof {
            assert forall|x: int, y: int|
                0 <= x < r.size && 0 <= y < r.size implies r.pixel(x, y) == (Rgba8 {
                r: 0,
                g: 0,
                b: 0,
                a: 0,
            }) by {
                lemma_row_major_in_bounds(x, y, r.size as int);
            }
        }
        r
    }

    /// Read the pixel at column `x`, row `y`.
    pub fn get_pixel(&self, x: u32, y: u32) -> (r: Rgba8)
        requires
            self.wf(),
            x < self.size,
            y < self.size,
        ensures
            r == self.pixel(x as int, y as int),
    {
        proof {
            lemma_row_major_in_bounds(x as int, y as int, self.size as int);
        }
        let idx: usize = (y as usize) * (self.size as usize) + (x as usize);
        self.data[idx]
    }

    /// Write the pixel at column `x`, row `y`, leaving every other pixel, the
    /// tag and the side length unchanged.
    pub fn set_pixel(&mut self, x: u32, y: u32, p: Rgba8)
        requires
            old(self).wf(),
            x < old(self).size,
            y < old(self).size,
        ensures
            final(self).wf(),
            final(self).side == old(self).side,
            final(self).size == old(self).size,
            final(self).data@ == old(self).data@.update(
                row_major(x as int, y as int, old(self).size as int),
                p,
            ),
            final(self).pixel(x as int, y as int) == p,
            forall|x2: int, y2: int|
                0 <= x2 < old(self).size && 0 <= y2 < old(self).size && !(x2 == x as int && y2
                    == y as int) ==> final(self).pixel(x2, y2) == old(self).pixel(x2, y2),
    {
        proof {
            lemma_row_major_in_bounds(x as int, y as int, self.size as int);
        }
        let idx: usize = (y as usize) * (self.size as usize) + (x as usize);
        self.data.set(idx, p);
        proof {
            assert forall|x2: int, y2: int|
                0 <= x2 < self.size && 0 <= y2 < self.size && !(x2 == x as int && y2
                    == y as int) implies self.pixel(x2, y2) == old(self).pixel(x2, y2) by {
                lemma_row_major_in_bounds(x2, y2, self.size as int);
                lemma_row_major_injective(x2, y2, x as int, y as int, self.size as int);
            }
        }
    }

    /// The face's pixels as bytes in RGBA order, row-major: the layout handed
    /// to a PNG or WebP encoder.
    pub fn to_rgba_bytes(&self) -> (r: Vec<u8>)
        requires
            self.wf(),
        ensures
            r@.len() == 4 * self.data@.len(),
            forall|i: int|
                0 <= i < self.data@.len() ==> {
                    &&& r@[4 * i] == self.data@[i].r
                    &&& r@[4 * i + 1] == self.data@[i].g
                    &&& r@[4 * i + 2] == self.data@[i].b
                    &&& r@[4 * i + 3] == self.data@[i].a
                },
    {
        let mut out: Vec<u8> = Vec::new();
        let n: usize = self.data.len();
        let mut i: usize = 0;
        while i < n
            invariant
                i <= n,
                n == self.data@.len(),
                self.wf(),
                out@.len() == 4 * i as int,
                forall|j: int|
                    0 <= j < i as int ==> {
                        &&& out@[4 * j] == self.data@[j].r
                        &&& out@[4 * j + 1] == self.data@[j].g
                        &&& out@[4 * j + 2] == self.data@[j].b
                        &&& out@[4 * j + 3] == self.data@[j].a
                    },
            decreases n - i,
        {
            let p = self.data[i];
            out.push(p.r);
            out.push(p.g);
            out.push(p.b);
            out.push(p.a);
            i = i + 1;
        }
        out
    }

    /// The face's pixels as bytes in RGB order, row-major, alpha dropped: the
    /// layout handed to a JPEG encoder.
    pub fn to_rgb_bytes(&self) -> (r: Vec<u8>)
        requires
            self.wf(),
        ensures
            r@.len() == 3 * self.data@.len(),
            forall|i: int|
                0 <= i < self.data@.len() ==> {
                    &&& r@[3 * i] == self.data@[i].r
                    &&& r@[3 * i + 1] == self.data@[i].g
                    &&& r@[3 * i + 2] == self.data@[i].b
                },
    {
        let mut out: Vec<u8> = Vec::new();
        let n: usize = self.data.len();
        let mut i: usize = 0;
        while i < n
            invariant
                i <= n,
                n == self.data@.len(),
                self.wf(),
                out@.len() == 3 * i as int,
                forall|j: int|
                    0 <= j < i as int ==> {
                        &&& out@[3 * j] == self.data@[j].r
                        &&& out@[3 * j + 1] == self.data@[j].g
                        &&& out@[3 * j + 2] == self.data@[j].b
                    },
            decreases n - i,
        {
            let p = self.data[i];
            out.push(p.r);
            out.push(p.g);
            out.push(p.b);
            i = i + 1;
        }
        out
    }
}

} // verus!
