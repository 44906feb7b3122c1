//! Pixel-exact in-plane rotation of face images by multiples of a quarter
//! turn, and the per-face turn applied when the cubemap is re-oriented for a
//! Z-up convention:
//!
//! | face   | turn             |
//! |--------|------------------|
//! | Top    | none             |
//! | Bottom | 180°             |
//! | Left   | 180°             |
//! | Right  | none             |
//! | Front  | 270° clockwise   |
//! | Back   | 90° clockwise    |
//!
//! No resampling takes place: every output pixel is a pixel of the input.

use vstd::prelude::*;
use crate::face::Side;
use crate::pixel::FaceImage;
use crate::pixel::Rgba8;
use crate::pixel::lemma_row_major_in_bounds;
use crate::pixel::row_major;

verus! {

/// Source column of the pixel that lands at (x, y) after `q` clockwise
/// quarter turns of a square of side `s`.
pub open spec fn rot_src_x(q: int, s: int, x: int, y: int) -> int {
    if q == 0 {
        x
    } else if q == 1 {
        y
    } else if q == 2 {
        s - 1 - x
    } else {
        s - 1 - y
    }
}

/// Source row of the pixel that lands at (x, y) after `q` clockwise quarter
/// turns of a square of side `s`.
pub open spec fn rot_src_y(q: int, s: int, x: int, y: int) -> int {
    if q == 0 {
        y
    } else if q == 1 {
        s - 1 - x
    } else if q == 2 {
        s - 1 - y
    } else {
        x
    }
}

/// `r` is `img` turned clockwise by `q` quarter turns: same tag, same side
/// length, and every pixel of `r` is the input pixel the turn carries onto it.
pub open spec fn is_quarter_rotation_of(r: FaceImage, img: FaceImage, q: int) -> bool {
    &&& r.side == img.side
    &&& r.size == img.size
    &&& forall|x: int, y: int|
        0 <= x < img.size && 0 <= y < img.size ==> r.pixel(x, y) == img.pixel(
            rot_src_x(q, img.size as int, x, y),
            rot_src_y(q, img.size as int, x, y),
        )
}

/// The number of clockwise quarter turns the Z-up re-orientation applies to
/// each face.
pub open spec fn quarters_spec(side: Side) -> int {
    match side {
        Side::Front => 3,
        Side::Back => 1,
        Side::Left => 2,
        Side::Right => 0,
        Side::Top => 0,
        Side::Bottom => 2,
    }
}

/// The quarter turn the Z-up re-orientation applies to `side`.
pub fn rotation_quarters(side: Side) -> (r: u32)
    ensures
        r as int == quarters_spec(side),
        r < 4,
{
    match side {
        Side::Front => 3,
        Side::Back => 1,
        Side::Left => 2,
        Side::Right => 0,
        Side::Top => 0,
        Side::Bottom => 2,
    }
}

/// Turn `img` clockwise by `q` quarter turns.
pub fn rotate_quarter(img: &FaceImage, q: u32) -> (r: FaceImage)
    requires
        img.wf(),
        q < 4,
    ensures
        r.wf(),
        is_quarter_rotation_of(r, *img, q as int),
{
    let size: u32 = img.size;
    let ghost s = size as int;
    let ghost qi = q as int;
    let mut data: Vec<Rgba8> = Vec::new();
    let mut y: u32 = 0;
    while y < size
        invariant
            img.wf(),
            size == img.size,
            q < 4,
            y <= size,
            data.len() == y as int * s,
            s == size as int,
            qi == q as int,
            forall|xx: int, yy: int|
                0 <= xx < s && 0 <= yy < y as int ==> data[row_major(xx, yy, s)] == img.pixel(
                    rot_src_x(qi, s, xx, yy),
                    rot_src_y(qi, s, xx, yy),
                ),
        decreases size as int - y as int,
    {
        let mut x: u32 = 0;
        while x < size
            invariant
                img.wf(),
                size == img.size,
                q < 4,
                y < size,
                x <= size,
                data.len() == y as int * s + x as int,
                s == size as int,
                qi == q as int,
                forall|xx: int, yy: int|
                    0 <= xx < s && (yy < y as int && 0 <= yy || yy == y as int && 0 <= xx
                        < x as int) ==> data[row_major(xx, yy, s)] == img.pixel(
                        rot_src_x(qi, s, xx, yy),
                        rot_src_y(qi, s, xx, yy),
                    ),
            decreases size as int - x as int,
        {
            let sx: u32;
            let sy: u32;
            if q == 0 {
                sx = x;
                sy = y;
            } else if q == 1 {
                sx = y;
                sy = size - 1 - x;
            } else if q == 2 {
                sx = size - 1 - x;
                sy = size - 1 - y;
            } else {
                sx = size - 1 - y;
                sy = x;
            }
            let p = img.get_pixel(sx, sy);
            let ghost pre = data@;
            data.push(p);
            proof {
                assert(data@ == pre.push(p));
                assert forall|xx: int, yy: int|
                    0 <= xx < s && (yy < y as int && 0 <= yy || yy == y as int && 0 <= xx < x as int
                        + 1) implies data[row_major(xx, yy, s)] == img.pixel(
                    rot_src_x(qi, s, xx, yy),
                    rot_src_y(qi, s, xx, yy),
                ) by {
                    if xx == x as int && yy == y as int {
                        assert(row_major(xx, yy, s) == y as int * s + x as int);
                        assert(data@[y as int * s + x as int] == p);
                        assert(sx as int == rot_src_x(qi, s, xx, yy));
                        assert(sy as int == rot_src_y(qi, s, xx, yy));
                    } else {
                        lemma_row_major_in_prefix(xx, yy, x as int, y as int, s);
                        assert(data@[row_major(xx, yy, s)] == pre[row_major(xx, yy, s)]);
                    }
                }
            }
            x = x + 1;
        }
        proof {
            assert((y as int + 1) * s == y as int * s + s) by (nonlinear_arith);
        }
        y = y + 1;
    }
    let r = FaceImage { side: img.side, size, data };
    proof {
        assert(r.data.len() == s * s);
        assert forall|x: int, y: int|
            0 <= x < img.size && 0 <= y < img.size implies r.pixel(x, y) == img.pixel(
            rot_src_x(qi, s, x, y),
            rot_src_y(qi, s, x, y),
        ) by {
            lemma_row_major_in_bounds(x, y, s);
        }
    }
    r
}

/// A coordinate pair that lies before (x, y) in row-major order has its
/// row-major index below `y * s + x`.
proof fn lemma_row_major_in_prefix(xx: int, yy: int, x: int, y: int, s: int)
    requires
        0 <= xx < s,
        0 <= x <= s,
        0 <= y,
        yy < y && 0 <= yy || yy == y && 0 <= xx < x,
    ensures
        0 <= row_major(xx, yy, s) < y * s + x,
{
    assert(0 <= yy * s + xx < y * s + x) by (nonlinear_arith)
        requires
            0 <= xx < s,
            0 <= x <= s,
            0 <= y,
            yy < y && 0 <= yy || yy == y && 0 <= xx < x,
    ;
}

/// Turn `img` by the quarter turn the Z-up re-orientation prescribes for its
/// own face tag.
pub fn rotate_face(img: &FaceImage) -> (r: FaceImage)
    requires
        img.wf(),
    ensures
        r.wf(),
        is_quarter_rotation_of(r, *img, quarters_spec(img.side)),
{
    let q = rotation_quarters(img.side);
    rotate_quarter(img, q)
}

/// Rotation does not alter a constant image: every pixel of the turned image
/// is a pixel of the input, so an image whose pixels all equal `c` turns into
/// an image whose pixels all equal `c`.
pub proof fn lemma_rotation_preserves_constant(img: FaceImage, r: FaceImage, q: int, c: Rgba8)
    requires
        0 <= q < 4,
        is_quarter_rotation_of(r, img, q),
        img.is_constant(c),
    ensures
        r.is_constant(c),
{
    assert forall|x: int, y: int| 0 <= x < r.size && 0 <= y < r.size implies r.pixel(x, y) == c by {
        assert(0 <= rot_src_x(q, img.size as int, x, y) < img.size);
        assert(0 <= rot_src_y(q, img.size as int, x, y) < img.size);
    }
}

/// A zero-quarter turn leaves the image identical, buffer and all: the Top
/// and Right faces come out of the Z-up re-orientation byte for byte as they
/// went in.
pub proof fn lemma_zero_rotation_identity(img: FaceImage, r: FaceImage)
    requires
        img.wf(),
        r.wf(),
        is_quarter_rotation_of(r, img, 0),
    ensures
        r.data@ == img.data@,
{
    let s = img.size as int;
    assert forall|i: int| 0 <= i < img.data@.len() implies r.data@[i] == img.data@[i] by {
        let x = i % s;
        let y = i / s;
        vstd::arithmetic::div_mod::lemma_fundamental_div_mod(i, s);
        vstd::arithmetic::div_mod::lemma_mod_bound(i, s);
        assert(0 <= y < s) by (nonlinear_arith)
            requires
                0 <= i < s * s,
                i == s * y + x,
                0 <= x < s,
        ;
        assert(row_major(x, y, s) == i) by (nonlinear_arith)
            requires
                i == s * y + x,
        ;
        assert(r.pixel(x, y) == img.pixel(x, y));
    }
    assert(r.data@ =~= img.data@);
}

/// Quarter-turn rotation is invertible pixel for pixel: turning by `q` and
/// then by the complementary `4 - q` turns restores every pixel, so the
/// re-orientation loses no image content.
pub proof fn lemma_rotation_round_trip(img: FaceImage, r: FaceImage, back: FaceImage, q: int)
    requires
        0 <= q < 4,
        is_quarter_rotation_of(r, img, q),
        is_quarter_rotation_of(back, r, (4 - q) % 4),
    ensures
        forall|x: int, y: int|
            0 <= x < img.size && 0 <= y < img.size ==> back.pixel(x, y) == img.pixel(x, y),
{
    let s = img.size as int;
    let p = (4 - q) % 4;
    assert forall|x: int, y: int|
        0 <= x < img.size && 0 <= y < img.size implies back.pixel(x, y) == img.pixel(x, y) by {
        let mx = rot_src_x(p, s, x, y);
        let my = rot_src_y(p, s, x, y);
        assert(0 <= mx < s && 0 <= my < s);
        assert(back.pixel(x, y) == r.pixel(mx, my));
        assert(r.pixel(mx, my) == img.pixel(rot_src_x(q, s, mx, my), rot_src_y(q, s, mx, my)));
        assert(rot_src_x(q, s, mx, my) == x && rot_src_y(q, s, mx, my) == y);
    }
}

} // verus!
