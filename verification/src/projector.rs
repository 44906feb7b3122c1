//! The face projector: for a face and an output pixel (x, y) on a face of
//! side `size`, the 3D direction the pixel looks along.
//!
//! With `a = x/size - 1/2` and `b = y/size - 1/2`, the direction is
//!
//! | face   | direction          |
//! |--------|--------------------|
//! | Front  | ( 1/2,  a,    b)   |
//! | Back   | (-1/2, -a,    b)   |
//! | Left   | (-a,    1/2,  b)   |
//! | Right  | ( a,   -1/2,  b)   |
//! | Top    | ( a,   -b,   -1/2) |
//! | Bottom | ( a,    b,    1/2) |
//!
//! The direction is only ever used up to positive scale (it is normalized
//! before the spherical angles are taken), so this module computes it exactly,
//! scaled by `2 * size`: each component is an integer, `a` becomes
//! `2*x - size` and `1/2` becomes `size`.

use vstd::prelude::*;
use crate::face::Side;

verus! {

/// `a = x/size - 1/2`, scaled by `2 * size`.
pub open spec fn scaled_half_offset(x: int, size: int) -> int {
    2 * x - size
}

/// The §4.4 direction of pixel (x, y) on `side`, scaled by `2 * size`.
pub open spec fn scaled_direction_spec(side: Side, x: int, y: int, size: int) -> (int, int, int) {
    let a = scaled_half_offset(x, size);
    let b = scaled_half_offset(y, size);
    match side {
        Side::Front => (size, a, b),
        Side::Back => (-size, -a, b),
        Side::Left => (-a, size, b),
        Side::Right => (a, -size, b),
        Side::Top => (a, -b, -size),
        Side::Bottom => (a, b, size),
    }
}

/// The direction pixel (x, y) of `side` looks along, scaled by `2 * size`.
/// Dividing the components by `2 * size` (as the caller does, in floating
/// point, before normalizing) yields exactly the table above.
pub fn scaled_direction(side: Side, x: u32, y: u32, size: u32) -> (r: (i64, i64, i64))
    requires
        0 < size,
        x < size,
        y < size,
    ensures
        (r.0 as int, r.1 as int, r.2 as int) == scaled_direction_spec(
            side,
            x as int,
            y as int,
            size as int,
        ),
{
    let a: i64 = 2 * (x as i64) - (size as i64);
    let b: i64 = 2 * (y as i64) - (size as i64);
    let s: i64 = size as i64;
    match side {
        Side::Front => (s, a, b),
        Side::Back => (-s, -a, b),
        Side::Left => (-a, s, b),
        Side::Right => (a, -s, b),
        Side::Top => (a, -b, -s),
        Side::Bottom => (a, b, s),
    }
}

/// Every component of the scaled direction lies in `[-size, size]`: before
/// scaling, every component of the direction lies in `[-1/2, +1/2]`.
pub proof fn lemma_direction_bounded(side: Side, x: int, y: int, size: int)
    requires
        0 < size,
        0 <= x < size,
        0 <= y < size,
    ensures
        -size <= scaled_direction_spec(side, x, y, size).0 <= size,
        -size <= scaled_direction_spec(side, x, y, size).1 <= size,
        -size <= scaled_direction_spec(side, x, y, size).2 <= size,
{
}

/// Some component of a direction equals the half-edge `size` (before scaling,
/// 1/2) in magnitude.
pub open spec fn has_half_edge_component(d: (int, int, int), size: int) -> bool {
    ||| d.0 == size
    ||| d.0 == -size
    ||| d.1 == size
    ||| d.1 == -size
    ||| d.2 == size
    ||| d.2 == -size
}

/// One component of the scaled direction is `size` or `-size` in magnitude,
/// whichever the face: the direction is never the zero vector, so normalizing
/// it is well defined for every pixel of every face, corners included.
pub proof fn lemma_direction_nonzero(side: Side, x: int, y: int, size: int)
    requires
        0 < size,
        0 <= x < size,
        0 <= y < size,
    ensures
        has_half_edge_component(scaled_direction_spec(side, x, y, size), size),
        !(scaled_direction_spec(side, x, y, size).0 == 0 && scaled_direction_spec(
            side,
            x,
            y,
            size,
        ).1 == 0 && scaled_direction_spec(side, x, y, size).2 == 0),
{
}

/// At the center pixel of the Front face (an even `size`, `x = y = size/2`),
/// the direction is exactly `(1/2, 0, 0)`: straight along +X, which the
/// equirectangular parameterization places at UV = (1/2, 1/2).
pub proof fn lemma_front_center(size: int)
    requires
        0 < size,
        size % 2 == 0,
    ensures
        scaled_direction_spec(Side::Front, size / 2, size / 2, size) == (size, 0int, 0int),
{
}

/// At the center pixel of the Top face, the direction is exactly
/// `(0, 0, -1/2)`: the downward pole axis, whose polar angle is -π/2 and
/// whose V coordinate is 0, the source's top row.
pub proof fn lemma_top_center(size: int)
    requires
        0 < size,
        size % 2 == 0,
    ensures
        scaled_direction_spec(Side::Top, size / 2, size / 2, size) == (0int, 0int, -size),
{
}

} // verus!
