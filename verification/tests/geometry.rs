//! The face projector: the direction table, its bounds, and its behavior at
//! the face centers, the pole, and the corners.

use equicube::Side;
use equicube::scaled_direction;

const SIDES: [Side; 6] = [Side::Front, Side::Back, Side::Left, Side::Right, Side::Top, Side::Bottom];

/// Divide the scaled direction by 2*size and normalize, as the pipeline does.
fn to_unit(d: (i64, i64, i64), size: u32) -> (f32, f32, f32) {
    let s = 2.0 * size as f32;
    let x = d.0 as f32 / s;
    let y = d.1 as f32 / s;
    let z = d.2 as f32 / s;
    let len = (x * x + y * y + z * z).sqrt();
    (x / len, y / len, z / len)
}

#[test]
fn direction_table_front() {
    // size 4: a = 2x - 4, b = 2y - 4, scaled by 8
    assert_eq!(scaled_direction(Side::Front, 0, 0, 4), (4, -4, -4));
    assert_eq!(scaled_direction(Side::Front, 3, 1, 4), (4, 2, -2));
}

#[test]
fn direction_table_all_faces() {
    // x = 1, y = 3, size = 4: a = -2, b = 2
    assert_eq!(scaled_direction(Side::Front, 1, 3, 4), (4, -2, 2));
    assert_eq!(scaled_direction(Side::Back, 1, 3, 4), (-4, 2, 2));
    assert_eq!(scaled_direction(Side::Left, 1, 3, 4), (2, 4, 2));
    assert_eq!(scaled_direction(Side::Right, 1, 3, 4), (-2, -4, 2));
    assert_eq!(scaled_direction(Side::Top, 1, 3, 4), (-2, -2, -4));
    assert_eq!(scaled_direction(Side::Bottom, 1, 3, 4), (-2, 2, 4));
}

#[test]
fn direction_components_bounded_and_unit_after_normalizing() {
    let size = 5u32;
    for &side in SIDES.iter() {
        for x in 0..size {
            for y in 0..size {
                let d = scaled_direction(side, x, y, size);
                // components of D lie in [-1/2, 1/2], scaled by 2*size
                assert!(-(size as i64) <= d.0 && d.0 <= size as i64);
                assert!(-(size as i64) <= d.1 && d.1 <= size as i64);
                assert!(-(size as i64) <= d.2 && d.2 <= size as i64);
                let (ux, uy, uz) = to_unit(d, size);
                let len = (ux * ux + uy * uy + uz * uz).sqrt();
                assert!((len - 1.0).abs() <= 1e-5);
            }
        }
    }
}

#[test]
fn front_center_looks_straight_ahead() {
    // the center of the Front face looks along +X, which lands at UV (0.5, 0.5)
    let d = scaled_direction(Side::Front, 2, 2, 4);
    assert_eq!(d, (4, 0, 0));
    let (ux, uy, uz) = to_unit(d, 4);
    assert_eq!((ux, uy, uz), (1.0, 0.0, 0.0));
    let theta = uy.atan2(ux);
    let phi = uz.asin();
    let u = theta / (2.0 * std::f32::consts::PI) + 0.5;
    let v = phi / std::f32::consts::PI + 0.5;
    assert_eq!((u, v), (0.5, 0.5));
}

#[test]
fn top_center_looks_at_the_pole() {
    // the center of the Top face looks along -Z: phi = -pi/2, v = 0
    let d = scaled_direction(Side::Top, 2, 2, 4);
    assert_eq!(d, (0, 0, -4));
    let (ux, uy, uz) = to_unit(d, 4);
    assert_eq!((ux, uy, uz), (0.0, 0.0, -1.0));
    let phi = uz.asin();
    assert_eq!(phi, -std::f32::consts::FRAC_PI_2);
    let v = phi / std::f32::consts::PI + 0.5;
    assert_eq!(v, 0.0);
}

#[test]
fn corners_map_to_valid_unit_vectors() {
    let size = 7u32;
    for &side in SIDES.iter() {
        for &(x, y) in [(0, 0), (0, size - 1), (size - 1, 0), (size - 1, size - 1)].iter() {
            let d = scaled_direction(side, x, y, size);
            assert!(d != (0, 0, 0));
            let (ux, uy, uz) = to_unit(d, size);
            assert!(!ux.is_nan() && !uy.is_nan() && !uz.is_nan());
            let len = (ux * ux + uy * uy + uz * uz).sqrt();
            assert!((len - 1.0).abs() <= 1e-5);
        }
    }
}
