//! Angle sanitization, rotation direction, interpolation and the 3x3 matrix
//! product used by the color-space conversions. Angles are degrees in Q32.32
//! fixed point unless a function says otherwise.
use vstd::prelude::*;

use crate::fixed::{
    fx_add, fx_mul, fx_ok, fx_sub, s_abs, spec_fx_add, spec_fx_mul, spec_fx_sub, FX_MAX,
    FX_ONE,
};

verus! {

/// 360 degrees in fixed point.
pub const FX_DEG_360: i64 = 360 * 0x1_0000_0000;

/// 180 degrees in fixed point.
pub const FX_DEG_180: i64 = 180 * 0x1_0000_0000;

/// Linear interpolation: `start` at amount 0, `stop` at amount 1.
pub open spec fn spec_lerp(start: int, stop: int, amount: int) -> int {
    spec_fx_add(
        spec_fx_mul(spec_fx_sub(FX_ONE as int, amount), start),
        spec_fx_mul(amount, stop),
    )
}

/// Linear interpolation between two fixed-point values.
pub fn lerp(start: i64, stop: i64, amount: i64) -> (r: i64)
    requires
        fx_ok(start),
        fx_ok(stop),
        fx_ok(amount),
    ensures
        fx_ok(r),
        r == spec_lerp(start as int, stop as int, amount as int),
{
    fx_add(fx_mul(fx_sub(FX_ONE, amount), start), fx_mul(amount, stop))
}

/// A degree measure wrapped into [0, 360), as a Euclidean remainder.
pub open spec fn spec_sanitize_degrees_int(degrees: int) -> int {
    degrees % 360
}

/// Wraps an integer degree measure into [0, 360).
pub fn sanitize_degrees_int(degrees: i32) -> (r: u32)
    ensures
        r < 360,
        r == spec_sanitize_degrees_int(degrees as int),
{
    if degrees >= 0 {
        (degrees as u32) % 360
    } else {
        let neg: u64 = (-(degrees as i64)) as u64;
        let m: u64 = neg % 360;
        let r: u64 = if m == 0 {
            0
        } else {
            360 - m
        };
        proof {
            vstd::arithmetic::div_mod::lemma_fundamental_div_mod(neg as int, 360);
            if m == 0 {
                vstd::arithmetic::div_mod::lemma_fundamental_div_mod_converse(
                    degrees as int,
                    360,
                    -((neg as int) / 360),
                    0,
                );
            } else {
                vstd::arithmetic::div_mod::lemma_fundamental_div_mod_converse(
                    degrees as int,
                    360,
                    -((neg as int) / 360) - 1,
                    360 - (m as int),
                );
            }
        }
        r as u32
    }
}

/// A fixed-point degree measure wrapped into [0, 360), as a Euclidean
/// remainder.
pub open spec fn spec_sanitize_degrees(degrees: int) -> int {
    degrees % (FX_DEG_360 as int)
}

/// Wraps a fixed-point degree measure into [0, 360).
pub fn sanitize_degrees_double(degrees: i64) -> (r: i64)
    requires
        fx_ok(degrees),
    ensures
        fx_ok(r),
        0 <= r < FX_DEG_360,
        r == spec_sanitize_degrees(degrees as int),
{
    if degrees >= 0 {
        ((degrees as u64) % (FX_DEG_360 as u64)) as i64
    } else {
        let neg: u64 = (-degrees) as u64;
        let m: u64 = neg % (FX_DEG_360 as u64);
        let r: u64 = if m == 0 {
            0
        } else {
            (FX_DEG_360 as u64) - m
        };
        proof {
            vstd::arithmetic::div_mod::lemma_fundamental_div_mod(neg as int, FX_DEG_360 as int);
            if m == 0 {
                vstd::arithmetic::div_mod::lemma_fundamental_div_mod_converse(
                    degrees as int,
                    FX_DEG_360 as int,
                    -((neg as int) / (FX_DEG_360 as int)),
                    0,
                );
            } else {
                vstd::arithmetic::div_mod::lemma_fundamental_div_mod_converse(
                    degrees as int,
                    FX_DEG_360 as int,
                    -((neg as int) / (FX_DEG_360 as int)) - 1,
                    (FX_DEG_360 as int) - (m as int),
                );
            }
        }
        r as i64
    }
}

/// Angular distance of two degree positions on a circle, at most 180; the
/// difference saturates like every fixed-point subtraction.
pub open spec fn spec_difference_degrees(a: int, b: int) -> int {
    spec_fx_sub(FX_DEG_180 as int, s_abs(s_abs(a - b) - FX_DEG_180 as int))
}

/// Distance of two points on a circle, in fixed-point degrees.
pub fn difference_degrees(a: i64, b: i64) -> (r: i64)
    requires
        fx_ok(a),
        fx_ok(b),
    ensures
        fx_ok(r),
        r == spec_difference_degrees(a as int, b as int),
        0 <= a < FX_DEG_360 && 0 <= b < FX_DEG_360 ==> 0 <= r <= FX_DEG_180,
{
    let d: i64 = a - b;
    let m1: i64 = if d < 0 {
        -d
    } else {
        d
    };
    let e: i64 = m1 - FX_DEG_180;
    let m2: i64 = if e < 0 {
        -e
    } else {
        e
    };
    let s: i64 = FX_DEG_180 - m2;
    if s > FX_MAX {
        FX_MAX
    } else if s < -FX_MAX {
        -FX_MAX
    } else {
        s
    }
}

/// Sign of the shorter rotation from one degree position to another: one unit
/// when increasing the angle is shortest, minus one unit otherwise.
pub open spec fn spec_rotation_direction(from: int, to: int) -> int {
    if spec_sanitize_degrees(spec_fx_sub(to, from)) <= FX_DEG_180 as int {
        FX_ONE as int
    } else {
        -(FX_ONE as int)
    }
}

/// Direction of the shorter rotation between two degree positions.
pub fn rotation_direction(from: i64, to: i64) -> (r: i64)
    requires
        fx_ok(from),
        fx_ok(to),
    ensures
        fx_ok(r),
        r == spec_rotation_direction(from as int, to as int),
        r == FX_ONE || r == -FX_ONE,
{
    let inc: i64 = sanitize_degrees_double(fx_sub(to, from));
    if inc <= FX_DEG_180 {
        FX_ONE
    } else {
        -FX_ONE
    }
}

/// One entry of the product of a row vector and a 3x3 matrix.
pub open spec fn spec_row_dot(r0: int, r1: int, r2: int, m0: int, m1: int, m2: int) -> int {
    spec_fx_add(spec_fx_add(spec_fx_mul(r0, m0), spec_fx_mul(r1, m1)), spec_fx_mul(r2, m2))
}

/// Every element of a 3-vector is an in-range fixed-point value.
pub open spec fn row_ok(row: [i64; 3]) -> bool {
    fx_ok(row[0]) && fx_ok(row[1]) && fx_ok(row[2])
}

/// Every element of a 3x3 matrix is an in-range fixed-point value.
pub open spec fn matrix_ok(m: [[i64; 3]; 3]) -> bool {
    row_ok(m[0]) && row_ok(m[1]) && row_ok(m[2])
}

/// Product of a row vector and a 3x3 matrix, one dot product per output row.
pub open spec fn spec_matrix_multiply(row: [i64; 3], m: [[i64; 3]; 3]) -> (int, int, int) {
    (
        spec_row_dot(
            row[0] as int,
            row[1] as int,
            row[2] as int,
            m[0][0] as int,
            m[0][1] as int,
            m[0][2] as int,
        ),
        spec_row_dot(
            row[0] as int,
            row[1] as int,
            row[2] as int,
            m[1][0] as int,
            m[1][1] as int,
            m[1][2] as int,
        ),
        spec_row_dot(
            row[0] as int,
            row[1] as int,
            row[2] as int,
            m[2][0] as int,
            m[2][1] as int,
            m[2][2] as int,
        ),
    )
}

/// Multiplies a row vector by a 3x3 matrix.
pub fn matrix_multiply(row: [i64; 3], matrix: [[i64; 3]; 3]) -> (r: [i64; 3])
    requires
        row_ok(row),
        matrix_ok(matrix),
    ensures
        row_ok(r),
        (r[0] as int, r[1] as int, r[2] as int) == spec_matrix_multiply(row, matrix),
{
    let a: i64 = fx_add(
        fx_add(fx_mul(row[0], matrix[0][0]), fx_mul(row[1], matrix[0][1])),
        fx_mul(row[2], matrix[0][2]),
    );
    let b: i64 = fx_add(
        fx_add(fx_mul(row[0], matrix[1][0]), fx_mul(row[1], matrix[1][1])),
        fx_mul(row[2], matrix[1][2]),
    );
    let c: i64 = fx_add(
        fx_add(fx_mul(row[0], matrix[2][0]), fx_mul(row[1], matrix[2][1])),
        fx_mul(row[2], matrix[2][2]),
    );
    [a, b, c]
}

} // verus!
