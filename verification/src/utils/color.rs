//! Color-space conversions on 8-bit ARGB colors: the sRGB transfer function,
//! XYZ, L*a*b* and the L* lightness scale, all in Q32.32 fixed point.
use vstd::prelude::*;

use crate::fixed::{
    fx_add, fx_div, fx_mul, fx_muli, fx_ok, fx_pow, fx_sub, spec_fx_add, spec_fx_div, spec_fx_mul,
    spec_fx_muli, spec_fx_pow, spec_fx_sub, FX_ONE,
};
use crate::utils::math::spec_row_dot;

verus! {

pub const FX_SRGB2XYZ_00: i64 = 1770982305;

pub const FX_SRGB2XYZ_01: i64 = 1535968953;

pub const FX_SRGB2XYZ_02: i64 = 775286350;

pub const FX_SRGB2XYZ_10: i64 = 913110047;

pub const FX_SRGB2XYZ_11: i64 = 3071760610;

pub const FX_SRGB2XYZ_12: i64 = 310096639;

pub const FX_SRGB2XYZ_20: i64 = 82984824;

pub const FX_SRGB2XYZ_21: i64 = 511804710;

pub const FX_SRGB2XYZ_22: i64 = 4081699750;

pub const FX_XYZ2SRGB_00: i64 = 13921610267;

pub const FX_XYZ2SRGB_01: i64 = -6604221919;

pub const FX_XYZ2SRGB_02: i64 = -2142560192;

pub const FX_XYZ2SRGB_10: i64 = -4162447159;

pub const FX_XYZ2SRGB_11: i64 = 8056866208;

pub const FX_XYZ2SRGB_12: i64 = 178523993;

pub const FX_XYZ2SRGB_20: i64 = 238890105;

pub const FX_XYZ2SRGB_21: i64 = -875981110;

pub const FX_XYZ2SRGB_22: i64 = 4540553144;

/// X coordinate of the D65 white point.
pub const FX_WP_X: i64 = 408223756583;

/// Y coordinate of the D65 white point.
pub const FX_WP_Y: i64 = 429496729600;

/// Z coordinate of the D65 white point.
pub const FX_WP_Z: i64 = 467648924090;

pub const FX_100: i64 = 429496729600;

pub const FX_255: i64 = 1095216660480;

pub const FX_LIN_CUT: i64 = 173731152;

pub const FX_DELIN_CUT: i64 = 13446684;

pub const FX_12_92: i64 = 55490977464;

pub const FX_0_055: i64 = 236223201;

pub const FX_1_055: i64 = 4531190497;

pub const FX_2_4: i64 = 10307921510;

pub const FX_3: i64 = 12884901888;

pub const FX_16: i64 = 68719476736;

pub const FX_116: i64 = 498216206336;

pub const FX_500: i64 = 2147483648000;

pub const FX_200: i64 = 858993459200;

/// The L*a*b* constant 216/24389 in fixed point.
pub const FX_E_LAB: i64 = 38038170;

/// The L*a*b* constant 24389/27 in fixed point.
pub const FX_KAPPA: i64 = 3879628051190;

/// One half in fixed point, the rounding offset.
pub const FX_HALF: i64 = 2147483648;

/// Converts a color from RGB components to ARGB format with a fully opaque
/// alpha channel.
pub fn argb_from_rgb(rgb: [u8; 3]) -> (r: [u8; 4])
    ensures
        r[0] == 255,
        r[1] == rgb[0],
        r[2] == rgb[1],
        r[3] == rgb[2],
{
    [255, rgb[0], rgb[1], rgb[2]]
}

/// Returns the alpha component of a color in ARGB format.
pub fn alpha_from_argb(argb: [u8; 4]) -> (r: u8)
    ensures
        r == argb[0],
{
    argb[0]
}

/// Returns the red component of a color in ARGB format.
pub fn red_from_argb(argb: [u8; 4]) -> (r: u8)
    ensures
        r == argb[1],
{
    argb[1]
}

/// Returns the green component of a color in ARGB format.
pub fn green_from_argb(argb: [u8; 4]) -> (r: u8)
    ensures
        r == argb[2],
{
    argb[2]
}

/// Returns the blue component of a color in ARGB format.
pub fn blue_from_argb(argb: [u8; 4]) -> (r: u8)
    ensures
        r == argb[3],
{
    argb[3]
}

/// Returns whether a color in ARGB format is opaque: the alpha channel is at
/// its maximum.
pub fn is_opaque(argb: [u8; 4]) -> (r: bool)
    ensures
        r == (argb[0] == 255),
{
    argb[0] == 255
}

/// The sRGB transfer function: an 8-bit channel mapped to linear light in
/// [0, 100].
pub open spec fn spec_linearized(comp: int) -> int {
    let normalized = spec_fx_div(spec_fx_muli(FX_ONE as int, comp), FX_255 as int);
    if normalized <= FX_LIN_CUT as int {
        spec_fx_mul(spec_fx_div(normalized, FX_12_92 as int), FX_100 as int)
    } else {
        spec_fx_mul(
            spec_fx_pow(
                spec_fx_div(spec_fx_add(normalized, FX_0_055 as int), FX_1_055 as int),
                FX_2_4 as int,
            ),
            FX_100 as int,
        )
    }
}

/// Linearizes an RGB component into fixed-point linear light in [0, 100].
pub fn linearized(rgb_comp: u8) -> (r: i64)
    ensures
        fx_ok(r),
        r == spec_linearized(rgb_comp as int),
{
    let normalized: i64 = fx_div(fx_muli(FX_ONE, rgb_comp as i64), FX_255);
    if normalized <= FX_LIN_CUT {
        fx_mul(fx_div(normalized, FX_12_92), FX_100)
    } else {
        fx_mul(fx_pow(fx_div(fx_add(normalized, FX_0_055), FX_1_055), FX_2_4), FX_100)
    }
}

/// The inverse sRGB transfer function, continuous: linear light in [0, 100]
/// mapped to an unclamped channel value scaled to [0, 255].
pub open spec fn spec_delin_cont(v: int) -> int {
    let normalized = spec_fx_div(v, FX_100 as int);
    let d = if normalized <= FX_DELIN_CUT as int {
        spec_fx_mul(normalized, FX_12_92 as int)
    } else {
        spec_fx_sub(
            spec_fx_mul(
                FX_1_055 as int,
                spec_fx_pow(normalized, spec_fx_div(FX_ONE as int, FX_2_4 as int)),
            ),
            FX_0_055 as int,
        )
    };
    spec_fx_mul(d, FX_255 as int)
}

/// Delinearizes a channel without rounding: the continuous value scaled to
/// [0, 255].
pub fn delin_cont(v: i64) -> (r: i64)
    requires
        fx_ok(v),
    ensures
        fx_ok(r),
        r == spec_delin_cont(v as int),
{
    let normalized: i64 = fx_div(v, FX_100);
    let d: i64 = if normalized <= FX_DELIN_CUT {
        fx_mul(normalized, FX_12_92)
    } else {
        fx_sub(fx_mul(FX_1_055, fx_pow(normalized, fx_div(FX_ONE, FX_2_4))), FX_0_055)
    };
    fx_mul(d, FX_255)
}

/// Round a fixed-point channel value half-up and clamp it into [0, 255].
pub open spec fn spec_round_to_u8(t: int) -> int {
    if t < 0 {
        0
    } else {
        let v = (t + FX_HALF as int) / (FX_ONE as int);
        if v > 255 {
            255
        } else {
            v
        }
    }
}

/// Rounds a fixed-point channel value to an 8-bit channel.
pub fn round_to_u8(t: i64) -> (r: u8)
    requires
        fx_ok(t),
    ensures
        r == spec_round_to_u8(t as int),
{
    if t < 0 {
        0
    } else {
        let v: u64 = ((t as u64) + (FX_HALF as u64)) / (FX_ONE as u64);
        if v > 255 {
            255
        } else {
            v as u8
        }
    }
}

/// Delinearization with rounding: linear light to an 8-bit channel.
pub open spec fn spec_delinearized(v: int) -> int {
    spec_round_to_u8(spec_delin_cont(v))
}

/// Delinearizes a linear-light value into a regular 8-bit RGB channel.
pub fn delinearized(rgb_comp: i64) -> (r: u8)
    requires
        fx_ok(rgb_comp),
    ensures
        r == spec_delinearized(rgb_comp as int),
{
    round_to_u8(delin_cont(rgb_comp))
}

/// ARGB color assembled by delinearizing three linear-light components.
pub open spec fn spec_argb_from_linrgb(r: int, g: int, b: int) -> (int, int, int) {
    (spec_delinearized(r), spec_delinearized(g), spec_delinearized(b))
}

/// Converts a color from linear RGB components to ARGB format.
pub fn argb_from_linrgb(linrgb: [i64; 3]) -> (r: [u8; 4])
    requires
        fx_ok(linrgb[0]),
        fx_ok(linrgb[1]),
        fx_ok(linrgb[2]),
    ensures
        r[0] == 255,
        (r[1] as int, r[2] as int, r[3] as int) == spec_argb_from_linrgb(
            linrgb[0] as int,
            linrgb[1] as int,
            linrgb[2] as int,
        ),
{
    let rr: u8 = delinearized(linrgb[0]);
    let g: u8 = delinearized(linrgb[1]);
    let b: u8 = delinearized(linrgb[2]);
    argb_from_rgb([rr, g, b])
}

/// XYZ coordinates of an ARGB color: linearize each channel, then apply the
/// sRGB-to-XYZ matrix.
pub open spec fn spec_xyz_from_argb(r: int, g: int, b: int) -> (int, int, int) {
    let lr = spec_linearized(r);
    let lg = spec_linearized(g);
    let lb = spec_linearized(b);
    (
        spec_row_dot(
            lr,
            lg,
            lb,
            FX_SRGB2XYZ_00 as int,
            FX_SRGB2XYZ_01 as int,
            FX_SRGB2XYZ_02 as int,
        ),
        spec_row_dot(
            lr,
            lg,
            lb,
            FX_SRGB2XYZ_10 as int,
            FX_SRGB2XYZ_11 as int,
            FX_SRGB2XYZ_12 as int,
        ),
        spec_row_dot(
            lr,
            lg,
            lb,
            FX_SRGB2XYZ_20 as int,
            FX_SRGB2XYZ_21 as int,
            FX_SRGB2XYZ_22 as int,
        ),
    )
}

/// Converts a color from ARGB to XYZ.
pub fn xyz_from_argb(argb: [u8; 4]) -> (r: [i64; 3])
    ensures
        fx_ok(r[0]),
        fx_ok(r[1]),
        fx_ok(r[2]),
        (r[0] as int, r[1] as int, r[2] as int) == spec_xyz_from_argb(
            argb[1] as int,
            argb[2] as int,
            argb[3] as int,
        ),
{
    let lr: i64 = linearized(argb[1]);
    let lg: i64 = linearized(argb[2]);
    let lb: i64 = linearized(argb[3]);
    let x: i64 = fx_add(
        fx_add(fx_mul(lr, FX_SRGB2XYZ_00), fx_mul(lg, FX_SRGB2XYZ_01)),
        fx_mul(lb, FX_SRGB2XYZ_02),
    );
    let y: i64 = fx_add(
        fx_add(fx_mul(lr, FX_SRGB2XYZ_10), fx_mul(lg, FX_SRGB2XYZ_11)),
        fx_mul(lb, FX_SRGB2XYZ_12),
    );
    let z: i64 = fx_add(
        fx_add(fx_mul(lr, FX_SRGB2XYZ_20), fx_mul(lg, FX_SRGB2XYZ_21)),
        fx_mul(lb, FX_SRGB2XYZ_22),
    );
    [x, y, z]
}

/// ARGB color of XYZ coordinates: apply the XYZ-to-sRGB matrix, then
/// delinearize each channel.
pub open spec fn spec_argb_from_xyz(x: int, y: int, z: int) -> (int, int, int) {
    let lr = spec_row_dot(
        x,
        y,
        z,
        FX_XYZ2SRGB_00 as int,
        FX_XYZ2SRGB_01 as int,
        FX_XYZ2SRGB_02 as int,
    );
    let lg = spec_row_dot(
        x,
        y,
        z,
        FX_XYZ2SRGB_10 as int,
        FX_XYZ2SRGB_11 as int,
        FX_XYZ2SRGB_12 as int,
    );
    let lb = spec_row_dot(
        x,
        y,
        z,
        FX_XYZ2SRGB_20 as int,
        FX_XYZ2SRGB_21 as int,
        FX_XYZ2SRGB_22 as int,
    );
    spec_argb_from_linrgb(lr, lg, lb)
}

/// Converts a color from XYZ to ARGB.
pub fn argb_from_xyz(xyz: [i64; 3]) -> (r: [u8; 4])
    requires
        fx_ok(xyz[0]),
        fx_ok(xyz[1]),
        fx_ok(xyz[2]),
    ensures
        r[0] == 255,
        (r[1] as int, r[2] as int, r[3] as int) == spec_argb_from_xyz(
            xyz[0] as int,
            xyz[1] as int,
            xyz[2] as int,
        ),
{
    let lr: i64 = fx_add(
        fx_add(fx_mul(xyz[0], FX_XYZ2SRGB_00), fx_mul(xyz[1], FX_XYZ2SRGB_01)),
        fx_mul(xyz[2], FX_XYZ2SRGB_02),
    );
    let lg: i64 = fx_add(
        fx_add(fx_mul(xyz[0], FX_XYZ2SRGB_10), fx_mul(xyz[1], FX_XYZ2SRGB_11)),
        fx_mul(xyz[2], FX_XYZ2SRGB_12),
    );
    let lb: i64 = fx_add(
        fx_add(fx_mul(xyz[0], FX_XYZ2SRGB_20), fx_mul(xyz[1], FX_XYZ2SRGB_21)),
        fx_mul(xyz[2], FX_XYZ2SRGB_22),
    );
    argb_from_linrgb([lr, lg, lb])
}

/// The L*a*b* forward weighting function.
pub open spec fn spec_lab_f(t: int) -> int {
    if t > FX_E_LAB as int {
        spec_fx_pow(t, spec_fx_div(FX_ONE as int, FX_3 as int))
    } else {
        spec_fx_div(
            spec_fx_add(spec_fx_mul(FX_KAPPA as int, t), FX_16 as int),
            FX_116 as int,
        )
    }
}

fn lab_f(t: i64) -> (r: i64)
    requires
        fx_ok(t),
    ensures
        fx_ok(r),
        r == spec_lab_f(t as int),
{
    if t > FX_E_LAB {
        fx_pow(t, fx_div(FX_ONE, FX_3))
    } else {
        fx_div(fx_add(fx_mul(FX_KAPPA, t), FX_16), FX_116)
    }
}

/// The L*a*b* inverse weighting function.
pub open spec fn spec_lab_invf(ft: int) -> int {
    let ft3 = spec_fx_mul(spec_fx_mul(ft, ft), ft);
    if ft3 > FX_E_LAB as int {
        ft3
    } else {
        spec_fx_div(spec_fx_sub(spec_fx_muli(ft, 116), FX_16 as int), FX_KAPPA as int)
    }
}

fn lab_invf(ft: i64) -> (r: i64)
    requires
        fx_ok(ft),
    ensures
        fx_ok(r),
        r == spec_lab_invf(ft as int),
{
    let ft3: i64 = fx_mul(fx_mul(ft, ft), ft);
    if ft3 > FX_E_LAB {
        ft3
    } else {
        fx_div(fx_sub(fx_muli(ft, 116), FX_16), FX_KAPPA)
    }
}

/// L* lightness of an ARGB color, derived from its Y coordinate and clamped
/// into the tone range [0, 100]: the clamp absorbs the last quantum of
/// truncation at pure black and pure white.
pub open spec fn spec_lstar_from_argb(r: int, g: int, b: int) -> int {
    let y = spec_xyz_from_argb(r, g, b).1;
    let l = spec_fx_sub(spec_fx_muli(spec_lab_f(spec_fx_div(y, FX_100 as int)), 116), FX_16 as int);
    if l < 0 {
        0
    } else if l > FX_100 as int {
        FX_100 as int
    } else {
        l
    }
}

/// Computes the L* value of a color in ARGB representation, in [0, 100].
pub fn lstar_from_argb(argb: [u8; 4]) -> (r: i64)
    ensures
        fx_ok(r),
        0 <= r <= FX_100,
        r == spec_lstar_from_argb(argb[1] as int, argb[2] as int, argb[3] as int),
{
    let xyz = xyz_from_argb(argb);
    let l: i64 = fx_sub(fx_muli(lab_f(fx_div(xyz[1], FX_100)), 116), FX_16);
    if l < 0 {
        0
    } else if l > FX_100 {
        FX_100
    } else {
        l
    }
}

/// Relative luminance Y of an L* lightness value.
pub open spec fn spec_y_from_lstar(lstar: int) -> int {
    spec_fx_muli(
        spec_lab_invf(spec_fx_div(spec_fx_add(lstar, FX_16 as int), FX_116 as int)),
        100,
    )
}

/// Converts an L* value to a Y value.
pub fn y_from_lstar(lstar: i64) -> (r: i64)
    requires
        fx_ok(lstar),
    ensures
        fx_ok(r),
        r == spec_y_from_lstar(lstar as int),
{
    fx_muli(lab_invf(fx_div(fx_add(lstar, FX_16), FX_116)), 100)
}

/// Grayscale ARGB color whose lightness matches the given L*.
pub open spec fn spec_argb_from_lstar(lstar: int) -> int {
    spec_delinearized(spec_y_from_lstar(lstar))
}

/// Converts an L* value to an ARGB representation of a gray color.
pub fn argb_from_lstar(lstar: i64) -> (r: [u8; 4])
    requires
        fx_ok(lstar),
    ensures
        r[0] == 255,
        r[1] == spec_argb_from_lstar(lstar as int),
        r[2] == spec_argb_from_lstar(lstar as int),
        r[3] == spec_argb_from_lstar(lstar as int),
{
    let y: i64 = y_from_lstar(lstar);
    let w: u8 = delinearized(y);
    argb_from_rgb([w, w, w])
}

/// L*a*b* coordinates of an ARGB color.
pub open spec fn spec_lab_from_argb(r: int, g: int, b: int) -> (int, int, int) {
    let xyz = spec_xyz_from_argb(r, g, b);
    let fxv = spec_lab_f(spec_fx_div(xyz.0, FX_WP_X as int));
    let fyv = spec_lab_f(spec_fx_div(xyz.1, FX_WP_Y as int));
    let fzv = spec_lab_f(spec_fx_div(xyz.2, FX_WP_Z as int));
    (
        spec_fx_sub(spec_fx_muli(fyv, 116), FX_16 as int),
        spec_fx_muli(spec_fx_sub(fxv, fyv), 500),
        spec_fx_muli(spec_fx_sub(fyv, fzv), 200),
    )
}

/// Converts a color from ARGB color space to L*a*b*.
pub fn lab_from_argb(argb: [u8; 4]) -> (r: [i64; 3])
    ensures
        fx_ok(r[0]),
        fx_ok(r[1]),
        fx_ok(r[2]),
        (r[0] as int, r[1] as int, r[2] as int) == spec_lab_from_argb(
            argb[1] as int,
            argb[2] as int,
            argb[3] as int,
        ),
{
    let xyz = xyz_from_argb(argb);
    let fxv: i64 = lab_f(fx_div(xyz[0], FX_WP_X));
    let fyv: i64 = lab_f(fx_div(xyz[1], FX_WP_Y));
    let fzv: i64 = lab_f(fx_div(xyz[2], FX_WP_Z));
    let l: i64 = fx_sub(fx_muli(fyv, 116), FX_16);
    let a: i64 = fx_muli(fx_sub(fxv, fyv), 500);
    let b: i64 = fx_muli(fx_sub(fyv, fzv), 200);
    [l, a, b]
}

/// ARGB color of L*a*b* coordinates.
pub open spec fn spec_argb_from_lab(l: int, a: int, b: int) -> (int, int, int) {
    let fy = spec_fx_div(spec_fx_add(l, FX_16 as int), FX_116 as int);
    let fxv = spec_fx_add(spec_fx_div(a, FX_500 as int), fy);
    let fz = spec_fx_sub(fy, spec_fx_div(b, FX_200 as int));
    let x = spec_fx_mul(spec_lab_invf(fxv), FX_WP_X as int);
    let y = spec_fx_mul(spec_lab_invf(fy), FX_WP_Y as int);
    let z = spec_fx_mul(spec_lab_invf(fz), FX_WP_Z as int);
    spec_argb_from_xyz(x, y, z)
}

/// Converts a color from L*a*b* color space to ARGB.
pub fn argb_from_lab(l: i64, a: i64, b: i64) -> (r: [u8; 4])
    requires
        fx_ok(l),
        fx_ok(a),
        fx_ok(b),
    ensures
        r[0] == 255,
        (r[1] as int, r[2] as int, r[3] as int) == spec_argb_from_lab(
            l as int,
            a as int,
            b as int,
        ),
{
    let fy: i64 = fx_div(fx_add(l, FX_16), FX_116);
    let fxv: i64 = fx_add(fx_div(a, FX_500), fy);
    let fz: i64 = fx_sub(fy, fx_div(b, FX_200));
    let x: i64 = fx_mul(lab_invf(fxv), FX_WP_X);
    let y: i64 = fx_mul(lab_invf(fy), FX_WP_Y);
    let z: i64 = fx_mul(lab_invf(fz), FX_WP_Z);
    argb_from_xyz([x, y, z])
}

/// Boundary colors: the L* tone of pure black is exactly zero.
#[verifier::rlimit(100)]
#[verifier::spinoff_prover]
pub proof fn lemma_lstar_black_is_zero()
    ensures
        spec_lstar_from_argb(0, 0, 0) == 0,
{
    broadcast use vstd::arithmetic::mul::group_mul_basics;
    broadcast use vstd::arithmetic::div_mod::group_div_basics;

    assert(spec_xyz_from_argb(0, 0, 0) == (0int, 0int, 0int));
    assert(68719476736int * 0x1_0000_0000 / 498216206336 == 592409282) by (nonlinear_arith);
    assert(spec_lab_f(0) == 592409282);
    assert(592409282int * 116 == 68719476712) by (nonlinear_arith);
}

/// Returns the standard D65 white point.
pub fn white_point_d65() -> (r: [i64; 3])
    ensures
        r[0] == FX_WP_X,
        r[1] == FX_WP_Y,
        r[2] == FX_WP_Z,
{
    [FX_WP_X, FX_WP_Y, FX_WP_Z]
}

} // verus!
