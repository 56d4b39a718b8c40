//! Blending in HCT and CAM16-UCS: hue harmonization and appearance-space
//! interpolation.
use vstd::prelude::*;

use crate::fixed::{fx_add, fx_mul, fx_ok, fx_sub, spec_fx_add, spec_fx_mul, spec_fx_sub};
use crate::hct::cam16::{spec_cam_from_argb, spec_cam_from_jch, spec_cam_viewed, Cam16};
use crate::hct::hct_solver::spec_solve;
use crate::hct::viewing_conditions::spec_default_vc;
use crate::hct::Hct;
use crate::utils::color::{lstar_from_argb, spec_lstar_from_argb};
use crate::utils::math::{
    difference_degrees, rotation_direction, sanitize_degrees_double, spec_difference_degrees,
    spec_rotation_direction, spec_sanitize_degrees,
};

verus! {

/// One half in fixed point.
pub const FX_0_5: i64 = 2147483648;

/// Fifteen degrees in fixed point, the harmonization cap.
pub const FX_15: i64 = 64424509440;

/// The hue that [`harmonize`] rotates a design color to: half the angular
/// distance to the source hue, capped at fifteen degrees, toward the source.
pub open spec fn spec_harmonize_hue(design_hue: int, source_hue: int) -> int {
    let dd = spec_difference_degrees(design_hue, source_hue);
    let half = spec_fx_mul(dd, FX_0_5 as int);
    let rotation = if half < FX_15 as int {
        half
    } else {
        FX_15 as int
    };
    spec_sanitize_degrees(
        spec_fx_add(
            design_hue,
            spec_fx_mul(rotation, spec_rotation_direction(design_hue, source_hue)),
        ),
    )
}

/// The ARGB channels [`harmonize`] returns: the design color re-solved at the
/// harmonized hue with its own chroma and tone.
pub open spec fn spec_harmonize(
    dr: int,
    dg: int,
    db: int,
    sr: int,
    sg: int,
    sb: int,
) -> (int, int, int) {
    let design = spec_cam_from_argb(dr, dg, db);
    let source = spec_cam_from_argb(sr, sg, sb);
    spec_solve(
        spec_harmonize_hue(design.hue, source.hue),
        design.chroma,
        spec_lstar_from_argb(dr, dg, db),
    )
}

/// Shifts the design color's hue towards the source color's hue, leaving the
/// design color recognizable: the rotation is half the angular distance
/// between the hues, at most fifteen degrees, in the shorter direction.
#[verifier::rlimit(100)]
#[verifier::spinoff_prover]
pub fn harmonize(design_color: [u8; 4], source_color: [u8; 4]) -> (r: [u8; 4])
    ensures
        r[0] == 255,
        (r[1] as int, r[2] as int, r[3] as int) == spec_harmonize(
            design_color[1] as int,
            design_color[2] as int,
            design_color[3] as int,
            source_color[1] as int,
            source_color[2] as int,
            source_color[3] as int,
        ),
{
    let from_hct = Hct::from_int(design_color);
    let to_hct = Hct::from_int(source_color);
    let dd: i64 = difference_degrees(from_hct.hue(), to_hct.hue());
    let half: i64 = fx_mul(dd, FX_0_5);
    let rotation_degrees: i64 = if half < FX_15 {
        half
    } else {
        FX_15
    };
    let output_hue: i64 = sanitize_degrees_double(
        fx_add(
            from_hct.hue(),
            fx_mul(rotation_degrees, rotation_direction(from_hct.hue(), to_hct.hue())),
        ),
    );
    Hct::from(output_hue, from_hct.chroma(), from_hct.tone()).to_int()
}

/// The CAM16-UCS coordinates interpolated between two colors.
pub open spec fn spec_ucs_mix(
    fr: int,
    fg: int,
    fb: int,
    tr: int,
    tg: int,
    tb: int,
    amount: int,
) -> (int, int, int) {
    let from_cam = spec_cam_from_argb(fr, fg, fb);
    let to_cam = spec_cam_from_argb(tr, tg, tb);
    (
        spec_fx_add(from_cam.jstar, spec_fx_mul(spec_fx_sub(to_cam.jstar, from_cam.jstar), amount)),
        spec_fx_add(from_cam.astar, spec_fx_mul(spec_fx_sub(to_cam.astar, from_cam.astar), amount)),
        spec_fx_add(from_cam.bstar, spec_fx_mul(spec_fx_sub(to_cam.bstar, from_cam.bstar), amount)),
    )
}

/// The ARGB channels [`cam16ucs`] returns: the interpolated UCS point viewed
/// under the default conditions.
pub open spec fn spec_cam16ucs(
    fr: int,
    fg: int,
    fb: int,
    tr: int,
    tg: int,
    tb: int,
    amount: int,
) -> (int, int, int) {
    let mix = spec_ucs_mix(fr, fg, fb, tr, tg, tb, amount);
    spec_cam_viewed(spec_cam_from_jch(mix.0, mix.1, mix.2), spec_default_vc())
}

/// Blends two colors in CAM16-UCS space: hue, chroma and tone all move
/// towards the second color as `amount` goes from zero to one.
pub fn cam16ucs(from: [u8; 4], to: [u8; 4], amount: i64) -> (r: [u8; 4])
    requires
        fx_ok(amount),
    ensures
        r[0] == 255,
        (r[1] as int, r[2] as int, r[3] as int) == spec_cam16ucs(
            from[1] as int,
            from[2] as int,
            from[3] as int,
            to[1] as int,
            to[2] as int,
            to[3] as int,
            amount as int,
        ),
{
    let from_cam = Cam16::from_argb(from);
    let to_cam = Cam16::from_argb(to);
    let jstar: i64 = fx_add(from_cam.jstar(), fx_mul(fx_sub(to_cam.jstar(), from_cam.jstar()), amount));
    let astar: i64 = fx_add(from_cam.astar(), fx_mul(fx_sub(to_cam.astar(), from_cam.astar()), amount));
    let bstar: i64 = fx_add(from_cam.bstar(), fx_mul(fx_sub(to_cam.bstar(), from_cam.bstar()), amount));
    Cam16::from_jch(jstar, astar, bstar).to_int()
}

/// The ARGB channels [`hct_hue`] returns: the hue of the UCS blend combined
/// with the first color's own chroma and tone.
pub open spec fn spec_hct_hue(
    fr: int,
    fg: int,
    fb: int,
    tr: int,
    tg: int,
    tb: int,
    amount: int,
) -> (int, int, int) {
    let ucs = spec_cam16ucs(fr, fg, fb, tr, tg, tb, amount);
    let ucs_cam = spec_cam_from_argb(ucs.0, ucs.1, ucs.2);
    let from_cam = spec_cam_from_argb(fr, fg, fb);
    spec_solve(ucs_cam.hue, from_cam.chroma, spec_lstar_from_argb(fr, fg, fb))
}

/// Blends the hue of one color towards another, keeping the first color's
/// chroma and tone.
pub fn hct_hue(from: [u8; 4], to: [u8; 4], amount: i64) -> (r: [u8; 4])
    requires
        fx_ok(amount),
    ensures
        r[0] == 255,
        (r[1] as int, r[2] as int, r[3] as int) == spec_hct_hue(
            from[1] as int,
            from[2] as int,
            from[3] as int,
            to[1] as int,
            to[2] as int,
            to[3] as int,
            amount as int,
        ),
{
    let ucs = cam16ucs(from, to, amount);
    let ucs_cam = Cam16::from_argb(ucs);
    let from_cam = Cam16::from_argb(from);
    let blended = Hct::from(ucs_cam.hue(), from_cam.chroma(), lstar_from_argb(from));
    blended.to_int()
}

} // verus!
