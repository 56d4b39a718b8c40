//! CAM16 color appearance model: the forward transform from an ARGB color to
//! its appearance correlates, and the inverse transform back to ARGB, both
//! parametrized by a set of viewing conditions.
use vstd::prelude::*;

use crate::fixed::{
    fx_add, fx_atan2, fx_cos, fx_div, fx_divi, fx_exp, fx_ln, fx_mul, fx_muli, fx_ok, fx_pow,
    fx_sin, fx_sqrt, fx_sub, s_abs, spec_fx_add, spec_fx_atan2, spec_fx_cos, spec_fx_div,
    spec_fx_divi, spec_fx_exp, spec_fx_ln, spec_fx_mul, spec_fx_muli, spec_fx_pow, spec_fx_sin,
    spec_fx_sqrt, spec_fx_sub, FX_ONE,
};
use crate::hct::viewing_conditions::{
    spec_default_vc, vc_ok, VcData, ViewingConditions, FX_0_42, FX_27_13, FX_2, FX_400,
};
use crate::utils::color::{
    argb_from_xyz, spec_argb_from_xyz, spec_xyz_from_argb, xyz_from_argb, FX_100,
};
use crate::utils::math::{
    sanitize_degrees_double, spec_row_dot, spec_sanitize_degrees, FX_DEG_360,
};

verus! {

pub const FX_C2X_00: i64 = 7997520541;

pub const FX_C2X_01: i64 = -4343305566;

pub const FX_C2X_02: i64 = 640752322;

pub const FX_C2X_10: i64 = 1664413830;

pub const FX_C2X_11: i64 = 2669096439;

pub const FX_C2X_12: i64 = -38542973;

pub const FX_C2X_20: i64 = -68038719;

pub const FX_C2X_21: i64 = -146556903;

pub const FX_C2X_22: i64 = 4509562918;

pub const FX_20_14: i64 = 86500641341;

pub const FX_0_25: i64 = 1073741824;

pub const FX_3_8: i64 = 16320875725;

pub const FX_50000: i64 = 214748364800000;

pub const FX_13: i64 = 55834574848;

pub const FX_0_305: i64 = 1309965025;

pub const FX_1_64: i64 = 7043746365;

pub const FX_0_29: i64 = 1245540516;

pub const FX_0_73: i64 = 3135326126;

pub const FX_0_9: i64 = 3865470566;

pub const FX_1_7: i64 = 7301444403;

pub const FX_0_007: i64 = 30064771;

pub const FX_0_0228: i64 = 97925254;

pub const FX_4: i64 = 17179869184;

/// Degrees per radian in fixed point.
pub const FX_DEG_PER_RAD: i64 = 246083499198;

/// Radians per degree in fixed point.
pub const FX_RAD_PER_DEG: i64 = 74961320;

/// The CAM16 appearance correlates of one color under one set of viewing
/// conditions, plus the CAM16-UCS coordinates. Read-only after construction.
#[derive(Clone, Copy, Debug)]
pub struct Cam16 {
    /// Hue in degrees, in [0, 360).
    pub hue: i64,
    /// Chroma relative to the white point.
    pub chroma: i64,
    /// Lightness J.
    pub j: i64,
    /// Brightness Q.
    pub q: i64,
    /// Colorfulness M.
    pub m: i64,
    /// Saturation s.
    pub s: i64,
    /// CAM16-UCS lightness coordinate J*.
    pub jstar: i64,
    /// CAM16-UCS red-green coordinate a*.
    pub astar: i64,
    /// CAM16-UCS yellow-blue coordinate b*.
    pub bstar: i64,
}

/// The mathematical content of a [`Cam16`]: the same correlates as unbounded
/// integers, used by every contract in the appearance model.
pub struct CamData {
    /// Hue in degrees, in [0, 360).
    pub hue: int,
    /// Chroma relative to the white point.
    pub chroma: int,
    /// Lightness J.
    pub j: int,
    /// Brightness Q.
    pub q: int,
    /// Colorfulness M.
    pub m: int,
    /// Saturation s.
    pub s: int,
    /// CAM16-UCS lightness coordinate J*.
    pub jstar: int,
    /// CAM16-UCS red-green coordinate a*.
    pub astar: int,
    /// CAM16-UCS yellow-blue coordinate b*.
    pub bstar: int,
}

impl View for Cam16 {
    type V = CamData;

    open spec fn view(&self) -> CamData {
        CamData {
            hue: self.hue as int,
            chroma: self.chroma as int,
            j: self.j as int,
            q: self.q as int,
            m: self.m as int,
            s: self.s as int,
            jstar: self.jstar as int,
            astar: self.astar as int,
            bstar: self.bstar as int,
        }
    }
}

/// Every correlate is an in-range fixed-point value.
pub open spec fn cam_ok(cam: Cam16) -> bool {
    &&& fx_ok(cam.hue)
    &&& fx_ok(cam.chroma)
    &&& fx_ok(cam.j)
    &&& fx_ok(cam.q)
    &&& fx_ok(cam.m)
    &&& fx_ok(cam.s)
    &&& fx_ok(cam.jstar)
    &&& fx_ok(cam.astar)
    &&& fx_ok(cam.bstar)
}

/// The post-adaptation cone nonlinearity with luminance factor `fl`, applied
/// to a signed component.
pub open spec fn spec_adapt(fl: int, component: int) -> int {
    let af = spec_fx_pow(
        spec_fx_div(spec_fx_mul(fl, s_abs(component)), FX_100 as int),
        FX_0_42 as int,
    );
    let mag = spec_fx_div(spec_fx_muli(af, 400), spec_fx_add(af, FX_27_13 as int));
    if component < 0 {
        -mag
    } else {
        mag
    }
}

fn adapt(fl: i64, component: i64) -> (r: i64)
    requires
        fx_ok(fl),
        fx_ok(component),
    ensures
        fx_ok(r),
        r == spec_adapt(fl as int, component as int),
{
    let ca: i64 = if component < 0 {
        -component
    } else {
        component
    };
    let af: i64 = fx_pow(fx_div(fx_mul(fl, ca), FX_100), FX_0_42);
    let mag: i64 = fx_div(fx_muli(af, 400), fx_add(af, FX_27_13));
    if component < 0 {
        -mag
    } else {
        mag
    }
}

/// The adapted cone responses of an XYZ color under the given conditions:
/// cone transform, discounting, then the post-adaptation nonlinearity.
pub open spec fn spec_cone_responses(x: int, y: int, z: int, vc: VcData) -> (
    int,
    int,
    int,
) {
    let rt = spec_row_dot(
        x,
        y,
        z,
        crate::hct::viewing_conditions::FX_X2C_00 as int,
        crate::hct::viewing_conditions::FX_X2C_01 as int,
        crate::hct::viewing_conditions::FX_X2C_02 as int,
    );
    let gt = spec_row_dot(
        x,
        y,
        z,
        crate::hct::viewing_conditions::FX_X2C_10 as int,
        crate::hct::viewing_conditions::FX_X2C_11 as int,
        crate::hct::viewing_conditions::FX_X2C_12 as int,
    );
    let bt = spec_row_dot(
        x,
        y,
        z,
        crate::hct::viewing_conditions::FX_X2C_20 as int,
        crate::hct::viewing_conditions::FX_X2C_21 as int,
        crate::hct::viewing_conditions::FX_X2C_22 as int,
    );
    (
        spec_adapt(vc.fl, spec_fx_mul(vc.rgb_d0, rt)),
        spec_adapt(vc.fl, spec_fx_mul(vc.rgb_d1, gt)),
        spec_adapt(vc.fl, spec_fx_mul(vc.rgb_d2, bt)),
    )
}

/// Redness-greenness of adapted cone responses.
pub open spec fn spec_axis_a(ra: int, ga: int, ba: int) -> int {
    spec_fx_divi(spec_fx_add(spec_fx_sub(spec_fx_muli(ra, 11), spec_fx_muli(ga, 12)), ba), 11)
}

/// Yellowness-blueness of adapted cone responses.
pub open spec fn spec_axis_b(ra: int, ga: int, ba: int) -> int {
    spec_fx_divi(spec_fx_sub(spec_fx_add(ra, ga), spec_fx_muli(ba, 2)), 9)
}

/// Hue in degrees of the opponent axes, wrapped into [0, 360).
pub open spec fn spec_hue_of_axes(a: int, b: int) -> int {
    spec_sanitize_degrees(spec_fx_mul(spec_fx_atan2(b, a), FX_DEG_PER_RAD as int))
}

/// Hue eccentricity factor at a hue angle given in radians.
pub open spec fn spec_e_hue(hue_rad: int) -> int {
    spec_fx_mul(
        FX_0_25 as int,
        spec_fx_add(spec_fx_cos(spec_fx_add(hue_rad, FX_2 as int)), FX_3_8 as int),
    )
}

/// The CAM16 correlates of an XYZ color under the given conditions.
#[verifier::opaque]
pub open spec fn spec_cam_from_xyz(x: int, y: int, z: int, vc: VcData) -> CamData {
    let cones = spec_cone_responses(x, y, z, vc);
    let ra = cones.0;
    let ga = cones.1;
    let ba = cones.2;
    let a = spec_axis_a(ra, ga, ba);
    let b = spec_axis_b(ra, ga, ba);
    let u = spec_fx_divi(
        spec_fx_add(spec_fx_add(spec_fx_muli(ra, 20), spec_fx_muli(ga, 20)), spec_fx_muli(ba, 21)),
        20,
    );
    let p2 = spec_fx_divi(
        spec_fx_add(spec_fx_add(spec_fx_muli(ra, 40), spec_fx_muli(ga, 20)), ba),
        20,
    );
    let hue = spec_hue_of_axes(a, b);
    let hue_rad = spec_fx_mul(hue, FX_RAD_PER_DEG as int);
    let ac = spec_fx_mul(p2, vc.nbb);
    let j = spec_fx_muli(
        spec_fx_pow(spec_fx_div(ac, vc.aw), spec_fx_mul(vc.c, vc.z)),
        100,
    );
    let q = spec_fx_mul(
        spec_fx_mul(spec_fx_div(FX_4 as int, vc.c), spec_fx_sqrt(spec_fx_divi(j, 100))),
        spec_fx_mul(spec_fx_add(vc.aw, FX_4 as int), vc.fl_root),
    );
    let hue_prime = if hue < FX_20_14 as int {
        spec_fx_add(hue, FX_DEG_360 as int)
    } else {
        hue
    };
    let e_hue = spec_e_hue(spec_fx_mul(hue_prime, FX_RAD_PER_DEG as int));
    let p1 = spec_fx_mul(
        spec_fx_mul(spec_fx_div(FX_50000 as int, FX_13 as int), e_hue),
        spec_fx_mul(vc.nc, vc.ncb),
    );
    let t = spec_fx_div(
        spec_fx_mul(p1, spec_fx_sqrt(spec_fx_add(spec_fx_mul(a, a), spec_fx_mul(b, b)))),
        spec_fx_add(u, FX_0_305 as int),
    );
    let alpha = spec_fx_mul(
        spec_fx_pow(t, FX_0_9 as int),
        spec_fx_pow(
            spec_fx_sub(FX_1_64 as int, spec_fx_pow(FX_0_29 as int, vc.n)),
            FX_0_73 as int,
        ),
    );
    let chroma = spec_fx_mul(alpha, spec_fx_sqrt(spec_fx_divi(j, 100)));
    let m = spec_fx_mul(chroma, vc.fl_root);
    let s = spec_fx_muli(
        spec_fx_sqrt(
            spec_fx_div(spec_fx_mul(alpha, vc.c), spec_fx_add(vc.aw, FX_4 as int)),
        ),
        50,
    );
    let jstar = spec_fx_div(
        spec_fx_mul(FX_1_7 as int, j),
        spec_fx_add(FX_ONE as int, spec_fx_mul(FX_0_007 as int, j)),
    );
    let mstar = spec_fx_mul(
        spec_fx_div(FX_ONE as int, FX_0_0228 as int),
        spec_fx_ln(spec_fx_add(FX_ONE as int, spec_fx_mul(FX_0_0228 as int, m))),
    );
    CamData {
        hue,
        chroma,
        j,
        q,
        m,
        s,
        jstar,
        astar: spec_fx_mul(mstar, spec_fx_cos(hue_rad)),
        bstar: spec_fx_mul(mstar, spec_fx_sin(hue_rad)),
    }
}

/// Boundary colors: CAM16 of pure black has every appearance correlate
/// exactly zero, under any viewing conditions. Degenerate input propagates
/// as exact zeros through the whole forward transform.
#[verifier::rlimit(100)]
#[verifier::spinoff_prover]
pub proof fn lemma_cam_black_is_zero(vc: VcData)
    ensures
        spec_cam_from_xyz(0, 0, 0, vc).j == 0,
        spec_cam_from_xyz(0, 0, 0, vc).chroma == 0,
        spec_cam_from_xyz(0, 0, 0, vc).hue == 0,
        spec_cam_from_xyz(0, 0, 0, vc).m == 0,
        spec_cam_from_xyz(0, 0, 0, vc).s == 0,
        spec_cam_from_xyz(0, 0, 0, vc).q == 0,
{
    broadcast use vstd::arithmetic::mul::group_mul_basics;
    broadcast use vstd::arithmetic::div_mod::group_div_basics;

    reveal(spec_cam_from_xyz);
}

/// Boundary colors: CAM16 of the pure black ARGB color has every appearance
/// correlate exactly zero under the default viewing conditions.
#[verifier::rlimit(100)]
#[verifier::spinoff_prover]
pub proof fn lemma_cam_from_argb_black()
    ensures
        spec_cam_from_argb(0, 0, 0).j == 0,
        spec_cam_from_argb(0, 0, 0).chroma == 0,
        spec_cam_from_argb(0, 0, 0).hue == 0,
        spec_cam_from_argb(0, 0, 0).m == 0,
        spec_cam_from_argb(0, 0, 0).s == 0,
        spec_cam_from_argb(0, 0, 0).q == 0,
{
    broadcast use vstd::arithmetic::mul::group_mul_basics;
    broadcast use vstd::arithmetic::div_mod::group_div_basics;

    assert(spec_xyz_from_argb(0, 0, 0) == (0int, 0int, 0int));
    lemma_cam_black_is_zero(spec_default_vc());
}

/// Data-model ranges of the forward transform: the hue is wrapped into
/// [0, 360) and the chroma is never negative, under any viewing conditions.
#[verifier::rlimit(100)]
#[verifier::spinoff_prover]
pub proof fn lemma_cam_ranges(x: int, y: int, z: int, vc: VcData)
    ensures
        0 <= spec_cam_from_xyz(x, y, z, vc).hue < FX_DEG_360 as int,
        spec_cam_from_xyz(x, y, z, vc).chroma >= 0,
{
    reveal(spec_cam_from_xyz);
    let cones = spec_cone_responses(x, y, z, vc);
    let a = spec_axis_a(cones.0, cones.1, cones.2);
    let b = spec_axis_b(cones.0, cones.1, cones.2);
    vstd::arithmetic::div_mod::lemma_mod_bound(
        spec_fx_mul(spec_fx_atan2(b, a), FX_DEG_PER_RAD as int),
        FX_DEG_360 as int,
    );
    let u = spec_fx_divi(
        spec_fx_add(
            spec_fx_add(spec_fx_muli(cones.0, 20), spec_fx_muli(cones.1, 20)),
            spec_fx_muli(cones.2, 21),
        ),
        20,
    );
    let hue = spec_hue_of_axes(a, b);
    let hue_prime = if hue < FX_20_14 as int {
        spec_fx_add(hue, FX_DEG_360 as int)
    } else {
        hue
    };
    let e_hue = spec_e_hue(spec_fx_mul(hue_prime, FX_RAD_PER_DEG as int));
    let p1 = spec_fx_mul(
        spec_fx_mul(spec_fx_div(FX_50000 as int, FX_13 as int), e_hue),
        spec_fx_mul(vc.nc, vc.ncb),
    );
    let t = spec_fx_div(
        spec_fx_mul(p1, spec_fx_sqrt(spec_fx_add(spec_fx_mul(a, a), spec_fx_mul(b, b)))),
        spec_fx_add(u, FX_0_305 as int),
    );
    let pow_t = spec_fx_pow(t, FX_0_9 as int);
    let pow_n = spec_fx_pow(
        spec_fx_sub(FX_1_64 as int, spec_fx_pow(FX_0_29 as int, vc.n)),
        FX_0_73 as int,
    );
    crate::fixed::lemma_fx_pow_nonneg(t, FX_0_9 as int);
    crate::fixed::lemma_fx_pow_nonneg(
        spec_fx_sub(FX_1_64 as int, spec_fx_pow(FX_0_29 as int, vc.n)),
        FX_0_73 as int,
    );
    crate::fixed::lemma_fx_mul_nonneg(pow_t, pow_n);
    let ac = spec_fx_mul(
        spec_fx_divi(
            spec_fx_add(spec_fx_add(spec_fx_muli(cones.0, 40), spec_fx_muli(cones.1, 20)), cones.2),
            20,
        ),
        vc.nbb,
    );
    let j = spec_fx_muli(
        spec_fx_pow(spec_fx_div(ac, vc.aw), spec_fx_mul(vc.c, vc.z)),
        100,
    );
    crate::fixed::lemma_fx_sqrt_nonneg(spec_fx_divi(j, 100));
    crate::fixed::lemma_fx_mul_nonneg(
        spec_fx_mul(pow_t, pow_n),
        spec_fx_sqrt(spec_fx_divi(j, 100)),
    );
}

/// The CAM16 correlates of an ARGB color under the default conditions.
pub open spec fn spec_cam_from_argb(r: int, g: int, b: int) -> CamData {
    let xyz = spec_xyz_from_argb(r, g, b);
    spec_cam_from_xyz(xyz.0, xyz.1, xyz.2, spec_default_vc())
}

impl Cam16 {
    /// Hue in degrees, in [0, 360).
    pub fn hue(&self) -> (r: i64)
        ensures
            r == self.hue,
    {
        self.hue
    }

    /// Chroma: informally, colorfulness relative to the white point.
    pub fn chroma(&self) -> (r: i64)
        ensures
            r == self.chroma,
    {
        self.chroma
    }

    /// Lightness J.
    pub fn j(&self) -> (r: i64)
        ensures
            r == self.j,
    {
        self.j
    }

    /// Brightness Q.
    pub fn q(&self) -> (r: i64)
        ensures
            r == self.q,
    {
        self.q
    }

    /// Colorfulness M.
    pub fn m(&self) -> (r: i64)
        ensures
            r == self.m,
    {
        self.m
    }

    /// Saturation s.
    pub fn s(&self) -> (r: i64)
        ensures
            r == self.s,
    {
        self.s
    }

    /// CAM16-UCS J* coordinate.
    pub fn jstar(&self) -> (r: i64)
        ensures
            r == self.jstar,
    {
        self.jstar
    }

    /// CAM16-UCS a* coordinate.
    pub fn astar(&self) -> (r: i64)
        ensures
            r == self.astar,
    {
        self.astar
    }

    /// CAM16-UCS b* coordinate.
    pub fn bstar(&self) -> (r: i64)
        ensures
            r == self.bstar,
    {
        self.bstar
    }

    /// Computes the CAM16 correlates of an XYZ color under the given viewing
    /// conditions.
    pub fn from_xyz(x: i64, y: i64, z: i64, vc: ViewingConditions) -> (r: Cam16)
        requires
            fx_ok(x),
            fx_ok(y),
            fx_ok(z),
            vc_ok(vc),
        ensures
            cam_ok(r),
            r@ == spec_cam_from_xyz(x as int, y as int, z as int, vc@),
    {
        proof {
            reveal(spec_cam_from_xyz);
        }
        let rt: i64 = fx_add(
            fx_add(
                fx_mul(x, crate::hct::viewing_conditions::FX_X2C_00),
                fx_mul(y, crate::hct::viewing_conditions::FX_X2C_01),
            ),
            fx_mul(z, crate::hct::viewing_conditions::FX_X2C_02),
        );
        let gt: i64 = fx_add(
            fx_add(
                fx_mul(x, crate::hct::viewing_conditions::FX_X2C_10),
                fx_mul(y, crate::hct::viewing_conditions::FX_X2C_11),
            ),
            fx_mul(z, crate::hct::viewing_conditions::FX_X2C_12),
        );
        let bt: i64 = fx_add(
            fx_add(
                fx_mul(x, crate::hct::viewing_conditions::FX_X2C_20),
                fx_mul(y, crate::hct::viewing_conditions::FX_X2C_21),
            ),
            fx_mul(z, crate::hct::viewing_conditions::FX_X2C_22),
        );
        let ra: i64 = adapt(vc.fl, fx_mul(vc.rgb_d0, rt));
        let ga: i64 = adapt(vc.fl, fx_mul(vc.rgb_d1, gt));
        let ba: i64 = adapt(vc.fl, fx_mul(vc.rgb_d2, bt));
        let a: i64 = fx_divi(fx_add(fx_sub(fx_muli(ra, 11), fx_muli(ga, 12)), ba), 11);
        let b: i64 = fx_divi(fx_sub(fx_add(ra, ga), fx_muli(ba, 2)), 9);
        let u: i64 = fx_divi(fx_add(fx_add(fx_muli(ra, 20), fx_muli(ga, 20)), fx_muli(ba, 21)), 20);
        let p2: i64 = fx_divi(fx_add(fx_add(fx_muli(ra, 40), fx_muli(ga, 20)), ba), 20);
        let atan_deg: i64 = fx_mul(fx_atan2(b, a), FX_DEG_PER_RAD);
        let hue: i64 = sanitize_degrees_double(atan_deg);
        let hue_rad: i64 = fx_mul(hue, FX_RAD_PER_DEG);
        let ac: i64 = fx_mul(p2, vc.nbb);
        let j: i64 = fx_muli(fx_pow(fx_div(ac, vc.aw), fx_mul(vc.c, vc.z)), 100);
        let q: i64 = fx_mul(
            fx_mul(fx_div(FX_4, vc.c), fx_sqrt(fx_divi(j, 100))),
            fx_mul(fx_add(vc.aw, FX_4), vc.fl_root),
        );
        let hue_prime: i64 = if hue < FX_20_14 {
            fx_add(hue, FX_DEG_360)
        } else {
            hue
        };
        let e_hue: i64 = fx_mul(
            FX_0_25,
            fx_add(fx_cos(fx_add(fx_mul(hue_prime, FX_RAD_PER_DEG), FX_2)), FX_3_8),
        );
        let p1: i64 = fx_mul(fx_mul(fx_div(FX_50000, FX_13), e_hue), fx_mul(vc.nc, vc.ncb));
        let t: i64 = fx_div(
            fx_mul(p1, fx_sqrt(fx_add(fx_mul(a, a), fx_mul(b, b)))),
            fx_add(u, FX_0_305),
        );
        let alpha: i64 = fx_mul(
            fx_pow(t, FX_0_9),
            fx_pow(fx_sub(FX_1_64, fx_pow(FX_0_29, vc.n)), FX_0_73),
        );
        let chroma: i64 = fx_mul(alpha, fx_sqrt(fx_divi(j, 100)));
        let m: i64 = fx_mul(chroma, vc.fl_root);
        let s: i64 = fx_muli(fx_sqrt(fx_div(fx_mul(alpha, vc.c), fx_add(vc.aw, FX_4))), 50);
        let jstar: i64 = fx_div(fx_mul(FX_1_7, j), fx_add(FX_ONE, fx_mul(FX_0_007, j)));
        let mstar: i64 = fx_mul(
            fx_div(FX_ONE, FX_0_0228),
            fx_ln(fx_add(FX_ONE, fx_mul(FX_0_0228, m))),
        );
        Cam16 {
            hue,
            chroma,
            j,
            q,
            m,
            s,
            jstar,
            astar: fx_mul(mstar, fx_cos(hue_rad)),
            bstar: fx_mul(mstar, fx_sin(hue_rad)),
        }
    }

    /// Computes the CAM16 correlates of an ARGB color under the default
    /// viewing conditions.
    pub fn from_argb(argb: [u8; 4]) -> (r: Cam16)
        ensures
            cam_ok(r),
            r@ == spec_cam_from_argb(argb[1] as int, argb[2] as int, argb[3] as int),
    {
        let xyz = xyz_from_argb(argb);
        Cam16::from_xyz(xyz[0], xyz[1], xyz[2], ViewingConditions::default())
    }
}

/// The inverse of the post-adaptation nonlinearity used by [`spec_cam_viewed`],
/// including the luminance rescaling.
pub open spec fn spec_inverse_adapt(fl: int, adapted: int) -> int {
    let aa = s_abs(adapted);
    let base0 = spec_fx_div(spec_fx_mul(FX_27_13 as int, aa), spec_fx_sub(FX_400 as int, aa));
    let base = if base0 < 0 {
        0
    } else {
        base0
    };
    let mag = spec_fx_mul(
        spec_fx_div(FX_100 as int, fl),
        spec_fx_pow(base, spec_fx_div(FX_ONE as int, FX_0_42 as int)),
    );
    if adapted < 0 {
        -mag
    } else {
        mag
    }
}

fn inverse_adapt(fl: i64, adapted: i64) -> (r: i64)
    requires
        fx_ok(fl),
        fx_ok(adapted),
    ensures
        fx_ok(r),
        r == spec_inverse_adapt(fl as int, adapted as int),
{
    let aa: i64 = if adapted < 0 {
        -adapted
    } else {
        adapted
    };
    let base0: i64 = fx_div(fx_mul(FX_27_13, aa), fx_sub(FX_400, aa));
    let base: i64 = if base0 < 0 {
        0
    } else {
        base0
    };
    let mag: i64 = fx_mul(fx_div(FX_100, fl), fx_pow(base, fx_div(FX_ONE, FX_0_42)));
    if adapted < 0 {
        -mag
    } else {
        mag
    }
}

/// The opponent-axis magnitude gamma reconstructed from the achromatic
/// response and the shape factor t.
pub open spec fn spec_gamma(p1: int, p2: int, t: int, h_sin: int, h_cos: int) -> int {
    spec_fx_div(
        spec_fx_mul(spec_fx_muli(spec_fx_add(p2, FX_0_305 as int), 23), t),
        spec_fx_add(
            spec_fx_muli(p1, 23),
            spec_fx_add(
                spec_fx_muli(spec_fx_mul(t, h_cos), 11),
                spec_fx_muli(spec_fx_mul(t, h_sin), 108),
            ),
        ),
    )
}

/// The ARGB channels reconstructed from lightness, chroma and hue under the
/// given conditions: the inverse CAM16 transform.
#[verifier::opaque]
pub open spec fn spec_viewed_jch(j: int, chroma: int, hue: int, vc: VcData) -> (
    int,
    int,
    int,
) {
    let alpha = if chroma == 0 || j == 0 {
        0
    } else {
        spec_fx_div(chroma, spec_fx_sqrt(spec_fx_divi(j, 100)))
    };
    let t = spec_fx_pow(
        spec_fx_div(
            alpha,
            spec_fx_pow(
                spec_fx_sub(FX_1_64 as int, spec_fx_pow(FX_0_29 as int, vc.n)),
                FX_0_73 as int,
            ),
        ),
        spec_fx_div(FX_ONE as int, FX_0_9 as int),
    );
    let h_rad = spec_fx_mul(hue, FX_RAD_PER_DEG as int);
    let e_hue = spec_e_hue(h_rad);
    let ac = spec_fx_mul(
        vc.aw,
        spec_fx_pow(
            spec_fx_divi(j, 100),
            spec_fx_div(FX_ONE as int, spec_fx_mul(vc.c, vc.z)),
        ),
    );
    let p1 = spec_fx_mul(
        spec_fx_mul(e_hue, spec_fx_div(FX_50000 as int, FX_13 as int)),
        spec_fx_mul(vc.nc, vc.ncb),
    );
    let p2 = spec_fx_div(ac, vc.nbb);
    let h_sin = spec_fx_sin(h_rad);
    let h_cos = spec_fx_cos(h_rad);
    let gamma = spec_gamma(p1, p2, t, h_sin, h_cos);
    let a = spec_fx_mul(gamma, h_cos);
    let b = spec_fx_mul(gamma, h_sin);
    let r_a = spec_fx_divi(
        spec_fx_add(spec_fx_add(spec_fx_muli(p2, 460), spec_fx_muli(a, 451)), spec_fx_muli(b, 288)),
        1403,
    );
    let g_a = spec_fx_divi(
        spec_fx_sub(spec_fx_sub(spec_fx_muli(p2, 460), spec_fx_muli(a, 891)), spec_fx_muli(b, 261)),
        1403,
    );
    let b_a = spec_fx_divi(
        spec_fx_sub(
            spec_fx_sub(spec_fx_muli(p2, 460), spec_fx_muli(a, 220)),
            spec_fx_muli(b, 6300),
        ),
        1403,
    );
    let rc = spec_inverse_adapt(vc.fl, r_a);
    let gc = spec_inverse_adapt(vc.fl, g_a);
    let bc = spec_inverse_adapt(vc.fl, b_a);
    let rf = spec_fx_div(rc, vc.rgb_d0);
    let gf = spec_fx_div(gc, vc.rgb_d1);
    let bf = spec_fx_div(bc, vc.rgb_d2);
    let x = spec_row_dot(rf, gf, bf, FX_C2X_00 as int, FX_C2X_01 as int, FX_C2X_02 as int);
    let y = spec_row_dot(rf, gf, bf, FX_C2X_10 as int, FX_C2X_11 as int, FX_C2X_12 as int);
    let z = spec_row_dot(rf, gf, bf, FX_C2X_20 as int, FX_C2X_21 as int, FX_C2X_22 as int);
    spec_argb_from_xyz(x, y, z)
}

/// The ARGB channels of a Cam16 value viewed under the given conditions.
pub open spec fn spec_cam_viewed(cam: CamData, vc: VcData) -> (int, int, int) {
    spec_viewed_jch(cam.j, cam.chroma, cam.hue, vc)
}

impl Cam16 {
    /// The inverse transform: reconstructs the 8-bit ARGB color whose
    /// appearance under the given viewing conditions matches this value's
    /// lightness, chroma and hue. Channel clamping absorbs numerical
    /// overshoot at the gamut edges.
    pub fn viewed(&self, conditions: ViewingConditions) -> (r: [u8; 4])
        requires
            cam_ok(*self),
            vc_ok(conditions),
        ensures
            r[0] == 255,
            (r[1] as int, r[2] as int, r[3] as int) == spec_cam_viewed(self@, conditions@),
    {
        proof {
            reveal(spec_viewed_jch);
        }
        let vc = conditions;
        let alpha: i64 = if self.chroma == 0 || self.j == 0 {
            0
        } else {
            fx_div(self.chroma, fx_sqrt(fx_divi(self.j, 100)))
        };
        let t: i64 = fx_pow(
            fx_div(alpha, fx_pow(fx_sub(FX_1_64, fx_pow(FX_0_29, vc.n)), FX_0_73)),
            fx_div(FX_ONE, FX_0_9),
        );
        let h_rad: i64 = fx_mul(self.hue, FX_RAD_PER_DEG);
        let e_hue: i64 = fx_mul(FX_0_25, fx_add(fx_cos(fx_add(h_rad, FX_2)), FX_3_8));
        let ac: i64 = fx_mul(
            vc.aw,
            fx_pow(fx_divi(self.j, 100), fx_div(FX_ONE, fx_mul(vc.c, vc.z))),
        );
        let p1: i64 = fx_mul(fx_mul(e_hue, fx_div(FX_50000, FX_13)), fx_mul(vc.nc, vc.ncb));
        let p2: i64 = fx_div(ac, vc.nbb);
        let h_sin: i64 = fx_sin(h_rad);
        let h_cos: i64 = fx_cos(h_rad);
        let gamma: i64 = fx_div(
            fx_mul(fx_muli(fx_add(p2, FX_0_305), 23), t),
            fx_add(fx_muli(p1, 23), fx_add(fx_muli(fx_mul(t, h_cos), 11), fx_muli(fx_mul(t, h_sin), 108))),
        );
        let a: i64 = fx_mul(gamma, h_cos);
        let b: i64 = fx_mul(gamma, h_sin);
        let r_a: i64 = fx_divi(fx_add(fx_add(fx_muli(p2, 460), fx_muli(a, 451)), fx_muli(b, 288)), 1403);
        let g_a: i64 = fx_divi(fx_sub(fx_sub(fx_muli(p2, 460), fx_muli(a, 891)), fx_muli(b, 261)), 1403);
        let b_a: i64 = fx_divi(
            fx_sub(fx_sub(fx_muli(p2, 460), fx_muli(a, 220)), fx_muli(b, 6300)),
            1403,
        );
        let rc: i64 = inverse_adapt(vc.fl, r_a);
        let gc: i64 = inverse_adapt(vc.fl, g_a);
        let bc: i64 = inverse_adapt(vc.fl, b_a);
        let rf: i64 = fx_div(rc, vc.rgb_d0);
        let gf: i64 = fx_div(gc, vc.rgb_d1);
        let bf: i64 = fx_div(bc, vc.rgb_d2);
        let x: i64 = fx_add(fx_add(fx_mul(rf, FX_C2X_00), fx_mul(gf, FX_C2X_01)), fx_mul(bf, FX_C2X_02));
        let y: i64 = fx_add(fx_add(fx_mul(rf, FX_C2X_10), fx_mul(gf, FX_C2X_11)), fx_mul(bf, FX_C2X_12));
        let z: i64 = fx_add(fx_add(fx_mul(rf, FX_C2X_20), fx_mul(gf, FX_C2X_21)), fx_mul(bf, FX_C2X_22));
        argb_from_xyz([x, y, z])
    }

    /// The ARGB color of this value under the default viewing conditions.
    pub fn to_int(&self) -> (r: [u8; 4])
        requires
            cam_ok(*self),
        ensures
            r[0] == 255,
            (r[1] as int, r[2] as int, r[3] as int) == spec_cam_viewed(self@, spec_default_vc()),
    {
        self.viewed(ViewingConditions::default())
    }
}

/// The correlates reconstructed from lightness J, chroma and hue under the
/// default conditions.
#[verifier::opaque]
pub open spec fn spec_cam_from_jch_in_vc(j: int, c: int, h: int, vc: VcData) -> CamData {
    let q = spec_fx_mul(
        spec_fx_mul(spec_fx_div(FX_4 as int, vc.c), spec_fx_sqrt(spec_fx_divi(j, 100))),
        spec_fx_mul(spec_fx_add(vc.aw, FX_4 as int), vc.fl_root),
    );
    let m = spec_fx_mul(c, vc.fl_root);
    let alpha = if j == 0 {
        0
    } else {
        spec_fx_div(c, spec_fx_sqrt(spec_fx_divi(j, 100)))
    };
    let s = spec_fx_muli(
        spec_fx_sqrt(
            spec_fx_div(spec_fx_mul(alpha, vc.c), spec_fx_add(vc.aw, FX_4 as int)),
        ),
        50,
    );
    let hue_rad = spec_fx_mul(h, FX_RAD_PER_DEG as int);
    let jstar = spec_fx_div(
        spec_fx_mul(FX_1_7 as int, j),
        spec_fx_add(FX_ONE as int, spec_fx_mul(FX_0_007 as int, j)),
    );
    let mstar = spec_fx_mul(
        spec_fx_div(FX_ONE as int, FX_0_0228 as int),
        spec_fx_ln(spec_fx_add(FX_ONE as int, spec_fx_mul(FX_0_0228 as int, m))),
    );
    CamData {
        hue: h,
        chroma: c,
        j,
        q,
        m,
        s,
        jstar,
        astar: spec_fx_mul(mstar, spec_fx_cos(hue_rad)),
        bstar: spec_fx_mul(mstar, spec_fx_sin(hue_rad)),
    }
}

/// The correlates reconstructed from CAM16-UCS coordinates under the default
/// conditions.
pub open spec fn spec_cam_from_jch(jstar: int, astar: int, bstar: int) -> CamData {
    let vc = spec_default_vc();
    let mstar = spec_fx_sqrt(spec_fx_add(spec_fx_mul(astar, astar), spec_fx_mul(bstar, bstar)));
    let m = spec_fx_div(
        spec_fx_sub(spec_fx_exp(spec_fx_mul(mstar, FX_0_0228 as int)), FX_ONE as int),
        FX_0_0228 as int,
    );
    let c = spec_fx_div(m, vc.fl_root);
    let h0 = spec_fx_mul(spec_fx_atan2(bstar, astar), FX_DEG_PER_RAD as int);
    let h = if h0 < 0 {
        spec_fx_add(h0, FX_DEG_360 as int)
    } else {
        h0
    };
    let j = spec_fx_div(
        jstar,
        spec_fx_sub(
            FX_ONE as int,
            spec_fx_mul(spec_fx_sub(jstar, FX_100 as int), FX_0_007 as int),
        ),
    );
    spec_cam_from_jch_in_vc(j, c, h, vc)
}

impl Cam16 {
    /// Constructs the correlates from CAM16-UCS coordinates (J*, a*, b*)
    /// under the default viewing conditions, the route used for blending.
    pub fn from_jch(jstar: i64, astar: i64, bstar: i64) -> (r: Cam16)
        requires
            fx_ok(jstar),
            fx_ok(astar),
            fx_ok(bstar),
        ensures
            cam_ok(r),
            r@ == spec_cam_from_jch(jstar as int, astar as int, bstar as int),
    {
        proof {
            reveal(spec_cam_from_jch_in_vc);
        }
        let vc = ViewingConditions::default();
        let mstar: i64 = fx_sqrt(fx_add(fx_mul(astar, astar), fx_mul(bstar, bstar)));
        let m: i64 = fx_div(fx_sub(fx_exp(fx_mul(mstar, FX_0_0228)), FX_ONE), FX_0_0228);
        let c: i64 = fx_div(m, vc.fl_root);
        let h0: i64 = fx_mul(fx_atan2(bstar, astar), FX_DEG_PER_RAD);
        let h: i64 = if h0 < 0 {
            fx_add(h0, FX_DEG_360)
        } else {
            h0
        };
        let j: i64 = fx_div(jstar, fx_sub(FX_ONE, fx_mul(fx_sub(jstar, FX_100), FX_0_007)));
        let q: i64 = fx_mul(
            fx_mul(fx_div(FX_4, vc.c), fx_sqrt(fx_divi(j, 100))),
            fx_mul(fx_add(vc.aw, FX_4), vc.fl_root),
        );
        let m2: i64 = fx_mul(c, vc.fl_root);
        let alpha: i64 = if j == 0 {
            0
        } else {
            fx_div(c, fx_sqrt(fx_divi(j, 100)))
        };
        let s: i64 = fx_muli(fx_sqrt(fx_div(fx_mul(alpha, vc.c), fx_add(vc.aw, FX_4))), 50);
        let hue_rad: i64 = fx_mul(h, FX_RAD_PER_DEG);
        let jstar2: i64 = fx_div(fx_mul(FX_1_7, j), fx_add(FX_ONE, fx_mul(FX_0_007, j)));
        let mstar2: i64 = fx_mul(
            fx_div(FX_ONE, FX_0_0228),
            fx_ln(fx_add(FX_ONE, fx_mul(FX_0_0228, m2))),
        );
        Cam16 {
            hue: h,
            chroma: c,
            j,
            q,
            m: m2,
            s,
            jstar: jstar2,
            astar: fx_mul(mstar2, fx_cos(hue_rad)),
            bstar: fx_mul(mstar2, fx_sin(hue_rad)),
        }
    }
}

} // verus!
