//! Viewing conditions: the environmental parameters CAM16 needs, derived once
//! from physical inputs and then shared by every appearance computation.
use vstd::prelude::*;

use crate::fixed::{
    fx_add, fx_div, fx_exp, fx_mul, fx_muli, fx_ok, fx_pow, fx_sqrt, fx_sub, spec_fx_add,
    spec_fx_div, spec_fx_exp, spec_fx_mul, spec_fx_muli, spec_fx_pow, spec_fx_sqrt, spec_fx_sub,
    FX_ONE, FX_PI,
};
use crate::utils::color::{spec_y_from_lstar, white_point_d65, y_from_lstar, FX_100, FX_WP_X, FX_WP_Y, FX_WP_Z};

verus! {

pub const FX_X2C_00: i64 = 1723518836;

pub const FX_X2C_01: i64 = 2792471772;

pub const FX_X2C_02: i64 = -221023312;

pub const FX_X2C_10: i64 = -1074892875;

pub const FX_X2C_11: i64 = 5172918741;

pub const FX_X2C_12: i64 = 196941430;

pub const FX_X2C_20: i64 = -8929237;

pub const FX_X2C_21: i64 = 210247239;

pub const FX_X2C_22: i64 = 4093649294;

pub const FX_200: i64 = 858993459200;

pub const FX_50: i64 = 214748364800;

pub const FX_2: i64 = 8589934592;

pub const FX_0_8: i64 = 3435973837;

pub const FX_10: i64 = 42949672960;

pub const FX_0_9: i64 = 3865470566;

pub const FX_0_525: i64 = 2254857830;

pub const FX_0_59: i64 = 2534030705;

pub const FX_0_69: i64 = 2963527434;

pub const FX_3_6: i64 = 15461882266;

pub const FX_42: i64 = 180388626432;

pub const FX_92: i64 = 395136991232;

pub const FX_1_48: i64 = 6356551598;

pub const FX_0_725: i64 = 3113851290;

pub const FX_0_2: i64 = 858993459;

pub const FX_27_13: i64 = 116522462740;

pub const FX_0_42: i64 = 1803886264;

pub const FX_400: i64 = 1717986918400;

pub const FX_0_05: i64 = 214748365;

pub const FX_3: i64 = 12884901888;

/// Derived adaptation parameters for one viewing environment. Immutable once
/// built; every CAM16 transform reads them.
#[derive(Clone, Copy, Debug)]
pub struct ViewingConditions {
    /// Background luminance factor.
    pub n: i64,
    /// Achromatic response to the white point.
    pub aw: i64,
    /// Chromatic induction factor of the background.
    pub nbb: i64,
    /// Chromatic induction factor, cached for the eccentricity product.
    pub ncb: i64,
    /// Surround exponential nonlinearity.
    pub c: i64,
    /// Chromatic induction factor of the surround.
    pub nc: i64,
    /// Discounted cone response scaling, red axis.
    pub rgb_d0: i64,
    /// Discounted cone response scaling, green axis.
    pub rgb_d1: i64,
    /// Discounted cone response scaling, blue axis.
    pub rgb_d2: i64,
    /// Luminance adaptation factor.
    pub fl: i64,
    /// Fourth root of the luminance adaptation factor.
    pub fl_root: i64,
    /// Lightness exponent base.
    pub z: i64,
}

/// The mathematical content of a [`ViewingConditions`]: the same parameters
/// as unbounded integers, used by every contract in the appearance model.
pub struct VcData {
    /// Background luminance factor.
    pub n: int,
    /// Achromatic response to the white point.
    pub aw: int,
    /// Chromatic induction factor of the background.
    pub nbb: int,
    /// Chromatic induction factor, cached for the eccentricity product.
    pub ncb: int,
    /// Surround exponential nonlinearity.
    pub c: int,
    /// Chromatic induction factor of the surround.
    pub nc: int,
    /// Discounted cone response scaling, red axis.
    pub rgb_d0: int,
    /// Discounted cone response scaling, green axis.
    pub rgb_d1: int,
    /// Discounted cone response scaling, blue axis.
    pub rgb_d2: int,
    /// Luminance adaptation factor.
    pub fl: int,
    /// Fourth root of the luminance adaptation factor.
    pub fl_root: int,
    /// Lightness exponent base.
    pub z: int,
}

impl View for ViewingConditions {
    type V = VcData;

    open spec fn view(&self) -> VcData {
        VcData {
            n: self.n as int,
            aw: self.aw as int,
            nbb: self.nbb as int,
            ncb: self.ncb as int,
            c: self.c as int,
            nc: self.nc as int,
            rgb_d0: self.rgb_d0 as int,
            rgb_d1: self.rgb_d1 as int,
            rgb_d2: self.rgb_d2 as int,
            fl: self.fl as int,
            fl_root: self.fl_root as int,
            z: self.z as int,
        }
    }
}

/// Every derived parameter is an in-range fixed-point value.
pub open spec fn vc_ok(vc: ViewingConditions) -> bool {
    &&& fx_ok(vc.n)
    &&& fx_ok(vc.aw)
    &&& fx_ok(vc.nbb)
    &&& fx_ok(vc.ncb)
    &&& fx_ok(vc.c)
    &&& fx_ok(vc.nc)
    &&& fx_ok(vc.rgb_d0)
    &&& fx_ok(vc.rgb_d1)
    &&& fx_ok(vc.rgb_d2)
    &&& fx_ok(vc.fl)
    &&& fx_ok(vc.fl_root)
    &&& fx_ok(vc.z)
}

/// Clamp a fixed-point value into [0, 1].
pub open spec fn spec_clamp01(d: int) -> int {
    if d < 0 {
        0
    } else if d > FX_ONE as int {
        FX_ONE as int
    } else {
        d
    }
}

/// One white-point cone response: the dot product of the white point with one
/// row of the XYZ-to-cone matrix.
pub open spec fn spec_white_response(wx: int, wy: int, wz: int, m0: int, m1: int, m2: int) -> int {
    spec_fx_add(spec_fx_add(spec_fx_mul(wx, m0), spec_fx_mul(wy, m1)), spec_fx_mul(wz, m2))
}

/// One discounted adaptation factor: d scaled to the white response, plus the
/// undiscounted remainder.
pub open spec fn spec_rgb_d(d: int, w: int) -> int {
    spec_fx_add(spec_fx_mul(d, spec_fx_div(FX_100 as int, w)), spec_fx_sub(FX_ONE as int, d))
}

/// One adapted white-point response after the post-adaptation nonlinearity.
pub open spec fn spec_rgb_a(fl: int, rgb_d: int, w: int) -> int {
    let factor = spec_fx_pow(
        spec_fx_div(spec_fx_mul(fl, spec_fx_mul(rgb_d, w)), FX_100 as int),
        FX_0_42 as int,
    );
    spec_fx_div(spec_fx_muli(factor, 400), spec_fx_add(factor, FX_27_13 as int))
}

/// All parameters derived by [`ViewingConditions::make`], as a function of the
/// physical inputs.
#[verifier::opaque]
pub open spec fn spec_make_vc(
    wx: int,
    wy: int,
    wz: int,
    adapting_luminance: int,
    background_lstar: int,
    surround: int,
    discounting_illuminant: bool,
) -> VcData {
    let rw = spec_white_response(wx, wy, wz, FX_X2C_00 as int, FX_X2C_01 as int, FX_X2C_02 as int);
    let gw = spec_white_response(wx, wy, wz, FX_X2C_10 as int, FX_X2C_11 as int, FX_X2C_12 as int);
    let bw = spec_white_response(wx, wy, wz, FX_X2C_20 as int, FX_X2C_21 as int, FX_X2C_22 as int);
    let f = spec_fx_add(FX_0_8 as int, spec_fx_div(surround, FX_10 as int));
    let c = if f >= FX_0_9 as int {
        let amount = spec_fx_muli(spec_fx_sub(f, FX_0_9 as int), 10);
        spec_fx_add(
            spec_fx_mul(spec_fx_sub(FX_ONE as int, amount), FX_0_59 as int),
            spec_fx_mul(amount, FX_0_69 as int),
        )
    } else {
        let amount = spec_fx_muli(spec_fx_sub(f, FX_0_8 as int), 10);
        spec_fx_add(
            spec_fx_mul(spec_fx_sub(FX_ONE as int, amount), FX_0_525 as int),
            spec_fx_mul(amount, FX_0_59 as int),
        )
    };
    let d = if discounting_illuminant {
        FX_ONE as int
    } else {
        spec_clamp01(
            spec_fx_mul(
                f,
                spec_fx_sub(
                    FX_ONE as int,
                    spec_fx_mul(
                        spec_fx_div(FX_ONE as int, FX_3_6 as int),
                        spec_fx_exp(
                            spec_fx_div(
                                spec_fx_sub(-adapting_luminance, FX_42 as int),
                                FX_92 as int,
                            ),
                        ),
                    ),
                ),
            ),
        )
    };
    let k = spec_fx_div(
        FX_ONE as int,
        spec_fx_add(spec_fx_muli(adapting_luminance, 5), FX_ONE as int),
    );
    let k4 = spec_fx_mul(spec_fx_mul(k, k), spec_fx_mul(k, k));
    let k4f = spec_fx_sub(FX_ONE as int, k4);
    let fl = spec_fx_add(
        spec_fx_mul(k4, adapting_luminance),
        spec_fx_mul(
            spec_fx_mul(spec_fx_div(FX_ONE as int, FX_10 as int), spec_fx_mul(k4f, k4f)),
            spec_fx_pow(
                spec_fx_muli(adapting_luminance, 5),
                spec_fx_div(FX_ONE as int, FX_3 as int),
            ),
        ),
    );
    let n = spec_fx_div(spec_y_from_lstar(background_lstar), wy);
    let z = spec_fx_add(FX_1_48 as int, spec_fx_sqrt(n));
    let nbb = spec_fx_div(FX_0_725 as int, spec_fx_pow(n, FX_0_2 as int));
    let rgb_d0 = spec_rgb_d(d, rw);
    let rgb_d1 = spec_rgb_d(d, gw);
    let rgb_d2 = spec_rgb_d(d, bw);
    let aw = spec_fx_mul(
        spec_fx_add(
            spec_fx_add(spec_fx_muli(spec_rgb_a(fl, rgb_d0, rw), 2), spec_rgb_a(fl, rgb_d1, gw)),
            spec_fx_mul(FX_0_05 as int, spec_rgb_a(fl, rgb_d2, bw)),
        ),
        nbb,
    );
    VcData {
        n,
        aw,
        nbb,
        ncb: nbb,
        c,
        nc: f,
        rgb_d0,
        rgb_d1,
        rgb_d2,
        fl,
        fl_root: spec_fx_pow(fl, spec_fx_div(FX_ONE as int, FX_4 as int)),
        z,
    }
}

pub const FX_4: i64 = 17179869184;

impl ViewingConditions {
    /// Derives the adaptation parameters for one environment from the white
    /// point, the adapting luminance, the background lightness, the surround
    /// factor and whether the illuminant is discounted. A pure derivation
    /// with no error conditions: every input yields a finite bundle.
    pub fn make(
        white_point: [i64; 3],
        adapting_luminance: i64,
        background_lstar: i64,
        surround: i64,
        discounting_illuminant: bool,
    ) -> (r: ViewingConditions)
        requires
            fx_ok(white_point[0]),
            fx_ok(white_point[1]),
            fx_ok(white_point[2]),
            fx_ok(adapting_luminance),
            fx_ok(background_lstar),
            fx_ok(surround),
        ensures
            vc_ok(r),
            r@ == spec_make_vc(
                white_point[0] as int,
                white_point[1] as int,
                white_point[2] as int,
                adapting_luminance as int,
                background_lstar as int,
                surround as int,
                discounting_illuminant,
            ),
    {
        proof {
            reveal(spec_make_vc);
        }
        let rw: i64 = fx_add(
            fx_add(fx_mul(white_point[0], FX_X2C_00), fx_mul(white_point[1], FX_X2C_01)),
            fx_mul(white_point[2], FX_X2C_02),
        );
        let gw: i64 = fx_add(
            fx_add(fx_mul(white_point[0], FX_X2C_10), fx_mul(white_point[1], FX_X2C_11)),
            fx_mul(white_point[2], FX_X2C_12),
        );
        let bw: i64 = fx_add(
            fx_add(fx_mul(white_point[0], FX_X2C_20), fx_mul(white_point[1], FX_X2C_21)),
            fx_mul(white_point[2], FX_X2C_22),
        );
        let f: i64 = fx_add(FX_0_8, fx_div(surround, FX_10));
        let c: i64 = if f >= FX_0_9 {
            let amount: i64 = fx_muli(fx_sub(f, FX_0_9), 10);
            fx_add(fx_mul(fx_sub(FX_ONE, amount), FX_0_59), fx_mul(amount, FX_0_69))
        } else {
            let amount: i64 = fx_muli(fx_sub(f, FX_0_8), 10);
            fx_add(fx_mul(fx_sub(FX_ONE, amount), FX_0_525), fx_mul(amount, FX_0_59))
        };
        let d: i64 = if discounting_illuminant {
            FX_ONE
        } else {
            let d0: i64 = fx_mul(
                f,
                fx_sub(
                    FX_ONE,
                    fx_mul(
                        fx_div(FX_ONE, FX_3_6),
                        fx_exp(fx_div(fx_sub(-adapting_luminance, FX_42), FX_92)),
                    ),
                ),
            );
            if d0 < 0 {
                0
            } else if d0 > FX_ONE {
                FX_ONE
            } else {
                d0
            }
        };
        let k: i64 = fx_div(FX_ONE, fx_add(fx_muli(adapting_luminance, 5), FX_ONE));
        let k4: i64 = fx_mul(fx_mul(k, k), fx_mul(k, k));
        let k4f: i64 = fx_sub(FX_ONE, k4);
        let fl: i64 = fx_add(
            fx_mul(k4, adapting_luminance),
            fx_mul(
                fx_mul(fx_div(FX_ONE, FX_10), fx_mul(k4f, k4f)),
                fx_pow(fx_muli(adapting_luminance, 5), fx_div(FX_ONE, FX_3)),
            ),
        );
        let n: i64 = fx_div(y_from_lstar(background_lstar), white_point[1]);
        let z: i64 = fx_add(FX_1_48, fx_sqrt(n));
        let nbb: i64 = fx_div(FX_0_725, fx_pow(n, FX_0_2));
        let rgb_d0: i64 = fx_add(fx_mul(d, fx_div(FX_100, rw)), fx_sub(FX_ONE, d));
        let rgb_d1: i64 = fx_add(fx_mul(d, fx_div(FX_100, gw)), fx_sub(FX_ONE, d));
        let rgb_d2: i64 = fx_add(fx_mul(d, fx_div(FX_100, bw)), fx_sub(FX_ONE, d));
        let fac0: i64 = fx_pow(fx_div(fx_mul(fl, fx_mul(rgb_d0, rw)), FX_100), FX_0_42);
        let fac1: i64 = fx_pow(fx_div(fx_mul(fl, fx_mul(rgb_d1, gw)), FX_100), FX_0_42);
        let fac2: i64 = fx_pow(fx_div(fx_mul(fl, fx_mul(rgb_d2, bw)), FX_100), FX_0_42);
        let ra: i64 = fx_div(fx_muli(fac0, 400), fx_add(fac0, FX_27_13));
        let ga: i64 = fx_div(fx_muli(fac1, 400), fx_add(fac1, FX_27_13));
        let ba: i64 = fx_div(fx_muli(fac2, 400), fx_add(fac2, FX_27_13));
        let aw: i64 = fx_mul(fx_add(fx_add(fx_muli(ra, 2), ga), fx_mul(FX_0_05, ba)), nbb);
        ViewingConditions {
            n,
            aw,
            nbb,
            ncb: nbb,
            c,
            nc: f,
            rgb_d0,
            rgb_d1,
            rgb_d2,
            fl,
            fl_root: fx_pow(fl, fx_div(FX_ONE, FX_4)),
            z,
        }
    }
}

/// The sRGB-calibrated adapting luminance of the standard environment:
/// 200 / pi scaled by the relative luminance of mid gray.
pub open spec fn spec_default_adapting_luminance() -> int {
    spec_fx_div(
        spec_fx_mul(spec_fx_div(FX_200 as int, FX_PI as int), spec_y_from_lstar(FX_50 as int)),
        FX_100 as int,
    )
}

/// The standard environment: D65 white point, mid-gray background, average
/// surround, sRGB-calibrated adapting luminance, no discounting.
pub open spec fn spec_default_vc() -> VcData {
    spec_make_vc(
        FX_WP_X as int,
        FX_WP_Y as int,
        FX_WP_Z as int,
        spec_default_adapting_luminance(),
        FX_50 as int,
        FX_2 as int,
        false,
    )
}

impl Default for ViewingConditions {
    /// The standard viewing environment used for every color <-> HCT
    /// conversion unless a caller supplies its own.
    fn default() -> (r: ViewingConditions)
        ensures
            vc_ok(r),
            r@ == spec_default_vc(),
    {
        let al: i64 = fx_div(fx_mul(fx_div(FX_200, FX_PI), y_from_lstar(FX_50)), FX_100);
        ViewingConditions::make(white_point_d65(), al, FX_50, FX_2, false)
    }
}

} // verus!
