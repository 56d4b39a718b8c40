//! The HCT solver: finds the displayable 8-bit ARGB color whose CAM16 hue and
//! chroma best satisfy a request at a given L* tone, clamping chroma to the
//! maximum achievable at that hue and tone.
//!
//! The search first tries the closed-form inverse at the requested chroma; if
//! the candidate leaves the sRGB cube, it bisects along the gamut boundary in
//! linear RGB space, walking the critical planes where 8-bit rounding changes.
use vstd::prelude::*;

use crate::fixed::{
    fx_add, fx_atan2, fx_cos, fx_div, fx_divi, fx_mul, fx_muli, fx_ok, fx_pow, fx_sin,
    fx_sqrt, fx_sub, s_abs, spec_fx_add, spec_fx_atan2, spec_fx_cos, spec_fx_div, spec_fx_divi,
    spec_fx_mul, spec_fx_muli, spec_fx_pow, spec_fx_sin, spec_fx_sqrt, spec_fx_sub, FX_ONE, FX_PI,
    FX_TWO_PI,
};
use crate::hct::cam16::{
    spec_axis_a, spec_axis_b, spec_e_hue, FX_0_25, FX_0_305, FX_0_29, FX_0_73, FX_0_9, FX_13,
    FX_1_64, FX_3_8, FX_50000, FX_RAD_PER_DEG,
};
use crate::hct::viewing_conditions::{
    spec_default_vc, vc_ok, VcData, ViewingConditions, FX_0_42, FX_27_13, FX_2, FX_400,
};
use crate::utils::color::{
    argb_from_linrgb, argb_from_lstar, spec_argb_from_linrgb, spec_argb_from_lstar,
    spec_delin_cont, spec_y_from_lstar, delin_cont, y_from_lstar, FX_0_055, FX_100, FX_12_92,
    FX_1_055, FX_255, FX_2_4, FX_HALF, FX_LIN_CUT,
};
use crate::utils::math::{sanitize_degrees_double, spec_row_dot, spec_sanitize_degrees};

verus! {

pub const FX_SD_00: i64 = 5157541;

pub const FX_SD_01: i64 = 10263660;

pub const FX_SD_02: i64 = 1200762;

pub const FX_SD_10: i64 = 2530202;

pub const FX_SD_11: i64 = 12792776;

pub const FX_SD_12: i64 = 1404740;

pub const FX_SD_20: i64 = 435797;

pub const FX_SD_21: i64 = 2303913;

pub const FX_SD_22: i64 = 14164545;

pub const FX_LSD_00: i64 = 5897934435988;

pub const FX_LSD_01: i64 = -4726289898126;

pub const FX_LSD_02: i64 = -31261697236;

pub const FX_LSD_10: i64 = -1167440697720;

pub const FX_LSD_11: i64 = 2403713007065;

pub const FX_LSD_12: i64 = -139416677799;

pub const FX_LSD_20: i64 = 8427971203;

pub const FX_LSD_21: i64 = -245559663632;

pub const FX_LSD_22: i64 = 1325956561973;

pub const FX_KR: i64 = 913110047;

pub const FX_KG: i64 = 3071760610;

pub const FX_KB: i64 = 310096639;

pub const FX_0_0001: i64 = 429497;

pub const FX_99_9999: i64 = 429496300103;

pub const FX_0_002: i64 = 8589935;

pub const FX_100_01: i64 = 429539679273;

/// A point in linear RGB space; all three coordinates are in-range
/// fixed-point values.
pub open spec fn pt_ok(p: (i64, i64, i64)) -> bool {
    fx_ok(p.0) && fx_ok(p.1) && fx_ok(p.2)
}

/// An angle folded into [0, 2*pi): eight half-turns are added first, so any
/// angle that occurs in the search folds to its equivalent direction.
pub open spec fn spec_sanitize_radians(angle: int) -> int {
    let a = spec_fx_add(angle, spec_fx_muli(FX_PI as int, 8));
    if a < 0 {
        0
    } else {
        a % (FX_TWO_PI as int)
    }
}

fn sanitize_radians(angle: i64) -> (r: i64)
    requires
        fx_ok(angle),
    ensures
        fx_ok(r),
        r == spec_sanitize_radians(angle as int),
{
    let a: i64 = fx_add(angle, fx_muli(FX_PI, 8));
    if a < 0 {
        0
    } else {
        ((a as u64) % (FX_TWO_PI as u64)) as i64
    }
}

/// The post-adaptation nonlinearity applied to a pre-scaled component, as the
/// boundary search uses it.
pub open spec fn spec_chromatic_adaptation(component: int) -> int {
    let af = spec_fx_pow(s_abs(component), FX_0_42 as int);
    let mag = spec_fx_div(spec_fx_muli(af, 400), spec_fx_add(af, FX_27_13 as int));
    if component < 0 {
        -mag
    } else {
        mag
    }
}

fn chromatic_adaptation(component: i64) -> (r: i64)
    requires
        fx_ok(component),
    ensures
        fx_ok(r),
        r == spec_chromatic_adaptation(component as int),
{
    let ca: i64 = if component < 0 {
        -component
    } else {
        component
    };
    let af: i64 = fx_pow(ca, FX_0_42);
    let mag: i64 = fx_div(fx_muli(af, 400), fx_add(af, FX_27_13));
    if component < 0 {
        -mag
    } else {
        mag
    }
}

/// The CAM16 hue angle, in radians, of a point in linear RGB space.
#[verifier::opaque]
pub open spec fn spec_hue_of(p: (int, int, int)) -> int {
    let sd0 = spec_row_dot(p.0, p.1, p.2, FX_SD_00 as int, FX_SD_01 as int, FX_SD_02 as int);
    let sd1 = spec_row_dot(p.0, p.1, p.2, FX_SD_10 as int, FX_SD_11 as int, FX_SD_12 as int);
    let sd2 = spec_row_dot(p.0, p.1, p.2, FX_SD_20 as int, FX_SD_21 as int, FX_SD_22 as int);
    let ra = spec_chromatic_adaptation(sd0);
    let ga = spec_chromatic_adaptation(sd1);
    let ba = spec_chromatic_adaptation(sd2);
    spec_fx_atan2(spec_axis_b(ra, ga, ba), spec_axis_a(ra, ga, ba))
}

/// View of an executable point as a spec-level integer triple.
pub open spec fn pt_view(p: (i64, i64, i64)) -> (int, int, int) {
    (p.0 as int, p.1 as int, p.2 as int)
}

fn hue_of(p: (i64, i64, i64)) -> (r: i64)
    requires
        pt_ok(p),
    ensures
        fx_ok(r),
        r == spec_hue_of(pt_view(p)),
{
    proof {
        reveal(spec_hue_of);
    }
    let sd0: i64 = fx_add(fx_add(fx_mul(p.0, FX_SD_00), fx_mul(p.1, FX_SD_01)), fx_mul(p.2, FX_SD_02));
    let sd1: i64 = fx_add(fx_add(fx_mul(p.0, FX_SD_10), fx_mul(p.1, FX_SD_11)), fx_mul(p.2, FX_SD_12));
    let sd2: i64 = fx_add(fx_add(fx_mul(p.0, FX_SD_20), fx_mul(p.1, FX_SD_21)), fx_mul(p.2, FX_SD_22));
    let ra: i64 = chromatic_adaptation(sd0);
    let ga: i64 = chromatic_adaptation(sd1);
    let ba: i64 = chromatic_adaptation(sd2);
    let a: i64 = fx_divi(fx_add(fx_sub(fx_muli(ra, 11), fx_muli(ga, 12)), ba), 11);
    let b: i64 = fx_divi(fx_sub(fx_add(ra, ga), fx_muli(ba, 2)), 9);
    fx_atan2(b, a)
}

/// Whether `b` lies between `a` and `c` when walking counterclockwise from
/// `a`.
pub open spec fn spec_cyclic_order(a: int, b: int, c: int) -> bool {
    spec_sanitize_radians(spec_fx_sub(b, a)) < spec_sanitize_radians(spec_fx_sub(c, a))
}

fn are_in_cyclic_order(a: i64, b: i64, c: i64) -> (r: bool)
    requires
        fx_ok(a),
        fx_ok(b),
        fx_ok(c),
    ensures
        r == spec_cyclic_order(a as int, b as int, c as int),
{
    sanitize_radians(fx_sub(b, a)) < sanitize_radians(fx_sub(c, a))
}

/// One coordinate of a point, selected by axis.
pub open spec fn spec_coord(p: (int, int, int), axis: int) -> int {
    if axis == 0 {
        p.0
    } else if axis == 1 {
        p.1
    } else {
        p.2
    }
}

fn coord(p: (i64, i64, i64), axis: u8) -> (r: i64)
    requires
        pt_ok(p),
    ensures
        fx_ok(r),
        r == spec_coord(pt_view(p), axis as int),
{
    if axis == 0 {
        p.0
    } else if axis == 1 {
        p.1
    } else {
        p.2
    }
}

/// The point on the segment from `source` to `target` whose chosen axis
/// coordinate equals `coordinate`.
pub open spec fn spec_set_coordinate(
    source: (int, int, int),
    coordinate: int,
    target: (int, int, int),
    axis: int,
) -> (int, int, int) {
    let t = spec_fx_div(
        spec_fx_sub(coordinate, spec_coord(source, axis)),
        spec_fx_sub(spec_coord(target, axis), spec_coord(source, axis)),
    );
    (
        spec_fx_add(source.0, spec_fx_mul(t, spec_fx_sub(target.0, source.0))),
        spec_fx_add(source.1, spec_fx_mul(t, spec_fx_sub(target.1, source.1))),
        spec_fx_add(source.2, spec_fx_mul(t, spec_fx_sub(target.2, source.2))),
    )
}

fn set_coordinate(source: (i64, i64, i64), coordinate: i64, target: (i64, i64, i64), axis: u8) -> (r: (
    i64,
    i64,
    i64,
))
    requires
        pt_ok(source),
        pt_ok(target),
        fx_ok(coordinate),
    ensures
        pt_ok(r),
        pt_view(r) == spec_set_coordinate(pt_view(source), coordinate as int, pt_view(target), axis as int),
{
    let t: i64 = fx_div(
        fx_sub(coordinate, coord(source, axis)),
        fx_sub(coord(target, axis), coord(source, axis)),
    );
    (
        fx_add(source.0, fx_mul(t, fx_sub(target.0, source.0))),
        fx_add(source.1, fx_mul(t, fx_sub(target.1, source.1))),
        fx_add(source.2, fx_mul(t, fx_sub(target.2, source.2))),
    )
}

/// The nth intersection of the lightness plane with an edge of the RGB cube,
/// if the plane meets that edge: a flag and the point.
#[verifier::opaque]
pub open spec fn spec_nth_vertex(y: int, n: int) -> (bool, (int, int, int)) {
    let coord_a = if n % 4 <= 1 {
        0
    } else {
        FX_100 as int
    };
    let coord_b = if n % 2 == 0 {
        0
    } else {
        FX_100 as int
    };
    if n < 4 {
        let g = coord_a;
        let b = coord_b;
        let r = spec_fx_div(
            spec_fx_sub(y, spec_fx_add(spec_fx_mul(g, FX_KG as int), spec_fx_mul(b, FX_KB as int))),
            FX_KR as int,
        );
        if 0 <= r <= FX_100 as int {
            (true, (r, g, b))
        } else {
            (false, (0, 0, 0))
        }
    } else if n < 8 {
        let b = coord_a;
        let r = coord_b;
        let g = spec_fx_div(
            spec_fx_sub(y, spec_fx_add(spec_fx_mul(r, FX_KR as int), spec_fx_mul(b, FX_KB as int))),
            FX_KG as int,
        );
        if 0 <= g <= FX_100 as int {
            (true, (r, g, b))
        } else {
            (false, (0, 0, 0))
        }
    } else {
        let r = coord_a;
        let g = coord_b;
        let b = spec_fx_div(
            spec_fx_sub(y, spec_fx_add(spec_fx_mul(r, FX_KR as int), spec_fx_mul(g, FX_KG as int))),
            FX_KB as int,
        );
        if 0 <= b <= FX_100 as int {
            (true, (r, g, b))
        } else {
            (false, (0, 0, 0))
        }
    }
}

fn nth_vertex(y: i64, n: i64) -> (r: (bool, (i64, i64, i64)))
    requires
        fx_ok(y),
        0 <= n < 12,
    ensures
        pt_ok(r.1),
        (r.0, pt_view(r.1)) == spec_nth_vertex(y as int, n as int),
{
    proof {
        reveal(spec_nth_vertex);
    }
    let coord_a: i64 = if (n as u64) % 4 <= 1 {
        0
    } else {
        FX_100
    };
    let coord_b: i64 = if (n as u64) % 2 == 0 {
        0
    } else {
        FX_100
    };
    if n < 4 {
        let g: i64 = coord_a;
        let b: i64 = coord_b;
        let rr: i64 = fx_div(fx_sub(y, fx_add(fx_mul(g, FX_KG), fx_mul(b, FX_KB))), FX_KR);
        if 0 <= rr && rr <= FX_100 {
            (true, (rr, g, b))
        } else {
            (false, (0i64, 0i64, 0i64))
        }
    } else if n < 8 {
        let b: i64 = coord_a;
        let rr: i64 = coord_b;
        let g: i64 = fx_div(fx_sub(y, fx_add(fx_mul(rr, FX_KR), fx_mul(b, FX_KB))), FX_KG);
        if 0 <= g && g <= FX_100 {
            (true, (rr, g, b))
        } else {
            (false, (0i64, 0i64, 0i64))
        }
    } else {
        let rr: i64 = coord_a;
        let g: i64 = coord_b;
        let b: i64 = fx_div(fx_sub(y, fx_add(fx_mul(rr, FX_KR), fx_mul(g, FX_KG))), FX_KB);
        if 0 <= b && b <= FX_100 {
            (true, (rr, g, b))
        } else {
            (false, (0i64, 0i64, 0i64))
        }
    }
}

/// State of the segment search: the two candidate endpoints bracketing the
/// target hue, their hues, and the two start-up flags.
pub struct SegState {
    /// Endpoint whose hue precedes the target in cyclic order.
    pub left: (int, int, int),
    /// Endpoint whose hue follows the target in cyclic order.
    pub right: (int, int, int),
    /// Hue of the left endpoint.
    pub left_hue: int,
    /// Hue of the right endpoint.
    pub right_hue: int,
    /// Whether any vertex has been taken yet.
    pub initialized: bool,
    /// Whether the bracket still spans the whole circle.
    pub uncut: bool,
}

/// One step of the segment search: fold the nth vertex into the bracket.
pub open spec fn spec_seg_step(y: int, target_hue: int, st: SegState, n: int) -> SegState {
    let v = spec_nth_vertex(y, n);
    if !v.0 {
        st
    } else {
        let mid_hue = spec_hue_of(v.1);
        if !st.initialized {
            SegState {
                left: v.1,
                right: v.1,
                left_hue: mid_hue,
                right_hue: mid_hue,
                initialized: true,
                uncut: true,
            }
        } else if st.uncut || spec_cyclic_order(st.left_hue, mid_hue, st.right_hue) {
            if spec_cyclic_order(st.left_hue, target_hue, mid_hue) {
                SegState {
                    left: st.left,
                    right: v.1,
                    left_hue: st.left_hue,
                    right_hue: mid_hue,
                    initialized: true,
                    uncut: false,
                }
            } else {
                SegState {
                    left: v.1,
                    right: st.right,
                    left_hue: mid_hue,
                    right_hue: st.right_hue,
                    initialized: true,
                    uncut: false,
                }
            }
        } else {
            st
        }
    }
}

/// The segment search after the first `n` vertices.
pub open spec fn spec_seg_iter(y: int, target_hue: int, n: nat) -> SegState
    decreases n,
{
    if n == 0 {
        SegState {
            left: (0, 0, 0),
            right: (0, 0, 0),
            left_hue: 0,
            right_hue: 0,
            initialized: false,
            uncut: true,
        }
    } else {
        spec_seg_step(y, target_hue, spec_seg_iter(y, target_hue, (n - 1) as nat), n - 1)
    }
}

/// Executable state of the segment search; its view is a [`SegState`].
struct SegStateX {
    left: (i64, i64, i64),
    right: (i64, i64, i64),
    left_hue: i64,
    right_hue: i64,
    initialized: bool,
    uncut: bool,
}

impl View for SegStateX {
    type V = SegState;

    closed spec fn view(&self) -> SegState {
        SegState {
            left: pt_view(self.left),
            right: pt_view(self.right),
            left_hue: self.left_hue as int,
            right_hue: self.right_hue as int,
            initialized: self.initialized,
            uncut: self.uncut,
        }
    }
}

/// All coordinates and hues of the state are in range.
spec fn seg_ok(st: SegStateX) -> bool {
    pt_ok(st.left) && pt_ok(st.right) && fx_ok(st.left_hue) && fx_ok(st.right_hue)
}

#[verifier::rlimit(100)]
#[verifier::spinoff_prover]
fn seg_step(st: SegStateX, y: i64, target_hue: i64, n: i64) -> (r: SegStateX)
    requires
        seg_ok(st),
        fx_ok(y),
        fx_ok(target_hue),
        0 <= n < 12,
    ensures
        seg_ok(r),
        r@ == spec_seg_step(y as int, target_hue as int, st@, n as int),
{
    let v = nth_vertex(y, n);
    if !v.0 {
        return st;
    }
    let mid = v.1;
    let mid_hue: i64 = hue_of(mid);
    if !st.initialized {
        SegStateX {
            left: mid,
            right: mid,
            left_hue: mid_hue,
            right_hue: mid_hue,
            initialized: true,
            uncut: true,
        }
    } else if st.uncut || are_in_cyclic_order(st.left_hue, mid_hue, st.right_hue) {
        if are_in_cyclic_order(st.left_hue, target_hue, mid_hue) {
            SegStateX {
                left: st.left,
                right: mid,
                left_hue: st.left_hue,
                right_hue: mid_hue,
                initialized: true,
                uncut: false,
            }
        } else {
            SegStateX {
                left: mid,
                right: st.right,
                left_hue: mid_hue,
                right_hue: st.right_hue,
                initialized: true,
                uncut: false,
            }
        }
    } else {
        st
    }
}

fn bisect_to_segment(y: i64, target_hue: i64) -> (r: ((i64, i64, i64), (i64, i64, i64)))
    requires
        fx_ok(y),
        fx_ok(target_hue),
    ensures
        pt_ok(r.0),
        pt_ok(r.1),
        pt_view(r.0) == spec_seg_iter(y as int, target_hue as int, 12).left,
        pt_view(r.1) == spec_seg_iter(y as int, target_hue as int, 12).right,
{
    let mut st = SegStateX {
        left: (0, 0, 0),
        right: (0, 0, 0),
        left_hue: 0,
        right_hue: 0,
        initialized: false,
        uncut: true,
    };
    let mut n: i64 = 0;
    while n < 12
        invariant
            0 <= n <= 12,
            seg_ok(st),
            st@ == spec_seg_iter(y as int, target_hue as int, n as nat),
            fx_ok(y),
            fx_ok(target_hue),
        decreases 12 - n,
    {
        st = seg_step(st, y, target_hue, n);
        n = n + 1;
    }
    (st.left, st.right)
}

/// The continuous delinearization of a channel, on the 0..255 scale, used to
/// pick critical planes.
pub open spec fn spec_true_delinearized(v: int) -> int {
    spec_delin_cont(v)
}

/// Floor of a fixed-point value, as a plain integer.
pub open spec fn spec_fix_floor(v: int) -> int {
    v / (FX_ONE as int)
}

/// Ceiling of a fixed-point value, as a plain integer.
pub open spec fn spec_fix_ceil(v: int) -> int {
    -((-v) / (FX_ONE as int))
}

/// The critical plane just below a channel value on the 0..255 scale.
pub open spec fn spec_critical_plane_below(x: int) -> int {
    spec_fix_floor(spec_fx_sub(x, FX_HALF as int))
}

/// The critical plane just above a channel value on the 0..255 scale.
pub open spec fn spec_critical_plane_above(x: int) -> int {
    spec_fix_ceil(spec_fx_sub(x, FX_HALF as int))
}

fn fix_floor(v: i64) -> (r: i64)
    requires
        fx_ok(v),
    ensures
        r == spec_fix_floor(v as int),
        -0x100_0001 <= r <= 0x100_0000,
{
    if v >= 0 {
        let q: u64 = (v as u64) / (FX_ONE as u64);
        proof {
            vstd::arithmetic::div_mod::lemma_div_is_ordered(
                v as int,
                0x100_0000_0000_0000,
                FX_ONE as int,
            );
        }
        q as i64
    } else {
        let mu: u64 = (-v) as u64;
        let q: u64 = mu / (FX_ONE as u64);
        let rem: u64 = mu % (FX_ONE as u64);
        proof {
            vstd::arithmetic::div_mod::lemma_fundamental_div_mod(mu as int, FX_ONE as int);
            vstd::arithmetic::div_mod::lemma_div_is_ordered(
                mu as int,
                0x100_0000_0000_0000,
                FX_ONE as int,
            );
            if rem == 0 {
                vstd::arithmetic::div_mod::lemma_fundamental_div_mod_converse(
                    v as int,
                    FX_ONE as int,
                    -(q as int),
                    0,
                );
            } else {
                vstd::arithmetic::div_mod::lemma_fundamental_div_mod_converse(
                    v as int,
                    FX_ONE as int,
                    -(q as int) - 1,
                    FX_ONE - rem as int,
                );
            }
        }
        if rem == 0 {
            -(q as i64)
        } else {
            -(q as i64) - 1
        }
    }
}

fn fix_ceil(v: i64) -> (r: i64)
    requires
        fx_ok(v),
    ensures
        r == spec_fix_ceil(v as int),
        -0x100_0000 <= r <= 0x100_0001,
{
    if v >= 0 {
        let q: u64 = (v as u64) / (FX_ONE as u64);
        let rem: u64 = (v as u64) % (FX_ONE as u64);
        proof {
            vstd::arithmetic::div_mod::lemma_fundamental_div_mod(v as int, FX_ONE as int);
            vstd::arithmetic::div_mod::lemma_div_is_ordered(
                v as int,
                0x100_0000_0000_0000,
                FX_ONE as int,
            );
            if rem == 0 {
                vstd::arithmetic::div_mod::lemma_fundamental_div_mod_converse(
                    -(v as int),
                    FX_ONE as int,
                    -(q as int),
                    0,
                );
            } else {
                vstd::arithmetic::div_mod::lemma_fundamental_div_mod_converse(
                    -(v as int),
                    FX_ONE as int,
                    -(q as int) - 1,
                    FX_ONE - rem as int,
                );
            }
        }
        if rem == 0 {
            q as i64
        } else {
            (q as i64) + 1
        }
    } else {
        let q: u64 = ((-v) as u64) / (FX_ONE as u64);
        proof {
            vstd::arithmetic::div_mod::lemma_div_is_ordered(
                (-v) as int,
                0x100_0000_0000_0000,
                FX_ONE as int,
            );
        }
        -(q as i64)
    }
}

/// The linear-light value at which an 8-bit channel crosses from `i` to
/// `i + 1`: the inverse transfer function at (i + 1/2) / 255.
pub open spec fn spec_critical_plane(i: int) -> int {
    let s = spec_fx_div(spec_fx_add(spec_fx_muli(FX_ONE as int, i), FX_HALF as int), FX_255 as int);
    if s <= FX_LIN_CUT as int {
        spec_fx_mul(spec_fx_div(s, FX_12_92 as int), FX_100 as int)
    } else {
        spec_fx_mul(
            spec_fx_pow(
                spec_fx_div(spec_fx_add(s, FX_0_055 as int), FX_1_055 as int),
                FX_2_4 as int,
            ),
            FX_100 as int,
        )
    }
}

fn critical_plane(i: i64) -> (r: i64)
    requires
        0 <= i <= 254,
    ensures
        fx_ok(r),
        r == spec_critical_plane(i as int),
{
    let s: i64 = fx_div(fx_add(fx_muli(FX_ONE, i), FX_HALF), FX_255);
    if s <= FX_LIN_CUT {
        fx_mul(fx_div(s, FX_12_92), FX_100)
    } else {
        fx_mul(fx_pow(fx_div(fx_add(s, FX_0_055), FX_1_055), FX_2_4), FX_100)
    }
}

/// State of one axis bisection: bracket endpoints, the left hue, and the two
/// critical-plane indices still in play.
pub struct AxisState {
    /// Endpoint whose hue precedes the target.
    pub left: (int, int, int),
    /// Endpoint whose hue follows the target.
    pub right: (int, int, int),
    /// Hue of the left endpoint.
    pub left_hue: int,
    /// Critical-plane index at the left endpoint.
    pub l_plane: int,
    /// Critical-plane index at the right endpoint.
    pub r_plane: int,
}

/// Floor of the midpoint of two plane indices.
pub open spec fn spec_mid_plane(l: int, r: int) -> int {
    (l + r) / 2
}

/// One bisection step along one axis: probe the midpoint critical plane and
/// keep the half that still brackets the target hue.
pub open spec fn spec_axis_step(target_hue: int, axis: int, st: AxisState) -> AxisState {
    if s_abs(st.r_plane - st.l_plane) <= 1 {
        st
    } else {
        let m_plane = spec_mid_plane(st.l_plane, st.r_plane);
        let idx = if m_plane < 0 {
            0
        } else if m_plane > 254 {
            254
        } else {
            m_plane
        };
        let mid = spec_set_coordinate(st.left, spec_critical_plane(idx), st.right, axis);
        let mid_hue = spec_hue_of(mid);
        if spec_cyclic_order(st.left_hue, target_hue, mid_hue) {
            AxisState {
                left: st.left,
                right: mid,
                left_hue: st.left_hue,
                l_plane: st.l_plane,
                r_plane: m_plane,
            }
        } else {
            AxisState {
                left: mid,
                right: st.right,
                left_hue: mid_hue,
                l_plane: m_plane,
                r_plane: st.r_plane,
            }
        }
    }
}

/// The axis bisection after `i` steps.
pub open spec fn spec_axis_iter(target_hue: int, axis: int, st: AxisState, i: nat) -> AxisState
    decreases i,
{
    if i == 0 {
        st
    } else {
        spec_axis_step(target_hue, axis, spec_axis_iter(target_hue, axis, st, (i - 1) as nat))
    }
}

/// One whole axis of the boundary bisection: skipped when the bracket does
/// not move along this axis, else eight probes of critical planes.
pub open spec fn spec_bisect_axis(
    left: (int, int, int),
    right: (int, int, int),
    left_hue: int,
    target_hue: int,
    axis: int,
) -> ((int, int, int), (int, int, int), int) {
    if spec_coord(left, axis) == spec_coord(right, axis) {
        (left, right, left_hue)
    } else {
        let lc = spec_coord(left, axis);
        let rc = spec_coord(right, axis);
        let l_plane = if lc < rc {
            spec_critical_plane_below(spec_true_delinearized(lc))
        } else {
            spec_critical_plane_above(spec_true_delinearized(lc))
        };
        let r_plane = if lc < rc {
            spec_critical_plane_above(spec_true_delinearized(rc))
        } else {
            spec_critical_plane_below(spec_true_delinearized(rc))
        };
        let st = spec_axis_iter(
            target_hue,
            axis,
            AxisState { left, right, left_hue, l_plane, r_plane },
            8,
        );
        (st.left, st.right, st.left_hue)
    }
}

#[verifier::rlimit(100)]
#[verifier::spinoff_prover]
fn bisect_axis(left0: (i64, i64, i64), right0: (i64, i64, i64), left_hue0: i64, target_hue: i64, axis: u8) -> (r: (
    (i64, i64, i64),
    (i64, i64, i64),
    i64,
))
    requires
        pt_ok(left0),
        pt_ok(right0),
        fx_ok(left_hue0),
        fx_ok(target_hue),
    ensures
        pt_ok(r.0),
        pt_ok(r.1),
        fx_ok(r.2),
        (pt_view(r.0), pt_view(r.1), r.2 as int) == spec_bisect_axis(
            pt_view(left0),
            pt_view(right0),
            left_hue0 as int,
            target_hue as int,
            axis as int,
        ),
{
    let lc: i64 = coord(left0, axis);
    let rc: i64 = coord(right0, axis);
    if lc == rc {
        return (left0, right0, left_hue0);
    }
    let l_plane0: i64 = if lc < rc {
        fix_floor(fx_sub(delin_cont(lc), FX_HALF))
    } else {
        fix_ceil(fx_sub(delin_cont(lc), FX_HALF))
    };
    let r_plane0: i64 = if lc < rc {
        fix_ceil(fx_sub(delin_cont(rc), FX_HALF))
    } else {
        fix_floor(fx_sub(delin_cont(rc), FX_HALF))
    };
    let mut left = left0;
    let mut right = right0;
    let mut left_hue = left_hue0;
    let mut l_plane = l_plane0;
    let mut r_plane = r_plane0;
    let ghost st0 = AxisState {
        left: pt_view(left0),
        right: pt_view(right0),
        left_hue: left_hue0 as int,
        l_plane: l_plane0 as int,
        r_plane: r_plane0 as int,
    };
    let mut i: i64 = 0;
    while i < 8
        invariant
            0 <= i <= 8,
            pt_ok(left),
            pt_ok(right),
            fx_ok(left_hue),
            fx_ok(target_hue),
            -0x100_0001 <= l_plane <= 0x100_0001,
            -0x100_0001 <= r_plane <= 0x100_0001,
            spec_axis_iter(target_hue as int, axis as int, st0, i as nat) == (AxisState {
                left: pt_view(left),
                right: pt_view(right),
                left_hue: left_hue as int,
                l_plane: l_plane as int,
                r_plane: r_plane as int,
            }),
        decreases 8 - i,
    {
        let diff: i64 = if r_plane >= l_plane {
            r_plane - l_plane
        } else {
            l_plane - r_plane
        };
        if diff > 1 {
            let sum: i64 = l_plane + r_plane;
            let m_plane: i64 = if sum >= 0 {
                ((sum as u64) / 2) as i64
            } else {
                proof {
                    vstd::arithmetic::div_mod::lemma_fundamental_div_mod((-(sum as int)) + 1, 2);
                    vstd::arithmetic::div_mod::lemma_fundamental_div_mod(sum as int, 2);
                }
                -((((-sum) as u64 + 1) / 2) as i64)
            };
            let idx: i64 = if m_plane < 0 {
                0
            } else if m_plane > 254 {
                254
            } else {
                m_plane
            };
            let mid = set_coordinate(left, critical_plane(idx), right, axis);
            let mid_hue: i64 = hue_of(mid);
            if are_in_cyclic_order(left_hue, target_hue, mid_hue) {
                right = mid;
                r_plane = m_plane;
            } else {
                left = mid;
                left_hue = mid_hue;
                l_plane = m_plane;
            }
        }
        i = i + 1;
    }
    (left, right, left_hue)
}

/// The midpoint of two points, coordinate by coordinate.
pub open spec fn spec_midpoint(a: (int, int, int), b: (int, int, int)) -> (int, int, int) {
    (
        spec_fx_divi(spec_fx_add(a.0, b.0), 2),
        spec_fx_divi(spec_fx_add(a.1, b.1), 2),
        spec_fx_divi(spec_fx_add(a.2, b.2), 2),
    )
}

/// The point on the gamut boundary, in linear RGB, whose lightness plane is
/// `y` and whose hue is the target: the segment search narrowed by per-axis
/// critical-plane bisection.
pub open spec fn spec_bisect_to_limit(y: int, target_hue: int) -> (int, int, int) {
    let seg = spec_seg_iter(y, target_hue, 12);
    let lh = spec_hue_of(seg.left);
    let a0 = spec_bisect_axis(seg.left, seg.right, lh, target_hue, 0);
    let a1 = spec_bisect_axis(a0.0, a0.1, a0.2, target_hue, 1);
    let a2 = spec_bisect_axis(a1.0, a1.1, a1.2, target_hue, 2);
    spec_midpoint(a2.0, a2.1)
}

fn bisect_to_limit(y: i64, target_hue: i64) -> (r: (i64, i64, i64))
    requires
        fx_ok(y),
        fx_ok(target_hue),
    ensures
        pt_ok(r),
        pt_view(r) == spec_bisect_to_limit(y as int, target_hue as int),
{
    let seg = bisect_to_segment(y, target_hue);
    let lh: i64 = hue_of(seg.0);
    let a0 = bisect_axis(seg.0, seg.1, lh, target_hue, 0);
    let a1 = bisect_axis(a0.0, a0.1, a0.2, target_hue, 1);
    let a2 = bisect_axis(a1.0, a1.1, a1.2, target_hue, 2);
    (
        fx_divi(fx_add(a2.0.0, a2.1.0), 2),
        fx_divi(fx_add(a2.0.1, a2.1.1), 2),
        fx_divi(fx_add(a2.0.2, a2.1.2), 2),
    )
}

/// The inverse of the solver's chromatic adaptation, back to pre-scaled
/// components.
pub open spec fn spec_inverse_ca(adapted: int) -> int {
    let aa = s_abs(adapted);
    let base0 = spec_fx_div(spec_fx_mul(FX_27_13 as int, aa), spec_fx_sub(FX_400 as int, aa));
    let base = if base0 < 0 {
        0
    } else {
        base0
    };
    let mag = spec_fx_pow(base, spec_fx_div(FX_ONE as int, FX_0_42 as int));
    if adapted < 0 {
        -mag
    } else {
        mag
    }
}

fn inverse_ca(adapted: i64) -> (r: i64)
    requires
        fx_ok(adapted),
    ensures
        fx_ok(r),
        r == spec_inverse_ca(adapted as int),
{
    let aa: i64 = if adapted < 0 {
        -adapted
    } else {
        adapted
    };
    let base0: i64 = fx_div(fx_mul(FX_27_13, aa), fx_sub(FX_400, aa));
    let base: i64 = if base0 < 0 {
        0
    } else {
        base0
    };
    let mag: i64 = fx_pow(base, fx_div(FX_ONE, FX_0_42));
    if adapted < 0 {
        -mag
    } else {
        mag
    }
}

/// One Newton round of the closed-form search. The first component says how
/// the round ended: 0 to continue with the updated lightness, 1 with a
/// candidate inside the gamut (the second component), 2 with no candidate.
#[verifier::opaque]
pub open spec fn spec_frbj_body(
    p1: int,
    h_sin: int,
    h_cos: int,
    t_inner: int,
    chroma: int,
    y: int,
    vc: VcData,
    j: int,
    last: bool,
) -> (int, (int, int, int), int) {
    let j_norm = spec_fx_divi(j, 100);
    let alpha = if chroma == 0 || j == 0 {
        0
    } else {
        spec_fx_div(chroma, spec_fx_sqrt(j_norm))
    };
    let t = spec_fx_pow(
        spec_fx_mul(alpha, t_inner),
        spec_fx_div(FX_ONE as int, FX_0_9 as int),
    );
    let ac = spec_fx_mul(
        vc.aw,
        spec_fx_pow(j_norm, spec_fx_div(FX_ONE as int, spec_fx_mul(vc.c, vc.z))),
    );
    let p2 = spec_fx_div(ac, vc.nbb);
    let gamma = spec_fx_div(
        spec_fx_mul(spec_fx_muli(spec_fx_add(p2, FX_0_305 as int), 23), t),
        spec_fx_add(
            spec_fx_muli(p1, 23),
            spec_fx_add(
                spec_fx_muli(spec_fx_mul(t, h_cos), 11),
                spec_fx_muli(spec_fx_mul(t, h_sin), 108),
            ),
        ),
    );
    let a = spec_fx_mul(gamma, h_cos);
    let b = spec_fx_mul(gamma, h_sin);
    let r_a = spec_fx_divi(
        spec_fx_add(
            spec_fx_add(spec_fx_muli(p2, 460), spec_fx_muli(a, 451)),
            spec_fx_muli(b, 288),
        ),
        1403,
    );
    let g_a = spec_fx_divi(
        spec_fx_sub(
            spec_fx_sub(spec_fx_muli(p2, 460), spec_fx_muli(a, 891)),
            spec_fx_muli(b, 261),
        ),
        1403,
    );
    let b_a = spec_fx_divi(
        spec_fx_sub(
            spec_fx_sub(spec_fx_muli(p2, 460), spec_fx_muli(a, 220)),
            spec_fx_muli(b, 6300),
        ),
        1403,
    );
    let rc = spec_inverse_ca(r_a);
    let gc = spec_inverse_ca(g_a);
    let bc = spec_inverse_ca(b_a);
    let l0 = spec_row_dot(rc, gc, bc, FX_LSD_00 as int, FX_LSD_01 as int, FX_LSD_02 as int);
    let l1 = spec_row_dot(rc, gc, bc, FX_LSD_10 as int, FX_LSD_11 as int, FX_LSD_12 as int);
    let l2 = spec_row_dot(rc, gc, bc, FX_LSD_20 as int, FX_LSD_21 as int, FX_LSD_22 as int);
    if l0 < 0 || l1 < 0 || l2 < 0 {
        (2, (0, 0, 0), 0)
    } else {
        let fnj = spec_row_dot(l0, l1, l2, FX_KR as int, FX_KG as int, FX_KB as int);
        if fnj <= 0 {
            (2, (0, 0, 0), 0)
        } else if last || s_abs(spec_fx_sub(fnj, y)) < FX_0_002 as int {
            if l0 > FX_100_01 as int || l1 > FX_100_01 as int || l2 > FX_100_01 as int {
                (2, (0, 0, 0), 0)
            } else {
                (1, (l0, l1, l2), 0)
            }
        } else {
            let j_next = spec_fx_sub(
                j,
                spec_fx_div(spec_fx_mul(spec_fx_sub(fnj, y), j), spec_fx_muli(fnj, 2)),
            );
            (0, (0, 0, 0), j_next)
        }
    }
}

/// All Newton rounds of the closed-form search from round `round` on.
pub open spec fn spec_frbj_round(
    p1: int,
    h_sin: int,
    h_cos: int,
    t_inner: int,
    chroma: int,
    y: int,
    vc: VcData,
    j: int,
    round: nat,
) -> (bool, (int, int, int))
    decreases 5 - round,
{
    if round >= 5 {
        (false, (0, 0, 0))
    } else {
        let b = spec_frbj_body(p1, h_sin, h_cos, t_inner, chroma, y, vc, j, round == 4);
        if b.0 == 1 {
            (true, b.1)
        } else if b.0 == 2 {
            (false, (0, 0, 0))
        } else {
            spec_frbj_round(p1, h_sin, h_cos, t_inner, chroma, y, vc, b.2, round + 1)
        }
    }
}

/// The closed-form search for a color with the requested hue, chroma and
/// lightness plane, run from its Newton starting point.
pub open spec fn spec_find_result_by_j(hue_radians: int, chroma: int, y: int, vc: VcData) -> (
    bool,
    (int, int, int),
) {
    let j0 = spec_fx_muli(spec_fx_sqrt(y), 11);
    let t_inner = spec_fx_div(
        FX_ONE as int,
        spec_fx_pow(
            spec_fx_sub(FX_1_64 as int, spec_fx_pow(FX_0_29 as int, vc.n)),
            FX_0_73 as int,
        ),
    );
    let e_hue = spec_e_hue(hue_radians);
    let p1 = spec_fx_mul(
        spec_fx_mul(e_hue, spec_fx_div(FX_50000 as int, FX_13 as int)),
        spec_fx_mul(vc.nc, vc.ncb),
    );
    spec_frbj_round(
        p1,
        spec_fx_sin(hue_radians),
        spec_fx_cos(hue_radians),
        t_inner,
        chroma,
        y,
        vc,
        j0,
        0,
    )
}

#[verifier::rlimit(100)]
#[verifier::spinoff_prover]
fn frbj_body(
    p1: i64,
    h_sin: i64,
    h_cos: i64,
    t_inner: i64,
    chroma: i64,
    y: i64,
    conditions: &ViewingConditions,
    j: i64,
    last: bool,
) -> (r: (u8, (i64, i64, i64), i64))
    requires
        fx_ok(p1),
        fx_ok(h_sin),
        fx_ok(h_cos),
        fx_ok(t_inner),
        fx_ok(chroma),
        fx_ok(y),
        fx_ok(j),
        vc_ok(*conditions),
    ensures
        pt_ok(r.1),
        fx_ok(r.2),
        (r.0 as int, pt_view(r.1), r.2 as int) == spec_frbj_body(
            p1 as int,
            h_sin as int,
            h_cos as int,
            t_inner as int,
            chroma as int,
            y as int,
            conditions@,
            j as int,
            last,
        ),
{
    proof {
        reveal(spec_frbj_body);
    }
    let vc = *conditions;
    let j_norm: i64 = fx_divi(j, 100);
    let alpha: i64 = if chroma == 0 || j == 0 {
        0
    } else {
        fx_div(chroma, fx_sqrt(j_norm))
    };
    let t: i64 = fx_pow(fx_mul(alpha, t_inner), fx_div(FX_ONE, FX_0_9));
    let ac: i64 = fx_mul(vc.aw, fx_pow(j_norm, fx_div(FX_ONE, fx_mul(vc.c, vc.z))));
    let p2: i64 = fx_div(ac, vc.nbb);
    let gamma: i64 = fx_div(
        fx_mul(fx_muli(fx_add(p2, FX_0_305), 23), t),
        fx_add(
            fx_muli(p1, 23),
            fx_add(fx_muli(fx_mul(t, h_cos), 11), fx_muli(fx_mul(t, h_sin), 108)),
        ),
    );
    let a: i64 = fx_mul(gamma, h_cos);
    let b: i64 = fx_mul(gamma, h_sin);
    let r_a: i64 = fx_divi(
        fx_add(fx_add(fx_muli(p2, 460), fx_muli(a, 451)), fx_muli(b, 288)),
        1403,
    );
    let g_a: i64 = fx_divi(
        fx_sub(fx_sub(fx_muli(p2, 460), fx_muli(a, 891)), fx_muli(b, 261)),
        1403,
    );
    let b_a: i64 = fx_divi(
        fx_sub(fx_sub(fx_muli(p2, 460), fx_muli(a, 220)), fx_muli(b, 6300)),
        1403,
    );
    let rc: i64 = inverse_ca(r_a);
    let gc: i64 = inverse_ca(g_a);
    let bc: i64 = inverse_ca(b_a);
    let l0: i64 = fx_add(fx_add(fx_mul(rc, FX_LSD_00), fx_mul(gc, FX_LSD_01)), fx_mul(bc, FX_LSD_02));
    let l1: i64 = fx_add(fx_add(fx_mul(rc, FX_LSD_10), fx_mul(gc, FX_LSD_11)), fx_mul(bc, FX_LSD_12));
    let l2: i64 = fx_add(fx_add(fx_mul(rc, FX_LSD_20), fx_mul(gc, FX_LSD_21)), fx_mul(bc, FX_LSD_22));
    if l0 < 0 || l1 < 0 || l2 < 0 {
        return (2u8, (0i64, 0i64, 0i64), 0i64);
    }
    let fnj: i64 = fx_add(fx_add(fx_mul(l0, FX_KR), fx_mul(l1, FX_KG)), fx_mul(l2, FX_KB));
    if fnj <= 0 {
        return (2u8, (0i64, 0i64, 0i64), 0i64);
    }
    let diff: i64 = fx_sub(fnj, y);
    let diff_mag: i64 = if diff < 0 {
        -diff
    } else {
        diff
    };
    if last || diff_mag < FX_0_002 {
        if l0 > FX_100_01 || l1 > FX_100_01 || l2 > FX_100_01 {
            return (2u8, (0i64, 0i64, 0i64), 0i64);
        }
        return (1u8, (l0, l1, l2), 0i64);
    }
    let j_next: i64 = fx_sub(j, fx_div(fx_mul(diff, j), fx_muli(fnj, 2)));
    (0u8, (0i64, 0i64, 0i64), j_next)
}

fn find_result_by_j(hue_radians: i64, chroma: i64, y: i64, conditions: &ViewingConditions) -> (r: (
    bool,
    (i64, i64, i64),
))
    requires
        fx_ok(hue_radians),
        fx_ok(chroma),
        fx_ok(y),
        vc_ok(*conditions),
    ensures
        pt_ok(r.1),
        (r.0, pt_view(r.1)) == spec_find_result_by_j(
            hue_radians as int,
            chroma as int,
            y as int,
            conditions@,
        ),
{
    let vc = *conditions;
    let mut j: i64 = fx_muli(fx_sqrt(y), 11);
    let t_inner: i64 = fx_div(FX_ONE, fx_pow(fx_sub(FX_1_64, fx_pow(FX_0_29, vc.n)), FX_0_73));
    let e_hue: i64 = fx_mul(FX_0_25, fx_add(fx_cos(fx_add(hue_radians, FX_2)), FX_3_8));
    let p1: i64 = fx_mul(fx_mul(e_hue, fx_div(FX_50000, FX_13)), fx_mul(vc.nc, vc.ncb));
    let h_sin: i64 = fx_sin(hue_radians);
    let h_cos: i64 = fx_cos(hue_radians);
    let mut round: i64 = 0;
    while round < 5
        invariant
            0 <= round <= 5,
            fx_ok(j),
            fx_ok(p1),
            fx_ok(h_sin),
            fx_ok(h_cos),
            fx_ok(t_inner),
            fx_ok(chroma),
            fx_ok(y),
            vc_ok(vc),
            vc == *conditions,
            spec_frbj_round(
                p1 as int,
                h_sin as int,
                h_cos as int,
                t_inner as int,
                chroma as int,
                y as int,
                vc@,
                j as int,
                round as nat,
            ) == spec_frbj_round(
                p1 as int,
                h_sin as int,
                h_cos as int,
                t_inner as int,
                chroma as int,
                y as int,
                vc@,
                spec_fx_muli(spec_fx_sqrt(y as int), 11),
                0,
            ),
            p1 == spec_fx_mul(
                spec_fx_mul(
                    spec_e_hue(hue_radians as int),
                    spec_fx_div(FX_50000 as int, FX_13 as int),
                ),
                spec_fx_mul(vc@.nc, vc@.ncb),
            ),
            h_sin == spec_fx_sin(hue_radians as int),
            h_cos == spec_fx_cos(hue_radians as int),
            t_inner == spec_fx_div(
                FX_ONE as int,
                spec_fx_pow(
                    spec_fx_sub(FX_1_64 as int, spec_fx_pow(FX_0_29 as int, vc@.n)),
                    FX_0_73 as int,
                ),
            ),
        decreases 5 - round,
    {
        let b = frbj_body(p1, h_sin, h_cos, t_inner, chroma, y, conditions, j, round == 4);
        if b.0 == 1 {
            return (true, b.1);
        }
        if b.0 == 2 {
            return (false, (0i64, 0i64, 0i64));
        }
        j = b.2;
        round = round + 1;
    }
    (false, (0i64, 0i64, 0i64))
}

/// Tone clamped into [0, 100].
pub open spec fn spec_clamp_tone(tone: int) -> int {
    if tone < 0 {
        0
    } else if tone > FX_100 as int {
        FX_100 as int
    } else {
        tone
    }
}

/// The chromatic arm of the solver: the closed-form candidate when it is
/// displayable, else the gamut-boundary color of the requested hue.
#[verifier::opaque]
pub open spec fn spec_solve_chromatic(hue_s: int, chroma: int, tone_c: int) -> (int, int, int) {
    let hue_radians = spec_fx_mul(hue_s, FX_RAD_PER_DEG as int);
    let y = spec_y_from_lstar(tone_c);
    let vc = spec_default_vc();
    let exact = spec_find_result_by_j(hue_radians, chroma, y, vc);
    if exact.0 {
        spec_argb_from_linrgb(exact.1.0, exact.1.1, exact.1.2)
    } else {
        let lin = spec_bisect_to_limit(y, hue_radians);
        spec_argb_from_linrgb(lin.0, lin.1, lin.2)
    }
}

/// The ARGB channels the solver returns for a request: a gray of the tone
/// when the request is achromatic or at the tone extremes; else the
/// closed-form candidate when it is displayable, and the gamut-boundary color
/// of the requested hue otherwise.
pub open spec fn spec_solve(hue: int, chroma: int, tone: int) -> (int, int, int) {
    let tone_c = spec_clamp_tone(tone);
    if chroma < FX_0_0001 as int || tone_c < FX_0_0001 as int || tone_c > FX_99_9999 as int {
        let w = spec_argb_from_lstar(tone_c);
        (w, w, w)
    } else {
        spec_solve_chromatic(spec_sanitize_degrees(hue), chroma, tone_c)
    }
}

#[verifier::rlimit(100)]
#[verifier::spinoff_prover]
fn solve_chromatic(hue_s: i64, chroma: i64, tone_c: i64) -> (r: [u8; 4])
    requires
        fx_ok(hue_s),
        fx_ok(chroma),
        fx_ok(tone_c),
    ensures
        r[0] == 255,
        (r[1] as int, r[2] as int, r[3] as int) == spec_solve_chromatic(
            hue_s as int,
            chroma as int,
            tone_c as int,
        ),
{
    proof {
        reveal(spec_solve_chromatic);
    }
    let hue_radians: i64 = fx_mul(hue_s, FX_RAD_PER_DEG);
    let y: i64 = y_from_lstar(tone_c);
    let conditions = ViewingConditions::default();
    let exact = find_result_by_j(hue_radians, chroma, y, &conditions);
    if exact.0 {
        argb_from_linrgb([exact.1.0, exact.1.1, exact.1.2])
    } else {
        let lin = bisect_to_limit(y, hue_radians);
        argb_from_linrgb([lin.0, lin.1, lin.2])
    }
}

/// Finds the displayable ARGB color with the requested hue, chroma and tone.
/// Hue is wrapped into [0, 360) and tone clamped into [0, 100]; when the
/// requested chroma is not achievable at that hue and tone, the color of the
/// maximum achievable chroma is returned instead.
#[verifier::rlimit(100)]
#[verifier::spinoff_prover]
pub fn solve_to_int(hue_degrees: i64, chroma: i64, lstar: i64) -> (r: [u8; 4])
    requires
        fx_ok(hue_degrees),
        fx_ok(chroma),
        fx_ok(lstar),
    ensures
        r[0] == 255,
        (r[1] as int, r[2] as int, r[3] as int) == spec_solve(
            hue_degrees as int,
            chroma as int,
            lstar as int,
        ),
{
    let tone_c: i64 = if lstar < 0 {
        0
    } else if lstar > FX_100 {
        FX_100
    } else {
        lstar
    };
    if chroma < FX_0_0001 || tone_c < FX_0_0001 || tone_c > FX_99_9999 {
        return argb_from_lstar(tone_c);
    }
    let hue_s: i64 = sanitize_degrees_double(hue_degrees);
    solve_chromatic(hue_s, chroma, tone_c)
}

/// Determinism: the solver is a function of its inputs alone, so two
/// results of one request are byte-identical.
pub proof fn lemma_solver_deterministic(
    hue: int,
    chroma: int,
    tone: int,
    r1: (int, int, int),
    r2: (int, int, int),
)
    requires
        r1 == spec_solve(hue, chroma, tone),
        r2 == spec_solve(hue, chroma, tone),
    ensures
        r1 == r2,
{
}

#[verifier::rlimit(100)]
#[verifier::spinoff_prover]
proof fn lemma_gray_of_tone_zero()
    ensures
        spec_argb_from_lstar(0) == 0,
{
    broadcast use vstd::arithmetic::mul::group_mul_basics;
    broadcast use vstd::arithmetic::div_mod::group_div_basics;

    assert(68719476736int * 0x1_0000_0000 / 498216206336 == 592409282) by (nonlinear_arith);
    assert(crate::fixed::spec_fx_div(
        crate::utils::color::FX_16 as int,
        crate::utils::color::FX_116 as int,
    ) == 592409282);
    assert(592409282int * 592409282 / 0x1_0000_0000 == 81711625) by (nonlinear_arith);
    assert(81711625int * 592409282 / 0x1_0000_0000 == 11270568) by (nonlinear_arith);
    assert(592409282int * 116 == 68719476712) by (nonlinear_arith);
    assert(24int * 0x1_0000_0000 / 3879628051190 == 0) by (nonlinear_arith);
    assert(crate::utils::color::spec_lab_invf(592409282) == 0);
    assert(crate::utils::color::spec_y_from_lstar(0) == 0);
    assert(spec_delin_cont(0) == 0);
}

#[verifier::rlimit(100)]
#[verifier::spinoff_prover]
proof fn lemma_gray_of_tone_hundred()
    ensures
        spec_argb_from_lstar(FX_100 as int) == 255,
{
    broadcast use vstd::arithmetic::mul::group_mul_basics;
    broadcast use vstd::arithmetic::div_mod::group_div_basics;

    reveal_with_fuel(crate::fixed::ln_series, 15);
    reveal_with_fuel(crate::fixed::exp_series, 20);
    assert(498216206336int * 0x1_0000_0000 / 498216206336 == 0x1_0000_0000) by (nonlinear_arith);
    assert(0x1_0000_0000int * 0x1_0000_0000 / 0x1_0000_0000 == 0x1_0000_0000)
        by (nonlinear_arith);
    assert(crate::fixed::spec_fx_div(
        crate::utils::color::FX_116 as int,
        crate::utils::color::FX_116 as int,
    ) == crate::fixed::FX_ONE as int);
    assert(crate::utils::color::spec_lab_invf(crate::fixed::FX_ONE as int)
        == crate::fixed::FX_ONE as int);
    assert(crate::fixed::spec_fx_muli(crate::fixed::FX_ONE as int, 100) == FX_100 as int);
    assert(crate::utils::color::spec_y_from_lstar(FX_100 as int) == FX_100 as int);
    assert(429496729600int * 0x1_0000_0000 / 429496729600 == 0x1_0000_0000) by (nonlinear_arith);
    assert(crate::fixed::spec_fx_div(FX_100 as int, FX_100 as int) == crate::fixed::FX_ONE as int);
    assert(crate::fixed::spec_fx_ln(crate::fixed::FX_ONE as int) == 0);
    assert(2977044472int / 2 == 1488522236) by (nonlinear_arith);
    assert(1488522236int / 2977044472 == 0) by (nonlinear_arith);
    assert(crate::fixed::spec_fx_exp(0) == crate::fixed::FX_ONE as int);
    assert(crate::fixed::spec_fx_pow(
        crate::fixed::FX_ONE as int,
        crate::fixed::spec_fx_div(crate::fixed::FX_ONE as int, FX_2_4 as int),
    ) == crate::fixed::FX_ONE as int);
    assert(4531190497int * 0x1_0000_0000 / 0x1_0000_0000 == 4531190497) by (nonlinear_arith);
    assert(crate::fixed::spec_fx_mul(FX_1_055 as int, crate::fixed::FX_ONE as int)
        == FX_1_055 as int);
    assert(0x1_0000_0000int * 1095216660480 / 0x1_0000_0000 == 1095216660480)
        by (nonlinear_arith);
    assert(spec_delin_cont(FX_100 as int) == FX_255 as int);
    assert((1095216660480int + 2147483648) / 0x1_0000_0000 == 255) by (nonlinear_arith);
    assert(crate::utils::color::spec_round_to_u8(FX_255 as int) == 255);
}

/// Tone extremes: a tone at or below zero always solves to black and a tone
/// at or above one hundred always solves to white, whatever the requested
/// hue and chroma. Together with [`solve_to_int`]'s alpha clause this makes
/// the answers exactly opaque black and opaque white.
#[verifier::rlimit(100)]
#[verifier::spinoff_prover]
pub proof fn lemma_solver_extremes(hue: int, chroma: int, tone: int)
    ensures
        tone <= 0 ==> spec_solve(hue, chroma, tone) == (0int, 0int, 0int),
        tone >= FX_100 as int ==> spec_solve(hue, chroma, tone) == (255int, 255int, 255int),
{
    lemma_gray_of_tone_zero();
    lemma_gray_of_tone_hundred();
}

} // verus!
