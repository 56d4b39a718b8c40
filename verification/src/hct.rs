//! A color system built on CAM16 hue and chroma and on L* from L*a*b*.
//!
//! L* is linear in human perception, which links the color system to
//! contrast and accessibility: equal steps in HCT tone are equal steps in
//! perceived lightness.
use vstd::prelude::*;

pub mod cam16;
pub mod hct_solver;
pub mod viewing_conditions;

use crate::fixed::fx_ok;
use crate::hct::cam16::{spec_cam_from_argb, Cam16};
use crate::hct::hct_solver::{solve_to_int, spec_solve};
use crate::utils::color::{lstar_from_argb, spec_lstar_from_argb};

verus! {

/// A color in hue, chroma and tone, memoized together with the 8-bit ARGB
/// color it denotes. The three scalars and the cached color are always
/// mutually consistent: every constructor and mutator re-derives all four
/// fields from the solved color at once.
#[derive(Clone, Copy, Debug)]
pub struct Hct {
    /// Hue in degrees, re-derived from the cached color.
    pub internal_hue: i64,
    /// Chroma actually realized by the cached color.
    pub internal_chroma: i64,
    /// Tone (L*) of the cached color.
    pub internal_tone: i64,
    /// The 8-bit ARGB color this value denotes.
    pub argb: [u8; 4],
}

/// The memoization invariant: the three scalars agree exactly with the CAM16
/// hue and chroma and the L* tone of the cached color, and sit in the data
/// model's ranges — hue in [0, 360), chroma at least zero, tone in [0, 100].
pub open spec fn hct_ok(h: Hct) -> bool {
    let cam = spec_cam_from_argb(h.argb[1] as int, h.argb[2] as int, h.argb[3] as int);
    &&& h.internal_hue == cam.hue
    &&& h.internal_chroma == cam.chroma
    &&& h.internal_tone == spec_lstar_from_argb(
        h.argb[1] as int,
        h.argb[2] as int,
        h.argb[3] as int,
    )
    &&& 0 <= h.internal_hue < crate::utils::math::FX_DEG_360
    &&& h.internal_chroma >= 0
    &&& 0 <= h.internal_tone <= crate::utils::color::FX_100
    &&& fx_ok(h.internal_hue)
    &&& fx_ok(h.internal_chroma)
    &&& fx_ok(h.internal_tone)
}

/// Decomposition of pure black: a well-formed HCT value whose cached color
/// is opaque black measures hue, chroma and tone as exactly zero.
pub proof fn lemma_black_decomposition(h: Hct)
    requires
        hct_ok(h),
        h.argb[1] == 0,
        h.argb[2] == 0,
        h.argb[3] == 0,
    ensures
        h.internal_hue == 0,
        h.internal_chroma == 0,
        h.internal_tone == 0,
{
    crate::hct::cam16::lemma_cam_from_argb_black();
    crate::utils::color::lemma_lstar_black_is_zero();
}

impl Hct {
    fn set_internal_state(&mut self, argb: [u8; 4])
        ensures
            hct_ok(*final(self)),
            final(self).argb == argb,
    {
        self.argb = argb;
        let cam = Cam16::from_argb(argb);
        proof {
            let xyz = crate::utils::color::spec_xyz_from_argb(
                argb[1] as int,
                argb[2] as int,
                argb[3] as int,
            );
            crate::hct::cam16::lemma_cam_ranges(
                xyz.0,
                xyz.1,
                xyz.2,
                crate::hct::viewing_conditions::spec_default_vc(),
            );
        }
        self.internal_hue = cam.hue();
        self.internal_chroma = cam.chroma();
        self.internal_tone = lstar_from_argb(argb);
    }

    /// Creates an HCT color from hue, chroma and tone. Out-of-range hue and
    /// tone are corrected, and the chroma actually realized may be lower than
    /// requested: it is whatever the solver achieved at this hue and tone.
    pub fn from(hue: i64, chroma: i64, tone: i64) -> (r: Hct)
        requires
            fx_ok(hue),
            fx_ok(chroma),
            fx_ok(tone),
        ensures
            hct_ok(r),
            r.argb[0] == 255,
            (r.argb[1] as int, r.argb[2] as int, r.argb[3] as int) == spec_solve(
                hue as int,
                chroma as int,
                tone as int,
            ),
    {
        let mut htc = Hct { internal_hue: 0, internal_chroma: 0, internal_tone: 0, argb: [255, 0, 0, 0] };
        htc.set_internal_state(solve_to_int(hue, chroma, tone));
        htc
    }

    /// Creates an HCT color by measuring an ARGB color: decomposition is
    /// closed-form, no search is involved.
    pub fn from_int(argb: [u8; 4]) -> (r: Hct)
        ensures
            hct_ok(r),
            r.argb == argb,
    {
        let mut htc = Hct { internal_hue: 0, internal_chroma: 0, internal_tone: 0, argb: [255, 0, 0, 0] };
        htc.set_internal_state(argb);
        htc
    }

    /// The hue of this color, in degrees.
    pub fn hue(&self) -> (r: i64)
        ensures
            r == self.internal_hue,
    {
        self.internal_hue
    }

    /// The chroma this color actually realizes.
    pub fn chroma(&self) -> (r: i64)
        ensures
            r == self.internal_chroma,
    {
        self.internal_chroma
    }

    /// The tone (L*) of this color.
    pub fn tone(&self) -> (r: i64)
        ensures
            r == self.internal_tone,
    {
        self.internal_tone
    }

    /// The cached ARGB color.
    pub fn to_int(&self) -> (r: [u8; 4])
        ensures
            r == self.argb,
    {
        self.argb
    }

    /// Re-solves with a new hue, holding the current chroma and tone. Chroma
    /// may decrease: its maximum differs between hues.
    pub fn set_hue(&mut self, hue: i64)
        requires
            fx_ok(hue),
            hct_ok(*old(self)),
        ensures
            hct_ok(*final(self)),
            final(self).argb[0] == 255,
            (
                final(self).argb[1] as int,
                final(self).argb[2] as int,
                final(self).argb[3] as int,
            ) == spec_solve(
                hue as int,
                old(self).internal_chroma as int,
                old(self).internal_tone as int,
            ),
    {
        let argb = solve_to_int(hue, self.internal_chroma, self.internal_tone);
        self.set_internal_state(argb);
    }

    /// Re-solves with a new chroma, holding the current hue and tone. The
    /// chroma actually stored is whatever the solver achieved.
    pub fn set_chroma(&mut self, chroma: i64)
        requires
            fx_ok(chroma),
            hct_ok(*old(self)),
        ensures
            hct_ok(*final(self)),
            final(self).argb[0] == 255,
            (
                final(self).argb[1] as int,
                final(self).argb[2] as int,
                final(self).argb[3] as int,
            ) == spec_solve(
                old(self).internal_hue as int,
                chroma as int,
                old(self).internal_tone as int,
            ),
    {
        let argb = solve_to_int(self.internal_hue, chroma, self.internal_tone);
        self.set_internal_state(argb);
    }

    /// Re-solves with a new tone, holding the current hue and chroma. Chroma
    /// may decrease: its maximum differs between tones.
    pub fn set_tone(&mut self, tone: i64)
        requires
            fx_ok(tone),
            hct_ok(*old(self)),
        ensures
            hct_ok(*final(self)),
            final(self).argb[0] == 255,
            (
                final(self).argb[1] as int,
                final(self).argb[2] as int,
                final(self).argb[3] as int,
            ) == spec_solve(
                old(self).internal_hue as int,
                old(self).internal_chroma as int,
                tone as int,
            ),
    {
        let argb = solve_to_int(self.internal_hue, self.internal_chroma, tone);
        self.set_internal_state(argb);
    }
}

} // verus!
