//! The core palettes of a theme: accent, neutral and error palettes derived
//! from one source color.
use vstd::prelude::*;

use crate::fixed::{fx_add, fx_divi, spec_fx_add, spec_fx_divi};
use crate::hct::cam16::spec_cam_from_argb;
use crate::hct::Hct;
use crate::palettes::tonal::{palette_ok, TonalPalette};

verus! {

pub const FX_48: i64 = 206158430208;

pub const FX_16: i64 = 68719476736;

pub const FX_24: i64 = 103079215104;

pub const FX_4: i64 = 17179869184;

pub const FX_8: i64 = 34359738368;

pub const FX_60: i64 = 257698037760;

pub const FX_25: i64 = 107374182400;

pub const FX_84: i64 = 360777252864;

/// The hue/chroma pairs of the six core palettes, as unbounded integers.
pub struct CoreSpec {
    /// Primary accent hue.
    pub a1h: int,
    /// Primary accent chroma.
    pub a1c: int,
    /// Secondary accent hue.
    pub a2h: int,
    /// Secondary accent chroma.
    pub a2c: int,
    /// Tertiary accent hue.
    pub a3h: int,
    /// Tertiary accent chroma.
    pub a3c: int,
    /// Neutral hue.
    pub n1h: int,
    /// Neutral chroma.
    pub n1c: int,
    /// Neutral variant hue.
    pub n2h: int,
    /// Neutral variant chroma.
    pub n2c: int,
    /// Error hue.
    pub eh: int,
    /// Error chroma.
    pub ec: int,
}

/// The hue/chroma pairs derived from a source color. The accent hue is the
/// source hue throughout; chromas are fixed for a standard palette and
/// proportional to the source chroma for a content palette.
pub open spec fn spec_core_palette(r: int, g: int, b: int, is_content: bool) -> CoreSpec {
    let cam = spec_cam_from_argb(r, g, b);
    let hue = cam.hue;
    let chroma = cam.chroma;
    if is_content {
        CoreSpec {
            a1h: hue,
            a1c: chroma,
            a2h: hue,
            a2c: spec_fx_divi(chroma, 3),
            a3h: spec_fx_add(hue, FX_60 as int),
            a3c: spec_fx_divi(chroma, 2),
            n1h: hue,
            n1c: if spec_fx_divi(chroma, 12) < FX_4 as int {
                spec_fx_divi(chroma, 12)
            } else {
                FX_4 as int
            },
            n2h: hue,
            n2c: if spec_fx_divi(chroma, 6) < FX_8 as int {
                spec_fx_divi(chroma, 6)
            } else {
                FX_8 as int
            },
            eh: FX_25 as int,
            ec: FX_84 as int,
        }
    } else {
        CoreSpec {
            a1h: hue,
            a1c: if chroma < FX_48 as int {
                FX_48 as int
            } else {
                chroma
            },
            a2h: hue,
            a2c: FX_16 as int,
            a3h: spec_fx_add(hue, FX_60 as int),
            a3c: FX_24 as int,
            n1h: hue,
            n1c: FX_4 as int,
            n2h: hue,
            n2c: FX_8 as int,
            eh: FX_25 as int,
            ec: FX_84 as int,
        }
    }
}

/// The six tonal palettes a theme is assembled from.
#[derive(Clone, Debug)]
pub struct CorePalette {
    /// Primary accent palette.
    pub a1: TonalPalette,
    /// Secondary accent palette.
    pub a2: TonalPalette,
    /// Tertiary accent palette.
    pub a3: TonalPalette,
    /// Neutral palette.
    pub n1: TonalPalette,
    /// Neutral variant palette.
    pub n2: TonalPalette,
    /// Error palette.
    pub error: TonalPalette,
}

/// The hue/chroma pairs a core palette holds.
pub open spec fn core_view(c: CorePalette) -> CoreSpec {
    CoreSpec {
        a1h: c.a1.hue as int,
        a1c: c.a1.chroma as int,
        a2h: c.a2.hue as int,
        a2c: c.a2.chroma as int,
        a3h: c.a3.hue as int,
        a3c: c.a3.chroma as int,
        n1h: c.n1.hue as int,
        n1c: c.n1.chroma as int,
        n2h: c.n2.hue as int,
        n2c: c.n2.chroma as int,
        eh: c.error.hue as int,
        ec: c.error.chroma as int,
    }
}

/// Every palette of the core set satisfies the palette invariant.
pub open spec fn core_ok(c: CorePalette) -> bool {
    &&& palette_ok(c.a1)
    &&& palette_ok(c.a2)
    &&& palette_ok(c.a3)
    &&& palette_ok(c.n1)
    &&& palette_ok(c.n2)
    &&& palette_ok(c.error)
}

impl CorePalette {
    /// Derives the six palettes from a source color. A standard palette uses
    /// fixed chromas for all but the primary accent; a content palette keeps
    /// chromas proportional to the source color's own.
    pub fn new(argb: [u8; 4], is_content: bool) -> (r: CorePalette)
        ensures
            core_ok(r),
            core_view(r) == spec_core_palette(
                argb[1] as int,
                argb[2] as int,
                argb[3] as int,
                is_content,
            ),
    {
        let hct = Hct::from_int(argb);
        let hue: i64 = hct.hue();
        let chroma: i64 = hct.chroma();
        if is_content {
            let n1c: i64 = if fx_divi(chroma, 12) < FX_4 {
                fx_divi(chroma, 12)
            } else {
                FX_4
            };
            let n2c: i64 = if fx_divi(chroma, 6) < FX_8 {
                fx_divi(chroma, 6)
            } else {
                FX_8
            };
            CorePalette {
                a1: TonalPalette::of(hue, chroma),
                a2: TonalPalette::of(hue, fx_divi(chroma, 3)),
                a3: TonalPalette::of(fx_add(hue, FX_60), fx_divi(chroma, 2)),
                n1: TonalPalette::of(hue, n1c),
                n2: TonalPalette::of(hue, n2c),
                error: TonalPalette::of(FX_25, FX_84),
            }
        } else {
            let a1c: i64 = if chroma < FX_48 {
                FX_48
            } else {
                chroma
            };
            CorePalette {
                a1: TonalPalette::of(hue, a1c),
                a2: TonalPalette::of(hue, FX_16),
                a3: TonalPalette::of(fx_add(hue, FX_60), FX_24),
                n1: TonalPalette::of(hue, FX_4),
                n2: TonalPalette::of(hue, FX_8),
                error: TonalPalette::of(FX_25, FX_84),
            }
        }
    }
}

} // verus!
