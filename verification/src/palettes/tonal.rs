//! A tonal palette: every tone of one hue/chroma pair, solved on demand and
//! memoized.
use vstd::prelude::*;

use crate::fixed::{fx_muli, fx_ok, FX_ONE};
use crate::hct::hct_solver::{solve_to_int, spec_solve};

verus! {

/// The ARGB channels of the palette color with the given integer tone: the
/// solver's answer for (hue, chroma, tone).
pub open spec fn spec_tone_argb(hue: int, chroma: int, tone: int) -> (int, int, int) {
    spec_solve(hue, chroma, tone * (FX_ONE as int))
}

/// A family of colors sharing hue and chroma, keyed by tone. Solved colors
/// are cached; the cache never disagrees with the solver.
#[derive(Clone, Debug)]
pub struct TonalPalette {
    /// The shared hue, in fixed-point degrees.
    pub hue: i64,
    /// The shared (maximum requested) chroma.
    pub chroma: i64,
    /// Tones already solved, each paired with the solver's answer.
    pub cache: Vec<(u32, [u8; 4])>,
}

/// The palette invariant: hue and chroma are in range and every cached entry
/// is exactly the solver's answer for its tone.
pub open spec fn palette_ok(p: TonalPalette) -> bool {
    &&& fx_ok(p.hue)
    &&& fx_ok(p.chroma)
    &&& forall|i: int|
        0 <= i < p.cache@.len() ==> {
            let e = #[trigger] p.cache@[i];
            e.0 <= 100 && e.1[0] == 255 && (e.1[1] as int, e.1[2] as int, e.1[3] as int)
                == spec_tone_argb(p.hue as int, p.chroma as int, e.0 as int)
        }
}

impl TonalPalette {
    /// Creates a palette of the given hue and chroma with an empty cache.
    pub fn of(hue: i64, chroma: i64) -> (r: TonalPalette)
        requires
            fx_ok(hue),
            fx_ok(chroma),
        ensures
            palette_ok(r),
            r.hue == hue,
            r.chroma == chroma,
    {
        TonalPalette { hue, chroma, cache: Vec::new() }
    }

    /// The ARGB color of this palette at the given tone, solved on first use
    /// and served from the cache afterwards.
    pub fn tone(&mut self, tone: u32) -> (r: [u8; 4])
        requires
            tone <= 100,
            palette_ok(*old(self)),
        ensures
            palette_ok(*final(self)),
            final(self).hue == old(self).hue,
            final(self).chroma == old(self).chroma,
            r[0] == 255,
            (r[1] as int, r[2] as int, r[3] as int) == spec_tone_argb(
                old(self).hue as int,
                old(self).chroma as int,
                tone as int,
            ),
    {
        let n: usize = self.cache.len();
        let mut i: usize = 0;
        while i < n
            invariant
                0 <= i <= n,
                n == self.cache@.len(),
                palette_ok(*self),
                *self == *old(self),
            decreases n - i,
        {
            let e = self.cache[i];
            if e.0 == tone {
                return e.1;
            }
            i = i + 1;
        }
        let ft: i64 = fx_muli(FX_ONE, tone as i64);
        proof {
            assert((FX_ONE as int) * ((tone as i64) as int) <= (FX_ONE as int) * 100)
                by (nonlinear_arith)
                requires
                    0 <= (tone as i64) as int <= 100,
            ;
            assert(ft == tone * (FX_ONE as int)) by (nonlinear_arith)
                requires
                    ft == crate::fixed::spec_fx_muli(FX_ONE as int, (tone as i64) as int),
                    0 <= (tone as i64) as int <= 100,
            ;
        }
        let argb: [u8; 4] = solve_to_int(self.hue, self.chroma, ft);
        self.cache.push((tone, argb));
        proof {
            let oldc = old(self).cache@;
            assert(self.cache@ =~= oldc.push((tone, argb)));
            assert forall|i: int| 0 <= i < self.cache@.len() implies {
                let e = #[trigger] self.cache@[i];
                e.0 <= 100 && e.1[0] == 255 && (e.1[1] as int, e.1[2] as int, e.1[3] as int)
                    == spec_tone_argb(self.hue as int, self.chroma as int, e.0 as int)
            } by {
                if i < oldc.len() {
                    assert(self.cache@[i] == oldc[i]);
                } else {
                    assert(self.cache@[i] == (tone, argb));
                }
            }
        }
        argb
    }
}

} // verus!
