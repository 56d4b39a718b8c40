//! Theme assembly: the schemes and palettes derived from one or more source
//! colors, plus the record types for custom colors paired with a theme.
use vstd::prelude::*;

use crate::palettes::core_palette::{spec_core_palette, CorePalette};
use crate::palettes::tonal::{palette_ok, TonalPalette};
use crate::scheme::{spec_dark_scheme_ok, spec_light_scheme_ok, Scheme};

verus! {

/// A custom color to pair with a theme.
#[derive(Debug)]
pub struct CustomColor {
    /// The color itself.
    pub value: [u8; 4],
    /// Its display name.
    pub name: String,
    /// Whether to blend it toward the theme's source color.
    pub blend: bool,
}

/// A custom color with its on-color and container pair.
#[derive(Debug)]
pub struct ColorGroup {
    /// The color itself.
    pub color: [u8; 4],
    /// Content color on it.
    pub on_color: [u8; 4],
    /// Its subdued container.
    pub color_container: [u8; 4],
    /// Content color on the container.
    pub on_color_container: [u8; 4],
}

/// A custom color with its light and dark groups.
#[derive(Debug)]
pub struct CustomColorGroup {
    /// The custom color as supplied.
    pub color: CustomColor,
    /// Its realized value.
    pub value: [u8; 4],
    /// Group under the light scheme.
    pub light: ColorGroup,
    /// Group under the dark scheme.
    pub dark: ColorGroup,
}

/// The light and dark schemes of a theme.
#[derive(Clone, Debug)]
pub struct Schemes {
    /// The light scheme.
    pub light: Scheme,
    /// The dark scheme.
    pub dark: Scheme,
}

/// The tonal palettes of a theme.
#[derive(Clone, Debug)]
pub struct Palettes {
    /// Primary accent palette.
    pub primary: TonalPalette,
    /// Secondary accent palette.
    pub secondary: TonalPalette,
    /// Tertiary accent palette.
    pub tertiary: TonalPalette,
    /// Neutral palette.
    pub neutral: TonalPalette,
    /// Neutral variant palette.
    pub neutral_variant: TonalPalette,
    /// Error palette.
    pub error: TonalPalette,
}

/// A theme: the source color it was derived from, its light and dark
/// schemes, and the palettes behind them.
#[derive(Clone, Debug)]
pub struct Theme {
    /// The source color.
    pub source: [u8; 4],
    /// The light and dark schemes.
    pub schemes: Schemes,
    /// The palettes the schemes were read from.
    pub palettes: Palettes,
}

/// The theme's palettes carry exactly the hue/chroma pairs of the core
/// palette derived from the source color.
pub open spec fn theme_palettes_ok(t: Theme, r: int, g: int, b: int, is_content: bool) -> bool {
    let cs = spec_core_palette(r, g, b, is_content);
    &&& t.palettes.primary.hue == cs.a1h && t.palettes.primary.chroma == cs.a1c
    &&& t.palettes.secondary.hue == cs.a2h && t.palettes.secondary.chroma == cs.a2c
    &&& t.palettes.tertiary.hue == cs.a3h && t.palettes.tertiary.chroma == cs.a3c
    &&& t.palettes.neutral.hue == cs.n1h && t.palettes.neutral.chroma == cs.n1c
    &&& t.palettes.neutral_variant.hue == cs.n2h && t.palettes.neutral_variant.chroma == cs.n2c
    &&& t.palettes.error.hue == cs.eh && t.palettes.error.chroma == cs.ec
    &&& palette_ok(t.palettes.primary)
    &&& palette_ok(t.palettes.secondary)
    &&& palette_ok(t.palettes.tertiary)
    &&& palette_ok(t.palettes.neutral)
    &&& palette_ok(t.palettes.neutral_variant)
    &&& palette_ok(t.palettes.error)
}

impl Theme {
    /// Derives a theme from one source color: the standard core palettes,
    /// and the light and dark schemes read from them at the documented tone
    /// stops.
    pub fn from_source_color(source: [u8; 4]) -> (r: Theme)
        ensures
            r.source == source,
            theme_palettes_ok(r, source[1] as int, source[2] as int, source[3] as int, false),
            spec_light_scheme_ok(
                r.schemes.light,
                spec_core_palette(source[1] as int, source[2] as int, source[3] as int, false),
            ),
            spec_dark_scheme_ok(
                r.schemes.dark,
                spec_core_palette(source[1] as int, source[2] as int, source[3] as int, false),
            ),
    {
        let mut palette = CorePalette::new(source, false);
        let light = Scheme::light_from_core_palette(&mut palette);
        let dark = Scheme::dark_from_core_palette(&mut palette);
        let schemes: Schemes = Schemes { light, dark };
        let primary = palette.a1;
        let secondary = palette.a2;
        let tertiary = palette.a3;
        let neutral = palette.n1;
        let neutral_variant = palette.n2;
        let error = palette.error;
        let palettes: Palettes = Palettes {
            primary,
            secondary,
            tertiary,
            neutral,
            neutral_variant,
            error,
        };
        Theme { source, schemes, palettes }
    }

    /// Derives a theme from a set of source colors: the first is the source,
    /// and the palettes are its content core palettes.
    pub fn from_source_colors(sources: [[u8; 4]; 3]) -> (r: Theme)
        ensures
            r.source == sources[0],
            theme_palettes_ok(
                r,
                sources[0][1] as int,
                sources[0][2] as int,
                sources[0][3] as int,
                true,
            ),
            spec_light_scheme_ok(
                r.schemes.light,
                spec_core_palette(
                    sources[0][1] as int,
                    sources[0][2] as int,
                    sources[0][3] as int,
                    true,
                ),
            ),
            spec_dark_scheme_ok(
                r.schemes.dark,
                spec_core_palette(
                    sources[0][1] as int,
                    sources[0][2] as int,
                    sources[0][3] as int,
                    true,
                ),
            ),
    {
        let mut palette = CorePalette::new(sources[0], true);
        let light = Scheme::light_from_core_palette(&mut palette);
        let dark = Scheme::dark_from_core_palette(&mut palette);
        let schemes: Schemes = Schemes { light, dark };
        let primary = palette.a1;
        let secondary = palette.a2;
        let tertiary = palette.a3;
        let neutral = palette.n1;
        let neutral_variant = palette.n2;
        let error = palette.error;
        let palettes: Palettes = Palettes {
            primary,
            secondary,
            tertiary,
            neutral,
            neutral_variant,
            error,
        };
        Theme { source: sources[0], schemes, palettes }
    }
}

} // verus!
