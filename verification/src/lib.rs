//! Colors for Material-style theming: CAM16 appearance correlates, the
//! hue/chroma/tone (HCT) color space, gamut-aware solving from HCT back to
//! 8-bit ARGB, blending, palettes, schemes and themes.
//!
//! All numeric work is done in signed Q32.32 fixed-point arithmetic, so every
//! function is a deterministic, verified map from its inputs to its outputs.
pub mod blend;
pub mod fixed;
pub mod hct;
pub mod palettes;
pub mod scheme;
pub mod utils;
