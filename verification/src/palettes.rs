//! Tonal palettes: families of colors sharing hue and chroma, varied by
//! tone, and the core set of palettes a theme is assembled from.
pub mod core_palette;
pub mod tonal;
