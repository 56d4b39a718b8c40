//! Shared helpers: angle and interpolation math, color-space conversions,
//! hex-string formatting and parsing, and theme assembly.
pub mod color;
pub mod math;
pub mod string;
pub mod theme;
