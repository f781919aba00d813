//! The engine of a color picker: a fixed-point HSV color model with its
//! conversions, the geometry that maps pointer positions over a hue ring and a
//! saturation/brightness box onto that color, and the pointer dispatch state
//! machine that ties them together. It also holds two small text utilities.
pub mod color;
pub mod geometry;
pub mod picker;
pub mod utils;
