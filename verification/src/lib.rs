//! Spectral index rasters from the band rasters of a multispectral sensor.
//!
//! The bands of one scene come as separate rasters of 8-bit samples, each at
//! its own resolution. A spectral index is a formula over some of the bands.
//! This library computes the raster of an index at any output size: for each
//! output pixel it takes from each band raster the sample of the nearest
//! pixel ([`align`]), and evaluates the formula of the index on these samples
//! ([`indices`], [`registry`]).
//!
//! # Arithmetic
//!
//! A sample `v` stands for the fraction `v / 255` of full scale. The
//! formulas are evaluated on these fractions in exact rational arithmetic
//! ([`ratio`], [`fraction`]): nothing is rounded before the last step. The
//! last step turns the value of the formula into a byte: 255 times the
//! value, truncated toward zero, modulo 256. So a value outside the range of
//! a byte is not clamped: it wraps round.
//!
//! A divisor that vanishes is no error. A nonzero value over zero is an
//! infinity of the sign of the value, `0/0` is undefined, and both are
//! carried through the rest of the formula. At the last step the positive
//! infinity becomes 255, the negative infinity 0, the undefined value 0.
//!
//! Each formula is also given as one quotient of two integers
//! ([`closed_forms`]), proved to be the same number.
//!
//! # Rasters
//!
//! A raster holds its samples row by row; the row stride is its width.
//! Nearest-neighbour alignment scales column and row separately, in
//! integers: output column `x` of `width` reads column `x * w / width`,
//! rounded down, of a raster `w` wide. That column always exists, so nothing
//! is clamped.

pub mod align;
pub mod closed_forms;
pub mod fraction;
pub mod indices;
pub mod laws;
pub mod locate;
pub mod raster;
pub mod ratio;
pub mod registry;
pub mod width;
