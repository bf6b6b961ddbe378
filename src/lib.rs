//! A metaball field renderer: thresholding of per-pixel field levels into an
//! RGBA8 raster, the reflective-boundary rule of ball motion, and the overlay
//! grid's lines.

pub mod field;
pub mod grid;
pub mod motion;
