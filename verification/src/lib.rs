//! Geometry preparation for a vector-graphics renderer.
//!
//! Shapes arrive as draw commands in a fixed-point sub-pixel unit (twips,
//! twenty per pixel) together with affine transforms that place gradient or
//! bitmap paints into shape space. This crate turns those inputs into a
//! renderer-agnostic path and into the inverse, renormalized sampling
//! matrices a GPU pipeline needs. Every coordinate and matrix cell is kept
//! as an exact rational number; the embedder converts to machine floats at
//! the very edge, so the numerically sensitive work (unit conversion,
//! 2x2 inversion, renormalization into unit UV space) is exact and verified.

pub mod buffer;
pub mod path;
pub mod rational;
pub mod transform;
pub mod units;
