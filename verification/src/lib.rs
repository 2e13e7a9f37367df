//! Blacklight reveal materials.
//!
//! A material of this kind is invisible until a spot light tagged as a
//! blacklight shines on it, at which point its base color and texture are
//! revealed. The host renderer owns the scene and the GPU pipeline; this
//! crate owns the per-frame bookkeeping around it: snapshots of the tagged
//! lights, the shader-facing records derived from them, the material
//! instances those records are broadcast to, and the sync cycle that ties
//! the three together.
//!
//! Scalar light and color values travel through this crate as the raw bit
//! patterns of 32-bit floats, so every contract can state that they are
//! copied verbatim, bit for bit, from the scene snapshot into the records
//! the shader consumes.

pub mod light;
pub mod material;
pub mod sync;
