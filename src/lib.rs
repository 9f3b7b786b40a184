//! A 2D rendering core: the rendering context's shared slots and shader
//! registry, the geometry of the drawing primitives, and the draw calls that
//! tie the two together.
//!
//! Geometry is described exactly: quad corners as unit offsets and fan
//! samples as fractions of a full turn. The code that talks to the GPU turns
//! these descriptions into floating-point vertex buffers and commands.

pub mod context;
pub mod draw;
pub mod geometry;
pub mod projection;
pub mod texture;
