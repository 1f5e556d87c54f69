//! Verified core of an interactive escape-time fractal explorer.
//!
//! The library models the rendering core: exact view-transform arithmetic,
//! the shader source assembly and validate-then-swap program lifecycle, a
//! GPU state model with allocation accounting, and the off-screen capture
//! path with its reference rasterizer.

pub mod frac;
pub mod gpu;
pub mod raster;
pub mod renderer;
pub mod shader;
pub mod transform;
pub mod uniform;

pub use frac::Frac;
