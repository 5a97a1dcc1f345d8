//! A small recursive ray tracer over exact fixed-point arithmetic.
//!
//! Geometry and color values are carried as `i64` raw values in units of
//! `1 / 65536`; all arithmetic saturates at the `i64` range and is specified
//! exactly, so every rendered byte is pinned down by the contracts.

pub mod camera;
pub mod color;
pub mod fixed;
pub mod material;
pub mod model;
pub mod ray;
pub mod scene;
pub mod vec3;
