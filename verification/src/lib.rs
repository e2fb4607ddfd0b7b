//! A wireframe-cube transform pipeline on fixed-point coordinates.
//!
//! Geometry is carried in micro-units: an `i64` coordinate counts
//! millionths, so `500_000` stands for one half. The library builds the
//! canonical unit cube, applies scale / translate / rotate transforms,
//! projects the result orthographically to 2D, and advances the animation
//! angle; a host program draws the projected points and edges.

pub mod angle;
pub mod cube;
pub mod frame;
pub mod laws;
pub mod fixed;
pub mod vec3;
