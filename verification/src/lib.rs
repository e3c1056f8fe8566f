//! Verified core of a stochastic path-tracing renderer.
//!
//! The floating-point numerics (vector algebra, intersections, shading) live
//! in the unverified front end; this crate holds the discrete logic the
//! renderer rests on: the Perlin permutation tables and lattice indexing,
//! texel lookup in a decoded image, the bounce-depth decision of the radiance
//! estimator, configuration resolution, and the text form of the emitted
//! pixel stream.

pub mod config;
pub mod perlin;
pub mod ppm;
pub mod render;
pub mod texture;
