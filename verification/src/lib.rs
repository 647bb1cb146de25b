//! Interactive Mandelbrot-set core: a viewport transform that maps pixel
//! coordinates to complex-plane coordinates under pan/zoom/resize, and an
//! escape-time engine that evaluates the full pixel grid per frame.
//!
//! All plane arithmetic is fixed point (Q32.32 in `i64`), so every operation
//! is exact and deterministic; the zoom level is kept in the log domain so
//! the exponential zoom law is an exact addition.

pub mod engine;
pub mod fixed;
pub mod frame;
pub mod math;
pub mod viewport;

pub use math::IVec2;
pub use math::UVec2;
