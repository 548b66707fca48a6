//! Real-time signal path of a gain-effect audio plugin: per-sample parameter
//! smoothing, in-place gain application, and a decaying peak-level meter.
//!
//! All level and gain values are carried as Q32 fixed-point integers: a `u64`
//! (or `i64` for signed samples) holding the amplitude multiplied by 2^32, so
//! `fixed::ONE` is unit gain. The host-facing shell converts its `f32` sample
//! buffers to and from this encoding; everything the render path computes on
//! the encoded values is verified here.

pub mod engine;
pub mod fixed;
pub mod header;
pub mod meter;
pub mod smoother;
pub mod svg;
