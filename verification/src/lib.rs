//! Interactive explorer for escape-time fractals (Mandelbrot and Julia sets).
//!
//! The core of the explorer is a deterministic view/state model: a viewport
//! over the complex plane driven by discrete input events, a palette
//! generator that turns a cyclic iteration phase into RGB colors, and a
//! selector that picks one of four shader programs from the precision and
//! fractal-mode flags. All of that arithmetic is carried out exactly over
//! rational numbers, so every transition is a total, provable function of
//! the previous state; the platform layer converts to floating point only
//! at the GPU boundary.

pub mod rat;
pub mod input;
pub mod laws;
pub mod palette;
pub mod pipeline;
pub mod viewport;
