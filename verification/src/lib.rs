//! Decision core of a minimal windowed triangle renderer.
//!
//! The renderer itself is a thin program: it opens a window, compiles a
//! shader program, uploads one triangle, and clears, draws and swaps each
//! frame. Every decision that program makes — when the window should
//! close, whether a shader build stage failed and its log must be shown,
//! what line a driver debug message prints, how large the buffers handed
//! to the driver are, and whether the index data is safe to draw — lives
//! here, stated and proved.

pub mod debug;
pub mod input;
pub mod mesh;
pub mod shader;
