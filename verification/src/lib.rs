//! Verified core of a small WebGL2 canvas renderer.
//!
//! The library turns a mesh (vertex positions, per-vertex colors, triangle
//! indices) and a rotation state into the exact byte payloads and GPU calls of
//! one rendered frame.  All numeric vertex data crosses the API as IEEE-754
//! bit patterns (`u32` per 32-bit float component), so the verified code
//! reasons about the data bit for bit; the host converts floats to bits and
//! computes the floating-point view matrix.

pub mod drawer;
pub mod gl;
pub mod laws;
pub mod mesh;
pub mod pipeline;
pub mod view;
