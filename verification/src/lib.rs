//! A verified core for a small instanced-mesh renderer with point-light
//! cube shadows.
//!
//! The library computes everything about a frame that can be stated over
//! plain values: the camera pose and its pitch clamp, the cube-shadow face
//! table and per-face look-at targets, the exact byte images of the uniform
//! blocks (camera, light, material), the binding-set bookkeeping, and the
//! full per-frame pass plan with its ordering guarantees.  Floating-point
//! matrix math and GPU submission are the caller's side of the boundary:
//! 32-bit float scalars cross it as their IEEE-754 bit patterns (`u32`
//! words), and world-space geometry that the core itself reasons about is
//! carried in fixed-point integers.

use vstd::prelude::*;

pub mod binding;
pub mod bytes;
pub mod camera;
pub mod frame;
pub mod instance;
pub mod layouts;
pub mod light;
pub mod model;
pub mod shadow;
pub mod state;
pub mod texture;
pub mod vec3;
pub mod vertex;

verus! {

/// Number of fixed-point steps that make up one world-space unit.
pub const FX_ONE: i64 = 1_000_000;

} // verus!
