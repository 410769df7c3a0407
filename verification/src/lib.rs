//! A small CPU ray tracer over exact fixed-point arithmetic.
//!
//! Every scalar is a signed 64-bit integer counting millionths of a unit
//! (see [`fixed`]), so all geometry — camera ray generation, slab-method box
//! intersection, plane intersection, Phong shading with hard shadows, and
//! multi-sample pixel resolution with depth tracking — is deterministic and
//! fully specified: each executable operation is proved equal to a spec-level
//! mirror. Display conversion (gamma, quantization) and windowing are left to
//! callers.

pub mod camera;
pub mod cube;
pub mod fixed;
pub mod light;
pub mod material;
pub mod math;
pub mod object;
pub mod plane;
pub mod render;
