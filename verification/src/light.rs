//! The single point light of a scene.

use vstd::prelude::*;

use crate::math::Vec3;

verus! {

/// A point light: position, color, and a flat intensity multiplier.
/// No distance falloff is applied anywhere in shading.
#[derive(Clone, Copy, Debug, PartialEq, Eq, Structural)]
pub struct PointLight {
    pub position: Vec3,
    pub color: Vec3,
    pub intensity: i64,
}

} // verus!
