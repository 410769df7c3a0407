//! Hit records and the closed set of scene primitives.

use vstd::prelude::*;

use crate::cube::{spec_cube_intersect, Cube};
use crate::material::Material;
use crate::math::{Ray, Vec3};
use crate::plane::{spec_plane_intersect, Plane};

verus! {

/// The result of a successful ray-primitive intersection: parametric
/// distance, world-space point, outward unit normal, and a copy of the
/// struck primitive's material.
#[derive(Clone, Copy, Debug, PartialEq, Eq, Structural)]
pub struct HitRecord {
    pub t: i64,
    pub point: Vec3,
    pub normal: Vec3,
    pub material: Material,
}

/// A scene primitive. The set is closed: an axis-aligned box or an infinite
/// plane, each owning its material.
#[derive(Clone, Copy, Debug, PartialEq, Eq, Structural)]
pub enum Hittable {
    Cube(Cube),
    Plane(Plane),
}

/// The closest valid hit of a ray against one primitive, inside the
/// parametric interval `[t_min, t_max]`; `None` when no intersection lies in
/// the interval.
pub open spec fn spec_intersect(obj: Hittable, ray: Ray, t_min: i64, t_max: i64) -> Option<
    HitRecord,
> {
    match obj {
        Hittable::Cube(c) => spec_cube_intersect(c, ray, t_min, t_max),
        Hittable::Plane(p) => spec_plane_intersect(p, ray, t_min, t_max),
    }
}

impl Hittable {
    /// Intersect a ray with this primitive inside `[t_min, t_max]`, returning
    /// the closest valid hit.
    pub fn intersect(&self, ray: &Ray, t_min: i64, t_max: i64) -> (res: Option<HitRecord>)
        ensures
            res == spec_intersect(*self, *ray, t_min, t_max),
    {
        match self {
            Hittable::Cube(c) => c.intersect(ray, t_min, t_max),
            Hittable::Plane(p) => p.intersect(ray, t_min, t_max),
        }
    }
}

} // verus!
