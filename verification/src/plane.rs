//! Infinite plane: a point and a unit normal.

use vstd::prelude::*;

use crate::fixed::{fx_abs, fx_div, spec_abs, spec_div};
use crate::material::Material;
use crate::math::{spec_dot, spec_normalized, spec_ray_at, spec_vneg, spec_vsub, Ray, Vec3};
use crate::object::HitRecord;

verus! {

/// Rays whose direction has a smaller |dot| with the plane normal than this
/// (1e-6) are treated as parallel and never hit.
pub const PARALLEL_EPS: i64 = 1;

/// An infinite plane through `point` with unit normal `normal`.
#[derive(Clone, Copy, Debug, PartialEq, Eq, Structural)]
pub struct Plane {
    pub point: Vec3,
    pub normal: Vec3,
    pub material: Material,
}

/// Ray-plane intersection: `t = dot(point - origin, normal) / dot(normal,
/// dir)`. Near-parallel rays and hits outside `[t_min, t_max]` give `None`;
/// the returned normal is flipped to oppose the ray, so shading always sees a
/// front-facing normal.
pub open spec fn spec_plane_intersect(p: Plane, ray: Ray, t_min: i64, t_max: i64) -> Option<
    HitRecord,
> {
    let denom = spec_dot(p.normal, ray.dir);
    if spec_abs(denom) < PARALLEL_EPS {
        None
    } else {
        let t = spec_div(spec_dot(spec_vsub(p.point, ray.origin), p.normal), denom);
        if t < t_min || t > t_max {
            None
        } else {
            let hit_point = spec_ray_at(ray, t);
            let n = if denom < 0 {
                p.normal
            } else {
                spec_vneg(p.normal)
            };
            Some(HitRecord { t, point: hit_point, normal: n, material: p.material })
        }
    }
}

/// Law: a ray parallel to a plane (the direction's dot with the plane normal
/// below the parallel threshold) returns no hit, whatever the interval.
pub proof fn lemma_parallel_ray_misses_plane(p: Plane, ray: Ray, t_min: i64, t_max: i64)
    requires
        spec_abs(spec_dot(p.normal, ray.dir)) < PARALLEL_EPS,
    ensures
        spec_plane_intersect(p, ray, t_min, t_max) is None,
{
}

impl Plane {
    /// A plane from a point and a normal; the normal is normalized here.
    pub fn new(point: Vec3, normal: Vec3, material: Material) -> (p: Plane)
        ensures
            p == (Plane { point, normal: spec_normalized(normal), material }),
    {
        Plane { point, normal: normal.normalized(), material }
    }

    /// The closest valid hit in `[t_min, t_max]`, or `None`.
    pub fn intersect(&self, ray: &Ray, t_min: i64, t_max: i64) -> (res: Option<HitRecord>)
        ensures
            res == spec_plane_intersect(*self, *ray, t_min, t_max),
    {
        let denom = self.normal.dot(ray.dir);
        if fx_abs(denom) < PARALLEL_EPS {
            return None;
        }
        let t = fx_div(self.point.minus(ray.origin).dot(self.normal), denom);
        if t < t_min || t > t_max {
            return None;
        }
        let hit_point = ray.at(t);
        let n = if denom < 0 {
            self.normal
        } else {
            self.normal.neg()
        };
        Some(HitRecord { t, point: hit_point, normal: n, material: self.material })
    }
}

} // verus!
