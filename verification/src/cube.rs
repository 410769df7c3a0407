//! Axis-aligned box, intersected by the slab method.

use vstd::prelude::*;

use crate::fixed::{
    fx_abs, fx_div, fx_max, fx_min, fx_mul, fx_sub, spec_abs, spec_div, spec_max, spec_min,
    spec_mul, spec_sub, EPS, INF, SCALE,
};
use crate::material::Material;
use crate::math::{spec_ray_at, spec_vadd, spec_vsub, Ray, Vec3};
use crate::object::HitRecord;

verus! {

/// Tolerance (1e-3) for deciding which face of the box a hit point lies on.
pub const FACE_BIAS: i64 = 1000;

/// An axis-aligned box given by its center and half-extents.
#[derive(Clone, Copy, Debug, PartialEq, Eq, Structural)]
pub struct Cube {
    pub center: Vec3,
    pub half: Vec3,
    pub material: Material,
}

/// One axis of the slab method: the parametric interval in which the ray is
/// between the axis's two bounding planes. A near-zero direction component is
/// handled with the large finite sentinel [`INF`] as inverse direction, so no
/// division blow-up occurs.
pub open spec fn spec_slab(o: i64, d: i64, mn: i64, mx: i64) -> (i64, i64) {
    let inv = if spec_abs(d) < EPS {
        INF
    } else {
        spec_div(SCALE, d)
    };
    let t1 = spec_mul(spec_sub(mn, o), inv);
    let t2 = spec_mul(spec_sub(mx, o), inv);
    (spec_min(t1, t2), spec_max(t1, t2))
}

/// The outward normal of the face a hit point lies on, tested with a small
/// tolerance in a fixed priority order (+x, -x, +y, -y, +z, -z); on exact
/// edge or corner hits the order deterministically picks one face.
pub open spec fn spec_face_normal(p: Vec3, min_b: Vec3, max_b: Vec3) -> Vec3 {
    if spec_abs(spec_sub(p.x, max_b.x)) < FACE_BIAS {
        Vec3 { x: SCALE, y: 0, z: 0 }
    } else if spec_abs(spec_sub(p.x, min_b.x)) < FACE_BIAS {
        Vec3 { x: (-SCALE) as i64, y: 0, z: 0 }
    } else if spec_abs(spec_sub(p.y, max_b.y)) < FACE_BIAS {
        Vec3 { x: 0, y: SCALE, z: 0 }
    } else if spec_abs(spec_sub(p.y, min_b.y)) < FACE_BIAS {
        Vec3 { x: 0, y: (-SCALE) as i64, z: 0 }
    } else if spec_abs(spec_sub(p.z, max_b.z)) < FACE_BIAS {
        Vec3 { x: 0, y: 0, z: SCALE }
    } else if spec_abs(spec_sub(p.z, min_b.z)) < FACE_BIAS {
        Vec3 { x: 0, y: 0, z: (-SCALE) as i64 }
    } else {
        Vec3 { x: 0, y: 0, z: 0 }
    }
}

/// Slab-method ray-box intersection. The running interval `[tmin, tmax]`
/// starts at `[t_min, t_max]` and is intersected with each axis's slab
/// interval; an empty interval on any axis means no hit. The reported
/// distance is the interval's entry when the origin is outside the box
/// (`tmin > t_min`), else the exit (`tmax`); a distance outside `[t_min,
/// t_max]` is rejected.
pub open spec fn spec_cube_intersect(c: Cube, ray: Ray, t_min: i64, t_max: i64) -> Option<
    HitRecord,
> {
    let min_b = spec_vsub(c.center, c.half);
    let max_b = spec_vadd(c.center, c.half);
    let tx = spec_slab(ray.origin.x, ray.dir.x, min_b.x, max_b.x);
    let tmin_x = spec_max(t_min, tx.0);
    let tmax_x = spec_min(t_max, tx.1);
    if tmax_x < tmin_x {
        None
    } else {
        let ty = spec_slab(ray.origin.y, ray.dir.y, min_b.y, max_b.y);
        let tmin_y = spec_max(tmin_x, ty.0);
        let tmax_y = spec_min(tmax_x, ty.1);
        if tmax_y < tmin_y {
            None
        } else {
            let tz = spec_slab(ray.origin.z, ray.dir.z, min_b.z, max_b.z);
            let tmin_z = spec_max(tmin_y, tz.0);
            let tmax_z = spec_min(tmax_y, tz.1);
            if tmax_z < tmin_z {
                None
            } else {
                let t_hit = if tmin_z > t_min {
                    tmin_z
                } else {
                    tmax_z
                };
                if t_hit < t_min || t_hit > t_max {
                    None
                } else {
                    let p = spec_ray_at(ray, t_hit);
                    Some(
                        HitRecord {
                            t: t_hit,
                            point: p,
                            normal: spec_face_normal(p, min_b, max_b),
                            material: c.material,
                        },
                    )
                }
            }
        }
    }
}

/// One axis of the slab method, executable.
fn slab_axis(o: i64, d: i64, mn: i64, mx: i64) -> (r: (i64, i64))
    ensures
        r == spec_slab(o, d, mn, mx),
{
    let inv = if fx_abs(d) < EPS {
        INF
    } else {
        fx_div(SCALE, d)
    };
    let t1 = fx_mul(fx_sub(mn, o), inv);
    let t2 = fx_mul(fx_sub(mx, o), inv);
    (fx_min(t1, t2), fx_max(t1, t2))
}

impl Cube {
    /// A box from its center, half-extents, and material.
    pub fn new(center: Vec3, half_extents: Vec3, material: Material) -> (c: Cube)
        ensures
            c == (Cube { center, half: half_extents, material }),
    {
        Cube { center, half: half_extents, material }
    }

    /// The closest valid hit in `[t_min, t_max]`, or `None`.
    pub fn intersect(&self, ray: &Ray, t_min: i64, t_max: i64) -> (res: Option<HitRecord>)
        ensures
            res == spec_cube_intersect(*self, *ray, t_min, t_max),
    {
        let min_b = self.center.minus(self.half);
        let max_b = self.center.plus(self.half);

        let tx = slab_axis(ray.origin.x, ray.dir.x, min_b.x, max_b.x);
        let tmin = fx_max(t_min, tx.0);
        let tmax = fx_min(t_max, tx.1);
        if tmax < tmin {
            return None;
        }

        let ty = slab_axis(ray.origin.y, ray.dir.y, min_b.y, max_b.y);
        let tmin = fx_max(tmin, ty.0);
        let tmax = fx_min(tmax, ty.1);
        if tmax < tmin {
            return None;
        }

        let tz = slab_axis(ray.origin.z, ray.dir.z, min_b.z, max_b.z);
        let tmin = fx_max(tmin, tz.0);
        let tmax = fx_min(tmax, tz.1);
        if tmax < tmin {
            return None;
        }

        let t_hit = if tmin > t_min {
            tmin
        } else {
            tmax
        };
        if t_hit < t_min || t_hit > t_max {
            return None;
        }

        let p = ray.at(t_hit);

        let n = if fx_abs(fx_sub(p.x, max_b.x)) < FACE_BIAS {
            Vec3::new(SCALE, 0, 0)
        } else if fx_abs(fx_sub(p.x, min_b.x)) < FACE_BIAS {
            Vec3::new(-SCALE, 0, 0)
        } else if fx_abs(fx_sub(p.y, max_b.y)) < FACE_BIAS {
            Vec3::new(0, SCALE, 0)
        } else if fx_abs(fx_sub(p.y, min_b.y)) < FACE_BIAS {
            Vec3::new(0, -SCALE, 0)
        } else if fx_abs(fx_sub(p.z, max_b.z)) < FACE_BIAS {
            Vec3::new(0, 0, SCALE)
        } else if fx_abs(fx_sub(p.z, min_b.z)) < FACE_BIAS {
            Vec3::new(0, 0, -SCALE)
        } else {
            Vec3::new(0, 0, 0)
        };

        Some(HitRecord { t: t_hit, point: p, normal: n, material: self.material })
    }
}

} // verus!
