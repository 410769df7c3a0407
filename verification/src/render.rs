//! Shading, shadow testing, nearest-hit search, and the pixel tracer.

use vstd::prelude::*;
use vstd::pervasive::VecAdditionalExecFns;

use crate::camera::{spec_ray_for_pixel_offset, Camera};
use crate::fixed::{
    fx_add, fx_max, fx_mul, fx_pow, fx_sub, lemma_quarter_div_exact, spec_add, spec_max, spec_min,
    spec_mul, spec_pow, spec_sub, EIGHT, EPS, FOUR, HALF, INF, SCALE,
};
use crate::material::Material;
use crate::light::PointLight;
use crate::math::{
    spec_dot, spec_hadamard, spec_length, spec_normalized, spec_reflect, spec_vadd, spec_vdiv,
    spec_vneg, spec_vscale, spec_vsub, Ray, Vec3,
};
use crate::object::{spec_intersect, HitRecord, Hittable};

verus! {

/// Lower parametric bound for primary rays (0.001): avoids re-hitting the
/// surface a ray starts on.
pub const RAY_T_MIN: i64 = 1000;

/// Sub-pixel offset (0.25) of the fixed 2-by-2 sample pattern.
pub const OFF_LO: i64 = 250_000;

/// Sub-pixel offset (0.75) of the fixed 2-by-2 sample pattern.
pub const OFF_HI: i64 = 750_000;

/// The vertical sky gradient: a blend between a dark horizon color and a
/// light sky color, keyed on the ray direction's vertical component.
pub open spec fn spec_background(dir: Vec3) -> Vec3 {
    let t = spec_mul(HALF, spec_add(dir.y, SCALE));
    spec_vadd(
        spec_vscale(Vec3 { x: 40_000, y: 50_000, z: 80_000 }, spec_sub(SCALE, t)),
        spec_vscale(Vec3 { x: 600_000, y: 800_000, z: 1_000_000 }, t),
    )
}

/// The sky color seen by a ray that hit nothing.
pub fn background(dir: Vec3) -> (c: Vec3)
    ensures
        c == spec_background(dir),
{
    let t = fx_mul(HALF, fx_add(dir.y, SCALE));
    let c1 = Vec3::new(600_000, 800_000, 1_000_000);
    let c2 = Vec3::new(40_000, 50_000, 80_000);
    c2.scale(fx_sub(SCALE, t)).plus(c1.scale(t))
}

/// Whether one primitive blocks a shadow ray: it reports a hit inside
/// `[lo, hi]` at a strictly positive distance.
pub open spec fn spec_shadow_hit(obj: Hittable, ray: Ray, lo: i64, hi: i64) -> bool {
    match spec_intersect(obj, ray, lo, hi) {
        Some(h) => h.t > 0,
        None => false,
    }
}

/// Whether any primitive in the scene blocks the shadow ray.
pub open spec fn spec_in_shadow(objs: Seq<Hittable>, ray: Ray, lo: i64, hi: i64) -> bool {
    exists|k: int| 0 <= k < objs.len() && spec_shadow_hit(objs[k], ray, lo, hi)
}

/// Whether any primitive in the scene blocks the shadow ray.
pub fn in_shadow(world: &Vec<Hittable>, ray: &Ray, lo: i64, hi: i64) -> (r: bool)
    ensures
        r == spec_in_shadow(world@, *ray, lo, hi),
{
    let mut i: usize = 0;
    while i < world.len()
        invariant
            i <= world.len(),
            forall|k: int| 0 <= k < i ==> !spec_shadow_hit(world@[k], *ray, lo, hi),
        decreases world.len() - i,
    {
        let h = world[i].intersect(ray, lo, hi);
        match h {
            Some(rec) => {
                if rec.t > 0 {
                    assert(spec_shadow_hit(world@[i as int], *ray, lo, hi));
                    return true;
                }
            },
            None => {},
        }
        i = i + 1;
    }
    false
}

/// The ambient term: albedo scaled by the ambient coefficient.
pub open spec fn spec_ambient(m: Material) -> Vec3 {
    spec_vscale(m.albedo, m.ka)
}

/// Distance from a hit point to the light.
pub open spec fn spec_light_dist(hit: HitRecord, light: PointLight) -> i64 {
    spec_length(spec_vsub(light.position, hit.point))
}

/// Direction from a hit point toward the light.
pub open spec fn spec_light_dir(hit: HitRecord, light: PointLight) -> Vec3 {
    spec_vdiv(spec_vsub(light.position, hit.point), spec_light_dist(hit, light))
}

/// The shadow ray: cast toward the light from the hit point, offset along
/// the normal by eight epsilons to avoid immediate self-intersection.
pub open spec fn spec_shadow_ray(hit: HitRecord, light: PointLight) -> Ray {
    let origin = spec_vadd(hit.point, spec_vscale(spec_vscale(hit.normal, EPS), EIGHT));
    Ray { origin, dir: spec_normalized(spec_light_dir(hit, light)) }
}

/// Whether a hit point is occluded from the light: some primitive blocks the
/// shadow ray inside `(EPS, light distance - EPS)`.
pub open spec fn spec_occluded(hit: HitRecord, light: PointLight, objs: Seq<Hittable>) -> bool {
    spec_in_shadow(
        objs,
        spec_shadow_ray(hit, light),
        EPS,
        spec_sub(spec_light_dist(hit, light), EPS),
    )
}

/// Local Phong illumination with a hard binary shadow: an occluded point
/// gets the ambient term only; a lit point gets ambient plus Lambertian
/// diffuse plus a Phong specular term applied uniformly across channels, all
/// multiplied element-wise by the light color.
pub open spec fn spec_shade(
    hit: HitRecord,
    cam_pos: Vec3,
    light: PointLight,
    objs: Seq<Hittable>,
) -> Vec3 {
    let ambient = spec_ambient(hit.material);
    if spec_occluded(hit, light, objs) {
        ambient
    } else {
        let l_dir = spec_light_dir(hit, light);
        let ndotl = spec_max(spec_dot(hit.normal, l_dir), 0);
        let diffuse = spec_vscale(spec_vscale(hit.material.albedo, ndotl), light.intensity);
        let view = spec_normalized(spec_vsub(cam_pos, hit.point));
        let refl = spec_normalized(spec_reflect(spec_vneg(l_dir), hit.normal));
        let sp = spec_pow(spec_max(spec_dot(refl, view), 0), hit.material.shininess as nat);
        let spec_s = spec_mul(spec_mul(hit.material.ks, sp), light.intensity);
        let specular = Vec3 { x: spec_s, y: spec_s, z: spec_s };
        spec_hadamard(spec_vadd(spec_vadd(ambient, diffuse), specular), light.color)
    }
}

/// Law: a point occluded from the light is shaded with its ambient term
/// alone, whatever the viewer position — the hard-shadow policy.
pub proof fn lemma_occluded_point_shades_ambient(
    hit: HitRecord,
    cam_pos: Vec3,
    light: PointLight,
    objs: Seq<Hittable>,
)
    requires
        spec_occluded(hit, light, objs),
    ensures
        spec_shade(hit, cam_pos, light, objs) == spec_ambient(hit.material),
{
}

/// Shade one hit under the single light, testing hard shadows against the
/// whole scene.
pub fn shade(hit: &HitRecord, cam_pos: Vec3, light: &PointLight, world: &Vec<Hittable>) -> (c:
    Vec3)
    ensures
        c == spec_shade(*hit, cam_pos, *light, world@),
{
    let ambient = hit.material.albedo.scale(hit.material.ka);

    let to_light = light.position.minus(hit.point);
    let dist_to_light = to_light.length();
    let l_dir = to_light.div_scalar(dist_to_light);

    let shadow_origin = hit.point.plus(hit.normal.scale(EPS).scale(EIGHT));
    let shadow_ray = Ray::new(shadow_origin, l_dir);
    let occluded = in_shadow(world, &shadow_ray, EPS, fx_sub(dist_to_light, EPS));
    if occluded {
        return ambient;
    }

    let ndotl = fx_max(hit.normal.dot(l_dir), 0);
    let diffuse = hit.material.albedo.scale(ndotl).scale(light.intensity);

    let view = cam_pos.minus(hit.point).normalized();
    let refl = Vec3::reflect(l_dir.neg(), hit.normal).normalized();
    let sp = fx_pow(fx_max(refl.dot(view), 0), hit.material.shininess);
    let specular = Vec3::splat(fx_mul(fx_mul(hit.material.ks, sp), light.intensity));

    ambient.plus(diffuse).plus(specular).hadamard(light.color)
}

/// Linear scan for the nearest hit: each primitive is queried inside
/// `[t_min, closest so far]`, and a strictly closer hit replaces the running
/// best, so the first primitive in scene order wins ties.
pub open spec fn spec_scan(
    objs: Seq<Hittable>,
    ray: Ray,
    t_min: i64,
    closest_t: i64,
    closest: Option<HitRecord>,
) -> Option<HitRecord>
    decreases objs.len(),
{
    if objs.len() == 0 {
        closest
    } else {
        let step = match spec_intersect(objs[0], ray, t_min, closest_t) {
            Some(h) => if h.t < closest_t {
                (h.t, Some(h))
            } else {
                (closest_t, closest)
            },
            None => (closest_t, closest),
        };
        spec_scan(objs.subrange(1, objs.len() as int), ray, t_min, step.0, step.1)
    }
}

/// The nearest hit of a ray against the whole scene inside `[t_min, t_max]`.
pub open spec fn spec_nearest_hit(objs: Seq<Hittable>, ray: Ray, t_min: i64, t_max: i64) -> Option<
    HitRecord,
> {
    spec_scan(objs, ray, t_min, t_max, None)
}

/// Find the nearest hit of a ray against the whole scene.
pub fn nearest_hit(world: &Vec<Hittable>, ray: &Ray, t_min: i64, t_max: i64) -> (res: Option<
    HitRecord,
>)
    ensures
        res == spec_nearest_hit(world@, *ray, t_min, t_max),
{
    let ghost all = world@;
    let mut closest_t: i64 = t_max;
    let mut closest: Option<HitRecord> = None;
    let mut i: usize = 0;
    assert(all.subrange(0, all.len() as int) =~= all);
    while i < world.len()
        invariant
            i <= world.len(),
            all == world@,
            spec_scan(all.subrange(i as int, all.len() as int), *ray, t_min, closest_t, closest)
                == spec_nearest_hit(all, *ray, t_min, t_max),
        decreases world.len() - i,
    {
        proof {
            let rest = all.subrange(i as int, all.len() as int);
            assert(rest[0] == all[i as int]);
            assert(rest.subrange(1, rest.len() as int) =~= all.subrange(
                i + 1,
                all.len() as int,
            ));
        }
        let h = world[i].intersect(ray, t_min, closest_t);
        match h {
            Some(rec) => {
                if rec.t < closest_t {
                    closest_t = rec.t;
                    closest = Some(rec);
                }
            },
            None => {},
        }
        i = i + 1;
    }
    assert(all.subrange(all.len() as int, all.len() as int).len() == 0);
    closest
}

/// The nearest hit for one sub-sample of a pixel.
pub open spec fn spec_sample_hit(
    cam: Camera,
    objs: Seq<Hittable>,
    x: i32,
    y: i32,
    w: i32,
    h: i32,
    ox: i64,
    oy: i64,
) -> Option<HitRecord> {
    spec_nearest_hit(objs, spec_ray_for_pixel_offset(cam, x, y, w, h, ox, oy), RAY_T_MIN, INF)
}

/// The color contributed by one sub-sample: the shaded nearest hit, or the
/// background gradient when the sub-ray hit nothing.
pub open spec fn spec_sample_color(
    cam: Camera,
    objs: Seq<Hittable>,
    light: PointLight,
    x: i32,
    y: i32,
    w: i32,
    h: i32,
    ox: i64,
    oy: i64,
) -> Vec3 {
    let ray = spec_ray_for_pixel_offset(cam, x, y, w, h, ox, oy);
    match spec_nearest_hit(objs, ray, RAY_T_MIN, INF) {
        Some(hit) => spec_shade(hit, cam.eye, light, objs),
        None => spec_background(ray.dir),
    }
}

/// The pixel's color: the arithmetic mean of the four sub-sample colors,
/// taken in linear color space.
pub open spec fn spec_pixel_color(
    cam: Camera,
    objs: Seq<Hittable>,
    light: PointLight,
    x: i32,
    y: i32,
    w: i32,
    h: i32,
) -> Vec3 {
    let zero = Vec3 { x: 0, y: 0, z: 0 };
    let a1 = spec_vadd(zero, spec_sample_color(cam, objs, light, x, y, w, h, OFF_LO, OFF_LO));
    let a2 = spec_vadd(a1, spec_sample_color(cam, objs, light, x, y, w, h, OFF_HI, OFF_LO));
    let a3 = spec_vadd(a2, spec_sample_color(cam, objs, light, x, y, w, h, OFF_LO, OFF_HI));
    let a4 = spec_vadd(a3, spec_sample_color(cam, objs, light, x, y, w, h, OFF_HI, OFF_HI));
    spec_vdiv(a4, FOUR)
}

/// A sub-sample's hit distance, with the sentinel [`INF`] for a miss.
pub open spec fn spec_hit_t(hit: Option<HitRecord>) -> i64 {
    match hit {
        Some(h) => h.t,
        None => INF,
    }
}

/// Fold one sub-sample's hit into the running minimum distance.
pub open spec fn spec_min_depth(d: i64, hit: Option<HitRecord>) -> i64 {
    match hit {
        Some(h) => if h.t < d {
            h.t
        } else {
            d
        },
        None => d,
    }
}

/// The value written to the pixel's depth slot: the minimum hit distance
/// across the four sub-samples, or [`INF`] when every sub-sample missed.
pub open spec fn spec_pixel_depth(
    cam: Camera,
    objs: Seq<Hittable>,
    x: i32,
    y: i32,
    w: i32,
    h: i32,
) -> i64 {
    let d1 = spec_min_depth(INF, spec_sample_hit(cam, objs, x, y, w, h, OFF_LO, OFF_LO));
    let d2 = spec_min_depth(d1, spec_sample_hit(cam, objs, x, y, w, h, OFF_HI, OFF_LO));
    let d3 = spec_min_depth(d2, spec_sample_hit(cam, objs, x, y, w, h, OFF_LO, OFF_HI));
    spec_min_depth(d3, spec_sample_hit(cam, objs, x, y, w, h, OFF_HI, OFF_HI))
}

/// Trace one pixel: cast the four fixed sub-pixel rays, shade each hit or
/// evaluate the background, write the nearest sub-sample hit distance (or
/// the infinity sentinel) into the depth buffer slot `idx`, and return the
/// mean of the four sub-sample colors.
pub fn trace_pixel(
    x: i32,
    y: i32,
    w: i32,
    h: i32,
    camera: &Camera,
    world: &Vec<Hittable>,
    light: &PointLight,
    zbuffer: &mut Vec<i64>,
    idx: usize,
) -> (color: Vec3)
    requires
        idx < old(zbuffer).len(),
    ensures
        color == spec_pixel_color(*camera, world@, *light, x, y, w, h),
        final(zbuffer)@ == old(zbuffer)@.update(
            idx as int,
            spec_pixel_depth(*camera, world@, x, y, w, h),
        ),
{
    let r1 = camera.ray_for_pixel_offset(x, y, w, h, OFF_LO, OFF_LO);
    let h1 = nearest_hit(world, &r1, RAY_T_MIN, INF);
    let c1 = match h1 {
        Some(hit) => shade(&hit, camera.eye, light, world),
        None => background(r1.dir),
    };

    let r2 = camera.ray_for_pixel_offset(x, y, w, h, OFF_HI, OFF_LO);
    let h2 = nearest_hit(world, &r2, RAY_T_MIN, INF);
    let c2 = match h2 {
        Some(hit) => shade(&hit, camera.eye, light, world),
        None => background(r2.dir),
    };

    let r3 = camera.ray_for_pixel_offset(x, y, w, h, OFF_LO, OFF_HI);
    let h3 = nearest_hit(world, &r3, RAY_T_MIN, INF);
    let c3 = match h3 {
        Some(hit) => shade(&hit, camera.eye, light, world),
        None => background(r3.dir),
    };

    let r4 = camera.ray_for_pixel_offset(x, y, w, h, OFF_HI, OFF_HI);
    let h4 = nearest_hit(world, &r4, RAY_T_MIN, INF);
    let c4 = match h4 {
        Some(hit) => shade(&hit, camera.eye, light, world),
        None => background(r4.dir),
    };

    let accum = Vec3::new(0, 0, 0).plus(c1).plus(c2).plus(c3).plus(c4);

    let mut best_t: i64 = INF;
    let mut have_hit: bool = false;
    if let Some(hit) = h1 {
        have_hit = true;
        if hit.t < best_t {
            best_t = hit.t;
        }
    }
    if let Some(hit) = h2 {
        have_hit = true;
        if hit.t < best_t {
            best_t = hit.t;
        }
    }
    if let Some(hit) = h3 {
        have_hit = true;
        if hit.t < best_t {
            best_t = hit.t;
        }
    }
    if let Some(hit) = h4 {
        have_hit = true;
        if hit.t < best_t {
            best_t = hit.t;
        }
    }
    let depth = if have_hit {
        best_t
    } else {
        INF
    };
    zbuffer.set(idx, depth);

    accum.div_scalar(FOUR)
}

/// Law: the depth written for a pixel is exactly the minimum of the four
/// sub-samples' hit distances, where a miss counts as the sentinel [`INF`] —
/// so a pixel whose sub-samples all miss keeps the sentinel, and a pixel with
/// at least one hit records the smallest hit distance.
pub proof fn lemma_pixel_depth_is_min(
    cam: Camera,
    objs: Seq<Hittable>,
    x: i32,
    y: i32,
    w: i32,
    h: i32,
)
    ensures
        spec_pixel_depth(cam, objs, x, y, w, h) == spec_min(
            spec_min(
                spec_min(
                    spec_hit_t(spec_sample_hit(cam, objs, x, y, w, h, OFF_LO, OFF_LO)),
                    spec_hit_t(spec_sample_hit(cam, objs, x, y, w, h, OFF_HI, OFF_LO)),
                ),
                spec_hit_t(spec_sample_hit(cam, objs, x, y, w, h, OFF_LO, OFF_HI)),
            ),
            spec_hit_t(spec_sample_hit(cam, objs, x, y, w, h, OFF_HI, OFF_HI)),
        ),
{
}

/// Law: a pixel with no geometric hit across all four sub-samples leaves its
/// depth slot at the infinity sentinel.
pub proof fn lemma_pixel_depth_no_hit(
    cam: Camera,
    objs: Seq<Hittable>,
    x: i32,
    y: i32,
    w: i32,
    h: i32,
)
    requires
        spec_sample_hit(cam, objs, x, y, w, h, OFF_LO, OFF_LO) is None,
        spec_sample_hit(cam, objs, x, y, w, h, OFF_HI, OFF_LO) is None,
        spec_sample_hit(cam, objs, x, y, w, h, OFF_LO, OFF_HI) is None,
        spec_sample_hit(cam, objs, x, y, w, h, OFF_HI, OFF_HI) is None,
    ensures
        spec_pixel_depth(cam, objs, x, y, w, h) == INF,
{
}

/// Law: averaging four equal sub-sample colors gives back that color, so a
/// pixel whose four sub-rays see the identical shaded result resolves to the
/// single-sample color. The bound keeps the four-fold sum away from
/// saturation.
pub proof fn lemma_average_of_equal_samples(c: Vec3)
    requires
        -(i64::MAX / 4) <= c.x <= i64::MAX / 4,
        -(i64::MAX / 4) <= c.y <= i64::MAX / 4,
        -(i64::MAX / 4) <= c.z <= i64::MAX / 4,
    ensures
        spec_vdiv(
            spec_vadd(
                spec_vadd(spec_vadd(spec_vadd(Vec3 { x: 0, y: 0, z: 0 }, c), c), c),
                c,
            ),
            FOUR,
        ) == c,
{
    lemma_quarter_div_exact(c.x);
    lemma_quarter_div_exact(c.y);
    lemma_quarter_div_exact(c.z);
}

/// Law: a pixel whose four sub-samples all contribute the same color `c`
/// resolves to `c` — sub-sample averaging is exact on uniform pixels.
pub proof fn lemma_uniform_pixel_color(
    cam: Camera,
    objs: Seq<Hittable>,
    light: PointLight,
    x: i32,
    y: i32,
    w: i32,
    h: i32,
    c: Vec3,
)
    requires
        spec_sample_color(cam, objs, light, x, y, w, h, OFF_LO, OFF_LO) == c,
        spec_sample_color(cam, objs, light, x, y, w, h, OFF_HI, OFF_LO) == c,
        spec_sample_color(cam, objs, light, x, y, w, h, OFF_LO, OFF_HI) == c,
        spec_sample_color(cam, objs, light, x, y, w, h, OFF_HI, OFF_HI) == c,
        -(i64::MAX / 4) <= c.x <= i64::MAX / 4,
        -(i64::MAX / 4) <= c.y <= i64::MAX / 4,
        -(i64::MAX / 4) <= c.z <= i64::MAX / 4,
    ensures
        spec_pixel_color(cam, objs, light, x, y, w, h) == c,
{
    lemma_average_of_equal_samples(c);
}

} // verus!
