//! The camera: an eye, an orthonormal basis, and per-pixel ray generation.

use vstd::prelude::*;

use crate::fixed::{
    fx_add, fx_div, fx_from_i32, fx_mul, fx_sub, spec_add, spec_div, spec_from_i32, spec_mul,
    spec_sub, HALF, SCALE, TWO,
};
use crate::math::{
    spec_cross, spec_normalized, spec_vadd, spec_vscale, spec_vsub, Ray, Vec3,
};

verus! {

/// An immutable camera pose. The basis `{right, true_up, forward}` is derived
/// once at construction; `fov_scale` is the tangent of half the vertical
/// field of view (supplied by the caller, since the trigonometry lives
/// outside the core), and `aspect` is width over height.
#[derive(Clone, Copy, Debug, PartialEq, Eq, Structural)]
pub struct Camera {
    pub eye: Vec3,
    pub center: Vec3,
    pub up: Vec3,
    pub right: Vec3,
    pub forward: Vec3,
    pub true_up: Vec3,
    pub fov_scale: i64,
    pub aspect: i64,
}

/// The camera value built from a pose: forward toward `center`, `right` and
/// `true_up` completing a right-handed basis by normalized cross products.
pub open spec fn spec_camera_new(eye: Vec3, center: Vec3, up: Vec3, fov_scale: i64, aspect: i64) -> Camera {
    let forward = spec_normalized(spec_vsub(center, eye));
    let right = spec_normalized(spec_cross(forward, up));
    let true_up = spec_normalized(spec_cross(right, forward));
    Camera { eye, center, up, right, forward, true_up, fov_scale, aspect }
}

/// The world-space ray for pixel `(px, py)` of a `w` by `h` image, cast
/// through the sub-pixel offset `(ox, oy)` (each in `[0, 1)`). Screen-space y
/// is flipped: increasing rows map to decreasing world-space y.
pub open spec fn spec_ray_for_pixel_offset(
    cam: Camera,
    px: i32,
    py: i32,
    w: i32,
    h: i32,
    ox: i64,
    oy: i64,
) -> Ray {
    let xv = spec_sub(
        spec_mul(spec_div(spec_add(spec_from_i32(px), ox), spec_from_i32(w)), TWO),
        SCALE,
    );
    let yv = spec_sub(
        SCALE,
        spec_mul(spec_div(spec_add(spec_from_i32(py), oy), spec_from_i32(h)), TWO),
    );
    let sx = spec_mul(spec_mul(xv, cam.aspect), cam.fov_scale);
    let sy = spec_mul(yv, cam.fov_scale);
    let dir = spec_normalized(
        spec_vadd(
            spec_vadd(spec_vscale(cam.right, sx), spec_vscale(cam.true_up, sy)),
            cam.forward,
        ),
    );
    Ray { origin: cam.eye, dir: spec_normalized(dir) }
}

/// The ray through the center of pixel `(px, py)`: both sub-pixel offsets
/// fixed at one half.
pub open spec fn spec_ray_for_pixel(cam: Camera, px: i32, py: i32, w: i32, h: i32) -> Ray {
    let xv = spec_sub(
        spec_mul(spec_div(spec_add(spec_from_i32(px), HALF), spec_from_i32(w)), TWO),
        SCALE,
    );
    let yv = spec_sub(
        SCALE,
        spec_mul(spec_div(spec_add(spec_from_i32(py), HALF), spec_from_i32(h)), TWO),
    );
    let sx = spec_mul(spec_mul(xv, cam.aspect), cam.fov_scale);
    let sy = spec_mul(yv, cam.fov_scale);
    let dir = spec_normalized(
        spec_vadd(
            spec_vadd(spec_vscale(cam.right, sx), spec_vscale(cam.true_up, sy)),
            cam.forward,
        ),
    );
    Ray { origin: cam.eye, dir: spec_normalized(dir) }
}

/// Law: the center-of-pixel ray equals the offset ray at `(0.5, 0.5)`, for
/// every camera and every pixel coordinate.
pub proof fn lemma_center_ray_is_offset_half(cam: Camera, px: i32, py: i32, w: i32, h: i32)
    ensures
        spec_ray_for_pixel(cam, px, py, w, h) == spec_ray_for_pixel_offset(
            cam,
            px,
            py,
            w,
            h,
            HALF,
            HALF,
        ),
{
}

impl Camera {
    /// A camera from eye, look-at center, nominal up, tangent of half the
    /// vertical field of view, and aspect ratio.
    pub fn new(eye: Vec3, center: Vec3, up: Vec3, fov_scale: i64, aspect: i64) -> (cam: Camera)
        ensures
            cam == spec_camera_new(eye, center, up, fov_scale, aspect),
    {
        let forward = center.minus(eye).normalized();
        let right = forward.cross(up).normalized();
        let true_up = right.cross(forward).normalized();
        Camera { eye, center, up, right, forward, true_up, fov_scale, aspect }
    }

    /// The world-space ray for a pixel and a sub-pixel offset.
    pub fn ray_for_pixel_offset(&self, px: i32, py: i32, w: i32, h: i32, ox: i64, oy: i64) -> (r: Ray)
        ensures
            r == spec_ray_for_pixel_offset(*self, px, py, w, h, ox, oy),
    {
        let xv = fx_sub(fx_mul(fx_div(fx_add(fx_from_i32(px), ox), fx_from_i32(w)), TWO), SCALE);
        let yv = fx_sub(SCALE, fx_mul(fx_div(fx_add(fx_from_i32(py), oy), fx_from_i32(h)), TWO));

        let sx = fx_mul(fx_mul(xv, self.aspect), self.fov_scale);
        let sy = fx_mul(yv, self.fov_scale);

        let dir = self.right.scale(sx).plus(self.true_up.scale(sy)).plus(self.forward).normalized();
        Ray::new(self.eye, dir)
    }

    /// The ray through the pixel's center: offset `(0.5, 0.5)`.
    pub fn ray_for_pixel(&self, px: i32, py: i32, w: i32, h: i32) -> (r: Ray)
        ensures
            r == spec_ray_for_pixel(*self, px, py, w, h),
            r == spec_ray_for_pixel_offset(*self, px, py, w, h, HALF, HALF),
    {
        self.ray_for_pixel_offset(px, py, w, h, HALF, HALF)
    }
}

} // verus!
