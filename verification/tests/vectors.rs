//! Vector and ray operations on concrete values, including the reflection
//! behavior on exactly representable normals.

use raytracer::fixed::SCALE;
use raytracer::math::{Ray, Vec3};

fn v(x: i64, y: i64, z: i64) -> Vec3 {
    Vec3::new(x, y, z)
}

#[test]
fn componentwise_ops() {
    let a = v(1_000_000, -2_000_000, 3_000_000);
    let b = v(500_000, 500_000, -500_000);
    assert_eq!(a.plus(b), v(1_500_000, -1_500_000, 2_500_000));
    assert_eq!(a.minus(b), v(500_000, -2_500_000, 3_500_000));
    assert_eq!(a.scale(2_000_000), v(2_000_000, -4_000_000, 6_000_000));
    assert_eq!(a.div_scalar(2_000_000), v(500_000, -1_000_000, 1_500_000));
    assert_eq!(a.neg(), v(-1_000_000, 2_000_000, -3_000_000));
    assert_eq!(a.hadamard(b), v(500_000, -1_000_000, -1_500_000));
    assert_eq!(a.min(b), v(500_000, -2_000_000, -500_000));
    assert_eq!(a.max(b), v(1_000_000, 500_000, 3_000_000));
    assert_eq!(a.abs(), v(1_000_000, 2_000_000, 3_000_000));
    assert_eq!(Vec3::splat(7), v(7, 7, 7));
}

#[test]
fn dot_and_cross() {
    let a = v(1_000_000, 2_000_000, 3_000_000);
    let b = v(4_000_000, -5_000_000, 6_000_000);
    // 4 - 10 + 18 = 12
    assert_eq!(a.dot(b), 12_000_000);
    // (2*6 - 3*(-5), 3*4 - 1*6, 1*(-5) - 2*4) = (27, 6, -13)
    assert_eq!(a.cross(b), v(27_000_000, 6_000_000, -13_000_000));
}

#[test]
fn length_of_pythagorean_triple() {
    assert_eq!(v(3_000_000, 4_000_000, 0).length(), 5_000_000);
    assert_eq!(v(0, 0, -1_000_000).length(), SCALE);
}

#[test]
fn normalized_rescales_to_unit() {
    assert_eq!(v(0, 0, -2_000_000).normalized(), v(0, 0, -1_000_000));
    assert_eq!(v(3_000_000, 4_000_000, 0).normalized(), v(600_000, 800_000, 0));
}

#[test]
fn normalized_passes_degenerate_vector_through() {
    // Length below the epsilon threshold: returned unchanged, not divided.
    let tiny = v(50, 0, 0);
    assert_eq!(tiny.normalized(), tiny);
    assert_eq!(v(0, 0, 0).normalized(), v(0, 0, 0));
}

#[test]
fn reflect_bounces_off_axis_normal() {
    let incoming = v(1_000_000, -1_000_000, 0);
    let n = v(0, 1_000_000, 0);
    let r = Vec3::reflect(incoming, n);
    assert_eq!(r, v(1_000_000, 1_000_000, 0));
    // The normal component flips; the length is preserved.
    assert_eq!(r.dot(n), -incoming.dot(n));
    assert_eq!(r.length(), incoming.length());
}

#[test]
fn reflect_on_exact_unit_normal() {
    // (0.6, 0.8, 0) is exactly unit length in fixed point.
    let n = v(600_000, 800_000, 0);
    assert_eq!(n.dot(n), SCALE);
    let i = v(1_000_000, 0, 0);
    let r = Vec3::reflect(i, n);
    assert_eq!(r, v(280_000, -960_000, 0));
    assert_eq!(r.dot(n), -i.dot(n));
}

#[test]
fn ray_new_normalizes_direction() {
    let r = Ray::new(v(1_000_000, 2_000_000, 3_000_000), v(0, 0, -2_000_000));
    assert_eq!(r.origin, v(1_000_000, 2_000_000, 3_000_000));
    assert_eq!(r.dir, v(0, 0, -1_000_000));
}

#[test]
fn ray_at_walks_the_direction() {
    let r = Ray::new(v(1_000_000, 2_000_000, 3_000_000), v(0, 0, -1_000_000));
    assert_eq!(r.at(2_000_000), v(1_000_000, 2_000_000, 1_000_000));
    assert_eq!(r.at(0), r.origin);
}
