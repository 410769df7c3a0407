//! Shading scenarios: hard shadows, the ambient-only occluded case, full
//! Phong lighting on a lit point, and the background gradient.

use raytracer::fixed::{EPS, INF};
use raytracer::light::PointLight;
use raytracer::material::{chrome, light_gray};
use raytracer::math::{Ray, Vec3};
use raytracer::object::{HitRecord, Hittable};
use raytracer::cube::Cube;
use raytracer::plane::Plane;
use raytracer::render::{background, in_shadow, shade};

fn v(x: i64, y: i64, z: i64) -> Vec3 {
    Vec3::new(x, y, z)
}

fn overhead_light() -> PointLight {
    PointLight {
        position: v(0, 10_000_000, 0),
        color: Vec3::splat(1_000_000),
        intensity: 1_500_000,
    }
}

fn floor_hit_at_origin() -> HitRecord {
    HitRecord {
        t: 1_000_000,
        point: v(0, 0, 0),
        normal: v(0, 1_000_000, 0),
        material: light_gray(),
    }
}

#[test]
fn occluder_above_forces_ambient_only_color() {
    // A box fully blocking the path from the surface point to the light.
    let occluder = Hittable::Cube(Cube::new(
        v(0, 5_000_000, 0),
        v(2_000_000, 500_000, 2_000_000),
        chrome(),
    ));
    let world = vec![occluder];
    let hit = floor_hit_at_origin();
    let color = shade(&hit, v(0, 10_000_000, 0), &overhead_light(), &world);
    // Ambient term only: albedo * ka = 0.75 * 0.06 = 0.045.
    assert_eq!(color, v(45_000, 45_000, 45_000));
}

#[test]
fn lit_point_gets_ambient_diffuse_and_specular() {
    // The only primitive is the floor itself, which cannot shadow the point.
    let world = vec![Hittable::Plane(Plane::new(v(0, 0, 0), v(0, 1_000_000, 0), light_gray()))];
    let hit = floor_hit_at_origin();
    let color = shade(&hit, v(0, 10_000_000, 0), &overhead_light(), &world);
    // ambient 0.045 + diffuse 0.75 * 1.5 = 1.125 + specular 0.2 * 1 * 1.5 = 0.3
    assert_eq!(color, v(1_470_000, 1_470_000, 1_470_000));
}

#[test]
fn shadow_ray_reports_the_blocking_primitive() {
    let occluder = Hittable::Cube(Cube::new(
        v(0, 5_000_000, 0),
        v(2_000_000, 500_000, 2_000_000),
        chrome(),
    ));
    let world = vec![occluder];
    let up = Ray::new(v(0, 800, 0), v(0, 1_000_000, 0));
    assert!(in_shadow(&world, &up, EPS, 9_999_900));
    // The same ray is clear when the interval stops short of the box.
    assert!(!in_shadow(&world, &up, EPS, 4_000_000));
    assert!(!in_shadow(&Vec::new(), &up, EPS, INF));
}

#[test]
fn background_blends_on_vertical_component() {
    // Straight up: pure sky color; straight down: pure horizon color.
    assert_eq!(background(v(0, 1_000_000, 0)), v(600_000, 800_000, 1_000_000));
    assert_eq!(background(v(0, -1_000_000, 0)), v(40_000, 50_000, 80_000));
    // Level: the even mix of the two.
    assert_eq!(background(v(1_000_000, 0, 0)), v(320_000, 425_000, 540_000));
}
