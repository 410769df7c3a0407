//! The pixel tracer: camera rays, sub-sample averaging, nearest-hit search,
//! and the depth buffer policy.

use raytracer::camera::Camera;
use raytracer::fixed::{FOUR, INF};
use raytracer::light::PointLight;
use raytracer::material::rubber_red;
use raytracer::math::Vec3;
use raytracer::object::Hittable;
use raytracer::plane::Plane;
use raytracer::cube::Cube;
use raytracer::render::{background, nearest_hit, shade, trace_pixel, OFF_HI, OFF_LO, RAY_T_MIN};

fn v(x: i64, y: i64, z: i64) -> Vec3 {
    Vec3::new(x, y, z)
}

/// Eye at the origin looking down negative z, 90-degree vertical field of
/// view, square aspect.
fn canonical_camera() -> Camera {
    Camera::new(v(0, 0, 0), v(0, 0, -1_000_000), v(0, 1_000_000, 0), 1_000_000, 1_000_000)
}

fn test_light() -> PointLight {
    PointLight {
        position: v(0, 10_000_000, 0),
        color: Vec3::splat(1_000_000),
        intensity: 1_500_000,
    }
}

#[test]
fn camera_basis_is_orthonormal_for_canonical_pose() {
    let cam = canonical_camera();
    assert_eq!(cam.forward, v(0, 0, -1_000_000));
    assert_eq!(cam.right, v(1_000_000, 0, 0));
    assert_eq!(cam.true_up, v(0, 1_000_000, 0));
}

#[test]
fn center_pixel_ray_points_forward() {
    let cam = canonical_camera();
    let ray = cam.ray_for_pixel(0, 0, 1, 1);
    assert_eq!(ray.origin, v(0, 0, 0));
    assert_eq!(ray.dir, v(0, 0, -1_000_000));
}

#[test]
fn center_ray_equals_offset_ray_at_half() {
    let cam = Camera::new(
        v(1_000_000, 2_000_000, 3_000_000),
        v(4_000_000, -1_000_000, 500_000),
        v(0, 1_000_000, 0),
        577_350,
        1_250_000,
    );
    assert_eq!(
        cam.ray_for_pixel(3, 2, 10, 7),
        cam.ray_for_pixel_offset(3, 2, 10, 7, 500_000, 500_000)
    );
    assert_eq!(
        cam.ray_for_pixel(0, 6, 10, 7),
        cam.ray_for_pixel_offset(0, 6, 10, 7, 500_000, 500_000)
    );
}

#[test]
fn nearest_hit_picks_the_closer_primitive() {
    let cube = Hittable::Cube(Cube::new(
        v(0, 0, 0),
        v(1_000_000, 1_000_000, 1_000_000),
        rubber_red(),
    ));
    let plane = Hittable::Plane(Plane::new(v(0, -3_000_000, 0), v(0, 1_000_000, 0), rubber_red()));
    let down = raytracer::math::Ray::new(v(0, 5_000_000, 0), v(0, -1_000_000, 0));

    let world = vec![plane, cube];
    let hit = nearest_hit(&world, &down, RAY_T_MIN, INF).expect("something below must be hit");
    assert_eq!(hit.t, 4_000_000);
    assert_eq!(hit.normal, v(0, 1_000_000, 0));

    let world_reversed = vec![cube, plane];
    let hit2 = nearest_hit(&world_reversed, &down, RAY_T_MIN, INF).expect("order must not matter");
    assert_eq!(hit2.t, 4_000_000);

    assert!(nearest_hit(&Vec::new(), &down, RAY_T_MIN, INF).is_none());
}

#[test]
fn pixel_with_no_hit_keeps_depth_at_infinity() {
    let cam = canonical_camera();
    let world: Vec<Hittable> = Vec::new();
    let light = test_light();
    let mut zbuffer: Vec<i64> = vec![0, 0, 0];

    let color = trace_pixel(0, 0, 1, 1, &cam, &world, &light, &mut zbuffer, 1);

    // Depth slot: the infinity sentinel; other slots untouched.
    assert_eq!(zbuffer, vec![0, INF, 0]);

    // The color is the average of the four background sub-samples.
    let mut expected = v(0, 0, 0);
    for (ox, oy) in [(OFF_LO, OFF_LO), (OFF_HI, OFF_LO), (OFF_LO, OFF_HI), (OFF_HI, OFF_HI)] {
        let ray = cam.ray_for_pixel_offset(0, 0, 1, 1, ox, oy);
        expected = expected.plus(background(ray.dir));
    }
    assert_eq!(color, expected.div_scalar(FOUR));
}

#[test]
fn half_covered_pixel_averages_surface_and_background() {
    let cam = canonical_camera();
    // A wall at x = -5: sub-rays bending left hit it, those bending right miss.
    let world = vec![Hittable::Plane(Plane::new(
        v(-5_000_000, 0, 0),
        v(1_000_000, 0, 0),
        rubber_red(),
    ))];
    let light = test_light();

    let offsets = [(OFF_LO, OFF_LO), (OFF_HI, OFF_LO), (OFF_LO, OFF_HI), (OFF_HI, OFF_HI)];
    let mut expected = v(0, 0, 0);
    let mut expected_depth = INF;
    let mut hits = 0;
    for (ox, oy) in offsets {
        let ray = cam.ray_for_pixel_offset(0, 0, 1, 1, ox, oy);
        match nearest_hit(&world, &ray, RAY_T_MIN, INF) {
            Some(hit) => {
                hits += 1;
                if hit.t < expected_depth {
                    expected_depth = hit.t;
                }
                expected = expected.plus(shade(&hit, cam.eye, &light, &world));
            }
            None => {
                expected = expected.plus(background(ray.dir));
            }
        }
    }
    // Exactly half the sub-rays see the wall.
    assert_eq!(hits, 2);

    let mut zbuffer: Vec<i64> = vec![0; 4];
    let color = trace_pixel(0, 0, 1, 1, &cam, &world, &light, &mut zbuffer, 2);
    assert_eq!(color, expected.div_scalar(FOUR));
    assert_eq!(zbuffer[2], expected_depth);
    assert!(expected_depth < INF);
}

#[test]
fn averaging_four_equal_colors_is_exact() {
    let c = v(1_470_000, 45_000, 333_333);
    let averaged = v(0, 0, 0).plus(c).plus(c).plus(c).plus(c).div_scalar(FOUR);
    assert_eq!(averaged, c);
}
