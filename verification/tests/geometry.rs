use raytracer::color::Color;
use raytracer::fixed::{fx_div, fx_mul, fx_sqrt, int_to_fx, sat_add, sat_neg, sat_sub};
use raytracer::material::Material;
use raytracer::model::{Circle, Plane};
use raytracer::ray::Ray;
use raytracer::vec3::Vec3;

fn white() -> Material {
    Material::color(Color::new(65536, 65536, 65536, 65536))
}

#[test]
fn fixed_point_ops_exact() {
    assert_eq!(fx_mul(196608, 131072), 393216);
    assert_eq!(fx_mul(-65536, 65536), -65536);
    assert_eq!(fx_div(65536, 131072), 32768);
    assert_eq!(fx_div(65536, 0), 0);
    assert_eq!(fx_sqrt(262144), 131072);
    assert_eq!(fx_sqrt(0), 0);
    assert_eq!(sat_add(i64::MAX, 1), i64::MAX);
    assert_eq!(sat_sub(i64::MIN, 1), i64::MIN);
    assert_eq!(sat_neg(i64::MIN), i64::MAX);
    assert_eq!(int_to_fx(5), 327680);
    assert_eq!(int_to_fx(-3), -196608);
}

#[test]
fn vector_ops_exact() {
    let x = Vec3::new(65536, 0, 0);
    let y = Vec3::new(0, 65536, 0);
    assert_eq!(x.dot(x), 65536);
    assert_eq!(x.dot(y), 0);
    assert_eq!(x.cross(y), Vec3::new(0, 0, 65536));
    assert_eq!(x.add(y), Vec3::new(65536, 65536, 0));
    assert_eq!(x.sub(y), Vec3::new(65536, -65536, 0));
    assert_eq!(x.scale(131072), Vec3::new(131072, 0, 0));
    assert_eq!(Vec3::new(131072, 0, 0).normalize(), Vec3::new(65536, 0, 0));
    assert_eq!(Vec3::new(0, 0, 0).normalize(), Vec3::new(0, 0, 0));
}

#[test]
fn ray_normalizes_direction() {
    let ray = Ray::new(Vec3::new(0, 0, 0), Vec3::new(131072, 0, 0));
    assert_eq!(ray.direction(), Vec3::new(65536, 0, 0));
    assert_eq!(ray.origin(), Vec3::new(0, 0, 0));
}

#[test]
fn ray_point_at_distance() {
    let ray = Ray::new(Vec3::new(65536, 0, 0), Vec3::new(65536, 0, 0));
    assert_eq!(ray.point_at_t(131072), Vec3::new(196608, 0, 0));
}

#[test]
fn ray_mirror_reflects() {
    let ray = Ray::new(Vec3::new(0, 131072, 0), Vec3::new(0, -65536, 0));
    let bounced = ray.mirror(Vec3::new(0, 65536, 0), Vec3::new(0, 0, 0));
    assert_eq!(bounced.direction(), Vec3::new(0, 65536, 0));
    assert_eq!(bounced.origin(), Vec3::new(0, 0, 0));
}

#[test]
fn sphere_head_on_reports_first_crossing() {
    // Radius 5, hit from distance 10: the crossing sits at t = 10 - 5.
    let circle = Circle::new(Vec3::new(0, 0, 0), 327680, white());
    let ray = Ray::new(Vec3::new(655360, 0, 0), Vec3::new(-65536, 0, 0));
    let hit = circle.collides(ray).unwrap();
    assert_eq!(hit.t, 327680);
}

#[test]
fn sphere_tangent_single_hit() {
    // Perpendicular distance from the ray to the center equals the radius:
    // the degenerate roots coincide and exactly one hit is reported.
    let circle = Circle::new(Vec3::new(0, 0, 0), 327680, white());
    let ray = Ray::new(Vec3::new(655360, 327680, 0), Vec3::new(-65536, 0, 0));
    let hit = circle.collides(ray).unwrap();
    assert_eq!(hit.t, 655360);
}

#[test]
fn sphere_behind_ray_misses() {
    let circle = Circle::new(Vec3::new(0, 0, 0), 327680, white());
    let ray = Ray::new(Vec3::new(655360, 0, 0), Vec3::new(65536, 0, 0));
    assert!(circle.collides(ray).is_none());
}

#[test]
fn plane_parallel_never_hits() {
    let plane = Plane::new(Vec3::new(0, 0, 0), Vec3::new(0, 65536, 0), white());
    let ray = Ray::new(Vec3::new(0, 65536, 0), Vec3::new(65536, 0, 0));
    assert!(plane.collides(ray).is_none());
}

#[test]
fn plane_back_face_never_hits() {
    let plane = Plane::new(Vec3::new(0, 0, 0), Vec3::new(0, 65536, 0), white());
    let ray = Ray::new(Vec3::new(0, 65536, 0), Vec3::new(0, 65536, 0));
    assert!(plane.collides(ray).is_none());
}

#[test]
fn plane_straight_down_hit() {
    let plane = Plane::new(Vec3::new(0, 0, 0), Vec3::new(0, 65536, 0), white());
    let ray = Ray::new(Vec3::new(0, 65536, 0), Vec3::new(0, -65536, 0));
    let hit = plane.collides(ray).unwrap();
    assert_eq!(hit.t, 65536);
    assert_eq!(hit.normal, Vec3::new(0, 65536, 0));
    // The stored position is pulled back one raw unit along the ray.
    assert_eq!(hit.position, Vec3::new(0, 1, 0));
}
