use raytracer::camera::Camera;
use raytracer::color::{add_colours, multiply_colour, multiply_colours, Color};
use raytracer::material::Material;
use raytracer::model::{Circle, Plane, SceneModel};
use raytracer::ray::Ray;
use raytracer::scene::Scene;
use raytracer::vec3::Vec3;

fn camera() -> Camera {
    Camera::new(Vec3::new(655360, 65536, 0), Vec3::new(-65536, 0, 0))
}

fn floor_plane(reflective: i64) -> SceneModel {
    SceneModel::Plane(Plane::new(
        Vec3::new(0, 0, 0),
        Vec3::new(0, 65536, 0),
        Material::color_ref(Color::new(58982, 58982, 58982, 65536), reflective),
    ))
}

#[test]
fn color_helpers_exact() {
    let c = Color::new(65536, 131072, 32768, 65536);
    // Channel scaling keeps alpha.
    assert_eq!(multiply_colour(&c, 32768), Color::new(32768, 65536, 16384, 65536));
    let d = Color::new(32768, 32768, 131072, 131072);
    assert_eq!(multiply_colours(&c, &d), Color::new(32768, 65536, 65536, 131072));
    assert_eq!(add_colours(&c, &d), Color::new(98304, 163840, 163840, 196608));
}

#[test]
fn material_solid_color() {
    let col = Color::new(39322, 19661, 0, 65536);
    let m = Material::color(col);
    assert_eq!(m.get_color(Vec3::new(123, 456, 789)), col);
    assert_eq!(m.reflective, 0);
    let m2 = Material::color_ref(col, 45875);
    assert_eq!(m2.reflective, 45875);
}

#[test]
fn miss_returns_background() {
    let scene = Scene::new(camera());
    let ray = Ray::new(Vec3::new(0, 0, 0), Vec3::new(65536, 0, 0));
    assert_eq!(scene.shoot_ray(ray), Color::new(13107, 13107, 26214, 65536));
}

#[test]
fn scene_add_appends() {
    let mut scene = Scene::new(camera());
    assert_eq!(scene.models.len(), 0);
    scene.add(floor_plane(0));
    scene.add(SceneModel::Circle(Circle::new(
        Vec3::new(0, 327680, 0),
        65536,
        Material::color(Color::new(65536, 0, 0, 65536)),
    )));
    assert_eq!(scene.models.len(), 2);
    assert_eq!(scene.models[1].position(), Vec3::new(0, 327680, 0));
}

#[test]
fn zero_reflection_ignores_depth() {
    let mut scene = Scene::new(camera());
    scene.add(floor_plane(0));
    let ray = Ray::new(Vec3::new(0, 131072, 0), Vec3::new(0, -65536, 0));
    let deep = scene.shoot_ray_depth(ray.clone(), 5);
    let shallow = scene.shoot_ray_depth(ray, 0);
    assert_eq!(deep, shallow);
}

#[test]
fn full_reflection_returns_reflected_rgb() {
    // A perfect mirror floor under an empty sky: the color channels are
    // exactly the background's, with no local contribution.
    let mut scene = Scene::new(camera());
    scene.add(floor_plane(65536));
    let ray = Ray::new(Vec3::new(0, 131072, 0), Vec3::new(0, -65536, 0));
    let color = scene.shoot_ray(ray);
    assert_eq!(color.r, 13107);
    assert_eq!(color.g, 13107);
    assert_eq!(color.b, 26214);
}

#[test]
fn occluder_darkens_by_shadow_factor() {
    // The same floor point, lit and occluded: the occluded color is exactly
    // the lit color scaled by the shadow factor.
    let ray = || Ray::new(Vec3::new(0, 131072, 327680), Vec3::new(0, -65536, 0));
    let mut lit = Scene::new(camera());
    lit.add(floor_plane(0));
    let lit_color = lit.shoot_ray(ray());

    let mut occluded = Scene::new(camera());
    occluded.add(floor_plane(0));
    occluded.add(SceneModel::Circle(Circle::new(
        Vec3::new(0, 327680, 327680),
        65536,
        Material::color(Color::new(65536, 65536, 65536, 65536)),
    )));
    let occluded_color = occluded.shoot_ray(ray());

    assert_ne!(lit_color, occluded_color);
    assert_eq!(occluded_color, multiply_colour(&lit_color, 3277));
}

#[test]
fn facing_mirrors_terminate_at_depth_bound() {
    // Two parallel mirror planes facing each other: evaluation still
    // returns, the bounce recursion stopping at the configured depth.
    let mut scene = Scene::new(camera());
    scene.add(floor_plane(65536));
    scene.add(SceneModel::Plane(Plane::new(
        Vec3::new(0, 655360, 0),
        Vec3::new(0, -65536, 0),
        Material::color_ref(Color::new(58982, 58982, 58982, 65536), 65536),
    )));
    let ray = Ray::new(Vec3::new(0, 131072, 0), Vec3::new(0, -65536, 0));
    let first = scene.shoot_ray(ray.clone());
    let second = scene.shoot_ray(ray);
    assert_eq!(first, second);
}
