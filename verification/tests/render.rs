use raytracer::camera::Camera;
use raytracer::color::Color;
use raytracer::material::Material;
use raytracer::model::{Circle, SceneModel};
use raytracer::scene::Scene;
use raytracer::vec3::Vec3;

fn sphere_scene() -> Scene {
    let camera = Camera::new(Vec3::new(655360, 65536, 0), Vec3::new(-65536, 0, 0));
    let mut scene = Scene::new(camera);
    scene.add(SceneModel::Circle(Circle::new(
        Vec3::new(0, 65536, 0),
        327680,
        Material::color_ref(Color::new(39322, 19661, 0, 65536), 32768),
    )));
    scene
}

#[test]
fn render_buffer_has_four_bytes_per_pixel() {
    let scene = sphere_scene();
    let buf = scene.camera.render(8, 6, &scene);
    assert_eq!(buf.len(), 8 * 6 * 4);
    let empty = Scene::new(Camera::new(Vec3::new(0, 0, 0), Vec3::new(65536, 0, 0)));
    assert_eq!(empty.camera.render(0, 3, &empty).len(), 0);
}

#[test]
fn render_is_deterministic() {
    let scene = sphere_scene();
    let first = scene.camera.render(16, 12, &scene);
    let second = scene.camera.render(16, 12, &scene);
    assert_eq!(first, second);
}

#[test]
fn render_empty_scene_is_background_bytes() {
    // Background (0.2, 0.2, 0.4, 1.0) truncates to (50, 50, 101, 255).
    let empty = Scene::new(Camera::new(Vec3::new(0, 0, 0), Vec3::new(65536, 0, 0)));
    let buf = empty.camera.render(2, 2, &empty);
    assert_eq!(buf.len(), 16);
    for pixel in buf.chunks(4) {
        assert_eq!(pixel, &[50u8, 50u8, 101u8, 255u8]);
    }
}

#[test]
fn byte_conversion_saturates() {
    let c = Color::new(131072, -65536, 65536, 65536);
    assert_eq!(c.to_rgba(), (255, 0, 255, 255));
    let half = Color::new(32768, 0, 0, 65536);
    assert_eq!(half.to_rgba().0, 127);
}

#[test]
fn camera_moves_translate_position() {
    // Looking down negative x with y up, the screen-left axis is negative z.
    let mut cam = Camera::new(Vec3::new(0, 0, 0), Vec3::new(-65536, 0, 0));
    cam.move_right(65536);
    assert_eq!(cam.position, Vec3::new(0, 0, -65536));
    cam.move_left(65536);
    assert_eq!(cam.position, Vec3::new(0, 0, 0));
    cam.move_forward(131072);
    assert_eq!(cam.position, Vec3::new(-131072, 0, 0));
    cam.move_back(65536);
    assert_eq!(cam.position, Vec3::new(-65536, 0, 0));
    assert_eq!(cam.direction, Vec3::new(-65536, 0, 0));
    assert_eq!(cam.up, Vec3::new(0, 65536, 0));
}
