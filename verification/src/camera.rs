//! The camera: position and orientation, movement between frames, one ray
//! per output pixel, and the parallel evaluation that fills the pixel buffer.

use vstd::prelude::*;
use vstd::arithmetic::div_mod::lemma_fundamental_div_mod_converse;
use rayon::iter::{IntoParallelRefIterator, ParallelIterator};
use crate::color::{channel_byte_s, Color};
use crate::fixed::{clamp64, sat_neg_s, int_to_fx, sat_neg};
use crate::ray::Ray;
use crate::scene::{eval_s, Scene, REFLECTION_DEPTH};
use crate::model::SceneModel;
use crate::vec3::{cross_s, norm_s, vadd_s, vscale_s, Vec3};

verus! {

#[derive(Clone, Copy, Debug)]
pub struct Camera {
    pub position: Vec3,
    pub direction: Vec3,
    pub up: Vec3,
}

/// The camera's screen-horizontal axis: the normalized cross product of its
/// viewing direction and its normalized up axis.
pub open spec fn camera_left_s(c: Camera) -> Vec3 {
    norm_s(cross_s(c.direction, norm_s(c.up)))
}

/// The ray for flat pixel index `k` of a `w` by `h` viewport: offsets are
/// recentered so they span symmetrically around the viewing direction, and
/// rows run top to bottom.
pub open spec fn pixel_ray_s(cam: Camera, w: int, h: int, k: int) -> Ray {
    let x = k % w - w / 2;
    let y = h / 2 - k / w;
    let dir = vadd_s(
        vadd_s(cam.direction, vscale_s(camera_left_s(cam), clamp64(x * 65536))),
        vscale_s(norm_s(cam.up), clamp64(y * 65536)),
    );
    Ray { origin: cam.position, direction: norm_s(dir) }
}

/// The color of one pixel, at the default recursion bound.
pub open spec fn pixel_color_s(
    cam: Camera,
    models: Seq<SceneModel>,
    light: (Vec3, Color),
    w: int,
    h: int,
    k: int,
) -> Color {
    eval_s(models, light, pixel_ray_s(cam, w, h, k), REFLECTION_DEPTH as nat)
}

/// Byte `j` of a color's `(r, g, b, a)` byte quadruple.
pub open spec fn channel_of_s(c: Color, j: int) -> int {
    if j == 0 {
        channel_byte_s(c.r as int)
    } else if j == 1 {
        channel_byte_s(c.g as int)
    } else if j == 2 {
        channel_byte_s(c.b as int)
    } else {
        channel_byte_s(c.a as int)
    }
}

/// The full pixel buffer: `w * h * 4` bytes, flattened row-major in the
/// exact pixel order, each pixel its color's four bytes.
pub open spec fn render_s(
    cam: Camera,
    models: Seq<SceneModel>,
    light: (Vec3, Color),
    w: int,
    h: int,
) -> Seq<u8> {
    Seq::new(
        (w * h * 4) as nat,
        |i: int| channel_of_s(pixel_color_s(cam, models, light, w, h, i / 4), i % 4) as u8,
    )
}

/// Relies on rayon's `par_iter().map(..).collect::<Vec<_>>()`: collecting an
/// indexed parallel map keeps the input order, element `i` of the result
/// being the image of element `i` of the input. `Scene::shoot_ray` is
/// verified, side-effect-free and applied to a read-only scene, so worker
/// count and scheduling cannot change any element.
#[verifier::external_body]
fn par_shoot_rays(scene: &Scene, rays: &Vec<Ray>) -> (colors: Vec<Color>)
    ensures
        colors@.len() == rays@.len(),
        forall|i: int|
            0 <= i < rays@.len() ==> colors@[i] == eval_s(
                scene.models@,
                scene.light,
                rays@[i],
                REFLECTION_DEPTH as nat,
            ),
{
    rays.par_iter().map(|r| scene.shoot_ray(*r)).collect()
}

impl Camera {
    /// A camera with the default up axis, one unit of world y.
    pub fn new(position: Vec3, direction: Vec3) -> (c: Camera)
        ensures
            c.position == position,
            c.direction == direction,
            c.up == norm_s(Vec3 { x: 0, y: 65536, z: 0 }),
    {
        Camera::new_up(position, direction, Vec3 { x: 0, y: 65536, z: 0 })
    }

    /// A camera with an explicit up axis, normalized at construction.
    pub fn new_up(position: Vec3, direction: Vec3, up: Vec3) -> (c: Camera)
        ensures
            c.position == position,
            c.direction == direction,
            c.up == norm_s(up),
    {
        Camera { position, direction, up: up.normalize() }
    }

    /// Translates the position along the screen-horizontal axis, away from
    /// `left` by `f` raw units; orientation is untouched.
    pub fn move_left(&mut self, f: i64)
        ensures
            final(self).position == vadd_s(
                old(self).position,
                vscale_s(camera_left_s(*old(self)), sat_neg_s(f as int)),
            ),
            final(self).direction == old(self).direction,
            final(self).up == old(self).up,
    {
        let direction: Vec3 = self.direction;
        let up: Vec3 = self.up.normalize();
        let left: Vec3 = direction.cross(up).normalize();
        self.position = self.position.add(left.scale(sat_neg(f)));
    }

    /// Translates the position along the screen-horizontal axis by `f` raw
    /// units; orientation is untouched.
    pub fn move_right(&mut self, f: i64)
        ensures
            final(self).position == vadd_s(
                old(self).position,
                vscale_s(camera_left_s(*old(self)), f as int),
            ),
            final(self).direction == old(self).direction,
            final(self).up == old(self).up,
    {
        let direction: Vec3 = self.direction;
        let up: Vec3 = self.up.normalize();
        let left: Vec3 = direction.cross(up).normalize();
        self.position = self.position.add(left.scale(f));
    }

    /// Translates the position along the normalized viewing direction by
    /// `f` raw units; orientation is untouched.
    pub fn move_forward(&mut self, f: i64)
        ensures
            final(self).position == vadd_s(
                old(self).position,
                vscale_s(norm_s(old(self).direction), f as int),
            ),
            final(self).direction == old(self).direction,
            final(self).up == old(self).up,
    {
        let direction = self.direction.normalize();
        self.position = self.position.add(direction.scale(f));
    }

    /// Translates the position against the normalized viewing direction by
    /// `f` raw units; orientation is untouched.
    pub fn move_back(&mut self, f: i64)
        ensures
            final(self).position == vadd_s(
                old(self).position,
                vscale_s(norm_s(old(self).direction), sat_neg_s(f as int)),
            ),
            final(self).direction == old(self).direction,
            final(self).up == old(self).up,
    {
        let direction = self.direction.normalize();
        self.position = self.position.add(direction.scale(sat_neg(f)));
    }

    /// Renders a `width` by `height` viewport against a scene: one ray per
    /// pixel, every pixel evaluated at the default recursion bound, the
    /// result flattened row-major, four bytes per pixel. The buffer is a
    /// function of the camera and the scene alone, so repeated renders are
    /// byte-identical whatever the parallel schedule.
    pub fn render(&self, width: usize, height: usize, scene: &Scene) -> (buf: Vec<u8>)
        requires
            width <= 65536,
            height <= 65536,
        ensures
            buf@.len() == width * height * 4,
            buf@ == render_s(*self, scene.models@, scene.light, width as int, height as int),
    {
        let ghost w = width as int;
        let ghost h = height as int;
        let up_n = self.up.normalize();
        let left = self.direction.cross(up_n).normalize();
        let mut rays: Vec<Ray> = Vec::new();
        let mut row: usize = 0;
        while row < height
            invariant
                w == width as int,
                h == height as int,
                row <= height,
                width <= 65536,
                height <= 65536,
                up_n == norm_s(self.up),
                left == camera_left_s(*self),
                rays@.len() == row * width,
                forall|k: int| 0 <= k < rays@.len() ==> rays@[k] == pixel_ray_s(*self, w, h, k),
            decreases height - row,
        {
            let mut col: usize = 0;
            while col < width
                invariant
                    w == width as int,
                    h == height as int,
                    col <= width,
                    row < height,
                    width <= 65536,
                    height <= 65536,
                    up_n == norm_s(self.up),
                    left == camera_left_s(*self),
                    rays@.len() == row * width + col,
                    forall|k: int| 0 <= k < rays@.len() ==> rays@[k] == pixel_ray_s(*self, w, h, k),
                decreases width - col,
            {
                let x: i64 = col as i64 - (width / 2) as i64;
                let y: i64 = (height / 2) as i64 - row as i64;
                let fx_x = int_to_fx(x);
                let fx_y = int_to_fx(y);
                let dir = self.direction.add(left.scale(fx_x)).add(up_n.scale(fx_y));
                let ray = Ray { origin: self.position, direction: dir.normalize() };
                proof {
                    let k = rays@.len() as int;
                    assert(k == row as int * w + col as int);
                    lemma_fundamental_div_mod_converse(k, w, row as int, col as int);
                    assert(ray == pixel_ray_s(*self, w, h, k));
                }
                rays.push(ray);
                col += 1;
            }
            proof {
                assert((row + 1) * width == row * width + width) by (nonlinear_arith);
            }
            row += 1;
        }
        let colors = par_shoot_rays(scene, &rays);
        let mut buf: Vec<u8> = Vec::new();
        let mut k: usize = 0;
        while k < colors.len()
            invariant
                w == width as int,
                h == height as int,
                k <= colors@.len(),
                colors@.len() == height * width,
                forall|i: int|
                    0 <= i < colors@.len() ==> colors@[i] == pixel_color_s(
                        *self,
                        scene.models@,
                        scene.light,
                        w,
                        h,
                        i,
                    ),
                buf@.len() == 4 * k,
                forall|i: int|
                    0 <= i < buf@.len() ==> buf@[i] as int == channel_of_s(
                        pixel_color_s(*self, scene.models@, scene.light, w, h, i / 4),
                        i % 4,
                    ),
            decreases colors@.len() - k,
        {
            let c = colors[k];
            let bytes = c.to_rgba();
            buf.push(bytes.0);
            buf.push(bytes.1);
            buf.push(bytes.2);
            buf.push(bytes.3);
            proof {
                lemma_fundamental_div_mod_converse(4 * k + 0, 4, k as int, 0);
                lemma_fundamental_div_mod_converse(4 * k + 1, 4, k as int, 1);
                lemma_fundamental_div_mod_converse(4 * k + 2, 4, k as int, 2);
                lemma_fundamental_div_mod_converse(4 * k + 3, 4, k as int, 3);
            }
            k += 1;
        }
        proof {
            assert(buf@ =~= render_s(*self, scene.models@, scene.light, w, h));
        }
        buf
    }
}

} // verus!
