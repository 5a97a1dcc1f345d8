//! The scene: a primitive list and a point light, resolving one ray to one
//! color by nearest-hit search, shading, shadowing and bounded recursive
//! reflection.

use vstd::prelude::*;
use rayon::iter::{IntoParallelRefIterator, ParallelIterator};
use crate::camera::Camera;
use crate::color::{
    add_colours_s, multiply_colour_s, multiply_colours_s, add_colours, multiply_colour,
    multiply_colours, Color,
};
use crate::fixed::{fx_div_s, lemma_fx_mul_one, lemma_fx_mul_zero, sat_sub_s, fx_div, sat_sub};
use crate::material::material_color_s;
use crate::model::{forward_hit_s, model_collide_s, RayCollision, SceneModel};
use crate::ray::{mirror_s, point_at_s, Ray};
use crate::vec3::{dot_s, norm_s, vadd_s, vscale_s, vsub_s, Vec3};

verus! {

/// Default recursion bound for mirror bounces.
pub const REFLECTION_DEPTH: usize = 5;

/// Shadow attenuation factor: 0.05, rounded to raw units.
pub const SHADOW: i64 = 3277;

/// Offset of a shadow ray's origin along the shadow direction, in raw units.
pub const SHADOW_OFFSET: i64 = 7;

/// Pull-back along the original ray before a mirror bounce departs, in raw
/// units, so the bounce cannot start inside its own surface.
pub const MIRROR_EPSILON: i64 = 7;

pub struct Scene {
    pub camera: Camera,
    pub models: Vec<SceneModel>,
    pub light: (Vec3, Color),
}

/// The fixed background color (0.2, 0.2, 0.4, 1.0) returned when a ray
/// escapes the scene.
pub open spec fn background_s() -> Color {
    Color { r: 13107, g: 13107, b: 26214, a: 65536 }
}

/// The light every scene starts with.
pub open spec fn default_light_s() -> (Vec3, Color) {
    (Vec3 { x: 0, y: 655360, z: 327680 }, Color { r: 6553600, g: 6553600, b: 6553600, a: 65536 })
}

/// The earlier of two optional hits by distance; ties keep the earlier
/// primitive, and absent candidates lose.
pub open spec fn better_hit_s(best: Option<RayCollision>, cand: Option<RayCollision>) -> Option<
    RayCollision,
> {
    match (best, cand) {
        (Option::None, c) => c,
        (Option::Some(b), Option::None) => Some(b),
        (Option::Some(b), Option::Some(c)) => if b.t <= c.t {
            Some(b)
        } else {
            Some(c)
        },
    }
}

/// The nearest hit among the first `n` primitives.
pub open spec fn nearest_prefix_s(models: Seq<SceneModel>, ray: Ray, n: int) -> Option<RayCollision>
    decreases n,
{
    if n <= 0 {
        None
    } else {
        better_hit_s(nearest_prefix_s(models, ray, n - 1), model_collide_s(models[n - 1], ray))
    }
}

/// The nearest hit of a ray over the whole primitive list; every primitive
/// is tested.
pub open spec fn nearest_s(models: Seq<SceneModel>, ray: Ray) -> Option<RayCollision> {
    nearest_prefix_s(models, ray, models.len() as int)
}

/// Whether any primitive reports a strictly forward hit for the given ray:
/// the shadow-occlusion test.
pub open spec fn shadow_hit_s(models: Seq<SceneModel>, ray: Ray) -> bool {
    exists|i: int| 0 <= i < models.len() && forward_hit_s(model_collide_s(models[i], ray))
}

/// Inverse-square point-light attenuation of a base color.
pub open spec fn apply_light_s(light: (Vec3, Color), color: Color, position: Vec3) -> Color {
    let ehm = dot_s(vsub_s(position, light.0), vsub_s(position, light.0));
    multiply_colours_s(color, multiply_colour_s(light.1, fx_div_s(65536, ehm)))
}

/// A raw value clamped to the fraction range `[0, 1]`.
pub open spec fn clamp01_s(d: int) -> int {
    if d < 0 {
        0
    } else if d > 65536 {
        65536
    } else {
        d
    }
}

/// Diffuse shading: scale by the clamped cosine between the shadow
/// direction and the surface normal.
pub open spec fn apply_shading_s(color: Color, normal: Vec3, shadow_ray: Vec3) -> Color {
    multiply_colour_s(color, clamp01_s(dot_s(shadow_ray, norm_s(normal))))
}

/// Direction from a hit point toward the light.
pub open spec fn shadow_dir_s(light_pos: Vec3, col: RayCollision) -> Vec3 {
    norm_s(vsub_s(light_pos, col.position))
}

/// The secondary ray cast from a hit point toward the light.
pub open spec fn shadow_ray_of_s(light_pos: Vec3, col: RayCollision) -> Ray {
    let sdir = shadow_dir_s(light_pos, col);
    Ray {
        origin: vadd_s(col.position, vscale_s(sdir, SHADOW_OFFSET as int)),
        direction: norm_s(sdir),
    }
}

/// The locally shaded color of a hit: base color, light attenuation,
/// diffuse shading, and the shadow factor when the light is occluded.
pub open spec fn local_color_s(
    models: Seq<SceneModel>,
    light: (Vec3, Color),
    col: RayCollision,
) -> Color {
    let sdir = shadow_dir_s(light.0, col);
    let c1 = apply_light_s(light, material_color_s(col.material, col.position), col.position);
    let c2 = apply_shading_s(c1, norm_s(col.normal), sdir);
    if shadow_hit_s(models, shadow_ray_of_s(light.0, col)) {
        multiply_colour_s(c2, SHADOW as int)
    } else {
        c2
    }
}

/// The mirror ray a hit reflects into.
pub open spec fn mirror_ray_of_s(col: RayCollision) -> Ray {
    mirror_s(
        col.original_ray,
        col.normal,
        point_at_s(col.original_ray, sat_sub_s(col.t as int, MIRROR_EPSILON as int)),
    )
}

/// Blends the locally shaded color with the recursively evaluated mirror
/// color: `reflective * reflected + (1 - reflective) * local`, channel by
/// channel, alpha included.
pub open spec fn mirror_apply_s(
    models: Seq<SceneModel>,
    light: (Vec3, Color),
    color: Color,
    col: RayCollision,
    depth: nat,
) -> Color
    decreases depth, 0nat,
{
    if depth == 0 {
        color
    } else if col.material.reflective <= 0 {
        color
    } else {
        let rcol = eval_s(models, light, mirror_ray_of_s(col), (depth - 1) as nat);
        add_colours_s(
            multiply_colour_s(rcol, col.material.reflective as int),
            multiply_colour_s(color, sat_sub_s(65536, col.material.reflective as int)),
        )
    }
}

/// One ray's full recursive evaluation: the background if nothing is hit,
/// else the shaded nearest hit blended with at most `depth` mirror bounces.
pub open spec fn eval_s(
    models: Seq<SceneModel>,
    light: (Vec3, Color),
    ray: Ray,
    depth: nat,
) -> Color
    decreases depth, 1nat,
{
    match nearest_s(models, ray) {
        Option::None => background_s(),
        Option::Some(col) => mirror_apply_s(models, light, local_color_s(models, light, col), col, depth),
    }
}

/// With full reflectivity and at least one remaining bounce, the color
/// channels of an evaluation are exactly those of the recursively evaluated
/// mirror ray: the local color contributes nothing to them. The alpha
/// channel is outside the claim: the mirror blend sums the alpha of both
/// sides instead of holding it fixed.
pub proof fn lemma_full_reflection(
    models: Seq<SceneModel>,
    light: (Vec3, Color),
    ray: Ray,
    depth: nat,
    col: RayCollision,
)
    requires
        nearest_s(models, ray) == Some(col),
        col.material.reflective == 65536,
        depth >= 1,
    ensures
        ({
            let full = eval_s(models, light, ray, depth);
            let refl = eval_s(models, light, mirror_ray_of_s(col), (depth - 1) as nat);
            full.r == refl.r && full.g == refl.g && full.b == refl.b
        }),
{
    let base = local_color_s(models, light, col);
    let rcol = eval_s(models, light, mirror_ray_of_s(col), (depth - 1) as nat);
    lemma_fx_mul_one(rcol.r as int);
    lemma_fx_mul_one(rcol.g as int);
    lemma_fx_mul_one(rcol.b as int);
    lemma_fx_mul_zero(base.r as int);
    lemma_fx_mul_zero(base.g as int);
    lemma_fx_mul_zero(base.b as int);
    assert(eval_s(models, light, ray, depth) == mirror_apply_s(models, light, base, col, depth));
}

/// With no reflectivity, an evaluation returns exactly the locally shaded
/// color, whatever recursion depth remains.
pub proof fn lemma_zero_reflection(
    models: Seq<SceneModel>,
    light: (Vec3, Color),
    ray: Ray,
    depth: nat,
    col: RayCollision,
)
    requires
        nearest_s(models, ray) == Some(col),
        col.material.reflective <= 0,
    ensures
        eval_s(models, light, ray, depth) == local_color_s(models, light, col),
{
}

/// Occluding an otherwise identical, unreflective shaded point darkens its
/// final color by exactly the shadow factor: two primitive lists that
/// resolve the ray to the same hit, one leaving the light clear and one
/// blocking it, differ by one `SHADOW` multiplication.
pub proof fn lemma_shadow_factor(
    m1: Seq<SceneModel>,
    m2: Seq<SceneModel>,
    light: (Vec3, Color),
    ray: Ray,
    depth: nat,
    col: RayCollision,
)
    requires
        nearest_s(m1, ray) == Some(col),
        nearest_s(m2, ray) == Some(col),
        col.material.reflective <= 0,
        !shadow_hit_s(m1, shadow_ray_of_s(light.0, col)),
        shadow_hit_s(m2, shadow_ray_of_s(light.0, col)),
    ensures
        eval_s(m2, light, ray, depth) == multiply_colour_s(
            eval_s(m1, light, ray, depth),
            SHADOW as int,
        ),
{
    assert(eval_s(m1, light, ray, depth) == local_color_s(m1, light, col));
    assert(eval_s(m2, light, ray, depth) == local_color_s(m2, light, col));
}

/// Relies on rayon's `ParallelIterator::any` over `par_iter`: it returns
/// whether the predicate holds of any element; `SceneModel::occludes` is
/// verified and side-effect-free, so the fan-out order cannot matter.
#[verifier::external_body]
fn par_any_hit(models: &Vec<SceneModel>, ray: &Ray) -> (b: bool)
    ensures
        b == shadow_hit_s(models@, *ray),
{
    models.par_iter().any(|m| m.occludes(ray))
}

impl Scene {
    pub fn new(camera: Camera) -> (s: Scene)
        ensures
            s.camera == camera,
            s.models@ == Seq::<SceneModel>::empty(),
            s.light == default_light_s(),
    {
        Scene {
            models: Vec::new(),
            camera,
            light: (
                Vec3 { x: 0, y: 655360, z: 327680 },
                Color { r: 6553600, g: 6553600, b: 6553600, a: 65536 },
            ),
        }
    }

    /// Appends a primitive; the rest of the scene is untouched.
    pub fn add(&mut self, model: SceneModel)
        ensures
            final(self).models@ == old(self).models@.push(model),
            final(self).camera == old(self).camera,
            final(self).light == old(self).light,
    {
        self.models.push(model);
    }

    fn apply_light(&self, color: Color, position: Vec3) -> (c: Color)
        ensures
            c == apply_light_s(self.light, color, position),
    {
        let light = self.light.1;
        let ehm = position.sub(self.light.0).magnitude_squared();
        let light = multiply_colour(&light, fx_div(65536, ehm));
        multiply_colours(&color, &light)
    }

    fn apply_shading(&self, color: Color, normal: Vec3, shadow_ray: Vec3) -> (c: Color)
        ensures
            c == apply_shading_s(color, normal, shadow_ray),
    {
        let d = shadow_ray.dot(normal.normalize());
        let m: i64 = if d < 0 {
            0
        } else if d > 65536 {
            65536
        } else {
            d
        };
        multiply_colour(&color, m)
    }

    fn apply_mirror(&self, color: Color, collision: RayCollision, max_depth: usize) -> (c: Color)
        ensures
            c == mirror_apply_s(self.models@, self.light, color, collision, max_depth as nat),
        decreases max_depth, 0int,
    {
        let reflection = collision.material.reflective;
        if max_depth == 0 {
            return color;
        }
        if reflection <= 0 {
            return color;
        }
        let reflection_ray = collision.original_ray.mirror(
            collision.normal,
            collision.original_ray.point_at_t(sat_sub(collision.t, MIRROR_EPSILON)),
        );
        let reflection_color = self.shoot_ray_depth(reflection_ray, max_depth - 1);
        let reflection_color = multiply_colour(&reflection_color, reflection);
        let normal_color = multiply_colour(&color, sat_sub(65536, reflection));
        add_colours(&reflection_color, &normal_color)
    }

    /// The locally shaded color of a hit, shadow test included.
    fn local_color(&self, collision: RayCollision) -> (c: Color)
        ensures
            c == local_color_s(self.models@, self.light, collision),
    {
        let material_color = collision.material.get_color(collision.position);
        let shadow_ray_dir = self.light.0.sub(collision.position).normalize();
        let mut color = self.apply_light(material_color, collision.position);
        color = self.apply_shading(color, collision.normal.normalize(), shadow_ray_dir);
        let secondary = Ray {
            origin: collision.position.add(shadow_ray_dir.scale(SHADOW_OFFSET)),
            direction: shadow_ray_dir.normalize(),
        };
        if self.shadow_ray(secondary) {
            color = multiply_colour(&color, SHADOW);
        }
        color
    }

    /// Resolves one ray to one color with at most `max_depth` mirror
    /// bounces; a ray that hits nothing yields exactly the background.
    #[verifier::rlimit(100)]
    pub fn shoot_ray_depth(&self, ray: Ray, max_depth: usize) -> (c: Color)
        ensures
            c == eval_s(self.models@, self.light, ray, max_depth as nat),
            nearest_s(self.models@, ray) is None ==> c == background_s(),
        decreases max_depth, 1int,
    {
        let mut best: Option<RayCollision> = None;
        let mut i: usize = 0;
        while i < self.models.len()
            invariant
                i <= self.models@.len(),
                best == nearest_prefix_s(self.models@, ray, i as int),
            decreases self.models@.len() - i,
        {
            let cand = self.models[i].collides(ray);
            best = match (best, cand) {
                (Option::None, c) => c,
                (Option::Some(b), Option::None) => Some(b),
                (Option::Some(b), Option::Some(c)) => if b.t <= c.t {
                    Some(b)
                } else {
                    Some(c)
                },
            };
            i += 1;
        }
        match best {
            Option::Some(collision) => {
                let color = self.local_color(collision);
                self.apply_mirror(color, collision, max_depth)
            },
            Option::None => Color { r: 13107, g: 13107, b: 26214, a: 65536 },
        }
    }

    /// One ray's evaluation at the default recursion bound.
    pub fn shoot_ray(&self, ray: Ray) -> (c: Color)
        ensures
            c == eval_s(self.models@, self.light, ray, REFLECTION_DEPTH as nat),
            nearest_s(self.models@, ray) is None ==> c == background_s(),
    {
        self.shoot_ray_depth(ray, REFLECTION_DEPTH)
    }

    /// Whether any primitive occludes the given secondary ray.
    fn shadow_ray(&self, ray: Ray) -> (b: bool)
        ensures
            b == shadow_hit_s(self.models@, ray),
    {
        par_any_hit(&self.models, &ray)
    }
}

} // verus!
