//! Scene primitives: spheres and single-sided planes, their ray-intersection
//! queries, and the record a hit produces.

use vstd::prelude::*;
use crate::fixed::{
    fx_div_s, fx_mul_s, fx_sqrt_s, is_isqrt, lemma_fx_mul_four, lemma_fx_mul_neg_one,
    lemma_fx_mul_one, lemma_fx_mul_sq_mult256, lemma_fx_mul_zero, lemma_isqrt_unique,
    lemma_mul_div_exact, sat_add_s, sat_neg_s,
    sat_sub_s, fx_div, fx_mul, fx_sqrt, sat_add, sat_neg, sat_sub,
};
use crate::material::Material;
use crate::ray::{point_at_s, Ray};
use crate::vec3::{dot_s, norm_s, vneg_s, vsub_s, Vec3};

verus! {

/// Pull-back along the ray applied to every hit position, one raw unit, so a
/// secondary ray departing the hit cannot re-intersect its own surface.
pub const T_EPSILON: i64 = 1;

/// Four, as a raw fixed-point value.
pub const FOUR: i64 = 262144;

/// The nearest valid intersection of a ray with a primitive.
#[derive(Clone, Copy, Debug)]
pub struct RayCollision {
    pub original_ray: Ray,
    pub t: i64,
    pub position: Vec3,
    pub normal: Vec3,
    pub material: Material,
}

/// A sphere.
#[derive(Clone, Copy, Debug)]
pub struct Circle {
    pub position: Vec3,
    pub radius: i64,
    pub material: Material,
}

/// A single-sided plane through `position` with unit normal `normal`.
#[derive(Clone, Copy, Debug)]
pub struct Plane {
    pub position: Vec3,
    pub normal: Vec3,
    pub material: Material,
}

/// The closed set of primitive shapes a scene can hold.
#[derive(Clone, Copy, Debug)]
pub enum SceneModel {
    Circle(Circle),
    Plane(Plane),
}

/// The collision record a sphere reports for an accepted root `t`.
pub open spec fn circle_hit_s(c: Circle, ray: Ray, t: int) -> RayCollision {
    let pos = point_at_s(ray, sat_sub_s(t, T_EPSILON as int));
    RayCollision {
        original_ray: ray,
        t: t as i64,
        position: pos,
        normal: norm_s(vsub_s(pos, c.position)),
        material: c.material,
    }
}

/// The discriminant `b^2 - 4 a c` of the sphere-intersection quadratic.
pub open spec fn circle_disc_s(c: Circle, ray: Ray) -> int {
    let offset = vsub_s(ray.origin, c.position);
    let a = dot_s(ray.direction, ray.direction);
    let b = sat_add_s(dot_s(offset, ray.direction), dot_s(offset, ray.direction));
    let cc = sat_sub_s(dot_s(offset, offset), fx_mul_s(c.radius as int, c.radius as int));
    sat_sub_s(fx_mul_s(b, b), fx_mul_s(fx_mul_s(FOUR as int, a), cc))
}

/// Sphere intersection: the near root of the quadratic if strictly positive,
/// else the far root if strictly positive, else no hit.
pub open spec fn circle_collide_s(c: Circle, ray: Ray) -> Option<RayCollision> {
    let offset = vsub_s(ray.origin, c.position);
    let a = dot_s(ray.direction, ray.direction);
    let b = sat_add_s(dot_s(offset, ray.direction), dot_s(offset, ray.direction));
    let disc = circle_disc_s(c, ray);
    if disc < 0 {
        None
    } else {
        let sq = fx_sqrt_s(disc);
        let two_a = sat_add_s(a, a);
        let num1 = sat_sub_s(sat_neg_s(b), sq);
        if num1 > 0 {
            Some(circle_hit_s(c, ray, fx_div_s(num1, two_a)))
        } else {
            let num2 = sat_add_s(sat_neg_s(b), sq);
            if num2 > 0 {
                Some(circle_hit_s(c, ray, fx_div_s(num2, two_a)))
            } else {
                None
            }
        }
    }
}

/// Plane intersection: single-sided, so a ray parallel to the plane or
/// facing its back never hits.
pub open spec fn plane_collide_s(p: Plane, ray: Ray) -> Option<RayCollision> {
    let d = dot_s(ray.direction, vneg_s(p.normal));
    if d > 0 {
        let t = fx_div_s(dot_s(vsub_s(p.position, ray.origin), vneg_s(p.normal)), d);
        if t >= 0 {
            Some(
                RayCollision {
                    original_ray: ray,
                    t: t as i64,
                    position: point_at_s(ray, sat_sub_s(t, T_EPSILON as int)),
                    normal: p.normal,
                    material: p.material,
                },
            )
        } else {
            None
        }
    } else {
        None
    }
}

pub open spec fn model_position_s(m: SceneModel) -> Vec3 {
    match m {
        SceneModel::Circle(c) => c.position,
        SceneModel::Plane(p) => p.position,
    }
}

pub open spec fn model_collide_s(m: SceneModel, ray: Ray) -> Option<RayCollision> {
    match m {
        SceneModel::Circle(c) => circle_collide_s(c, ray),
        SceneModel::Plane(p) => plane_collide_s(p, ray),
    }
}

/// Whether an intersection query reports a strictly forward hit.
pub open spec fn forward_hit_s(o: Option<RayCollision>) -> bool {
    match o {
        Some(c) => c.t > 0,
        None => false,
    }
}

impl Circle {
    pub fn new(position: Vec3, radius: i64, material: Material) -> (c: Circle)
        ensures
            c == (Circle { position, radius, material }),
    {
        Circle { position, radius, material }
    }

    pub fn position(&self) -> (p: Vec3)
        ensures
            p == self.position,
    {
        self.position
    }

    fn make_hit(&self, ray: Ray, t: i64) -> (h: RayCollision)
        ensures
            h == circle_hit_s(*self, ray, t as int),
    {
        let pos = ray.point_at_t(sat_sub(t, T_EPSILON));
        let norm = pos.sub(self.position()).normalize();
        RayCollision { original_ray: ray, t, position: pos, normal: norm, material: self.material }
    }

    pub fn collides(&self, ray: Ray) -> (res: Option<RayCollision>)
        ensures
            res == circle_collide_s(*self, ray),
    {
        let offset = ray.origin().sub(self.position);
        let a = ray.direction().dot(ray.direction());
        let dot_od = offset.dot(ray.direction());
        let b = sat_add(dot_od, dot_od);
        let c = sat_sub(offset.dot(offset), fx_mul(self.radius, self.radius));
        let discriminant = sat_sub(fx_mul(b, b), fx_mul(fx_mul(FOUR, a), c));
        if discriminant < 0 {
            return None;
        }
        let discriminant_sqrt = fx_sqrt(discriminant);
        let two_a = sat_add(a, a);
        let numerator = sat_sub(sat_neg(b), discriminant_sqrt);
        if numerator > 0 {
            let t = fx_div(numerator, two_a);
            return Some(self.make_hit(ray, t));
        }
        let numerator = sat_add(sat_neg(b), discriminant_sqrt);
        if numerator > 0 {
            let t = fx_div(numerator, two_a);
            return Some(self.make_hit(ray, t));
        }
        None
    }
}

impl Plane {
    pub fn new(position: Vec3, norm1: Vec3, material: Material) -> (p: Plane)
        ensures
            p == (Plane { position, normal: norm_s(norm1), material }),
    {
        Plane { position, normal: norm1.normalize(), material }
    }

    pub fn position(&self) -> (p: Vec3)
        ensures
            p == self.position,
    {
        self.position
    }

    pub fn collides(&self, ray: Ray) -> (res: Option<RayCollision>)
        ensures
            res == plane_collide_s(*self, ray),
    {
        let d = ray.direction().dot(self.normal.neg());
        if d > 0 {
            let offset = self.position.sub(ray.origin());
            let t = fx_div(offset.dot(self.normal.neg()), d);
            let position = ray.point_at_t(sat_sub(t, T_EPSILON));
            if t >= 0 {
                return Some(
                    RayCollision {
                        original_ray: ray,
                        t,
                        position,
                        normal: self.normal,
                        material: self.material,
                    },
                );
            }
            return None;
        }
        None
    }
}

impl SceneModel {
    pub fn position(&self) -> (p: Vec3)
        ensures
            p == model_position_s(*self),
    {
        match self {
            SceneModel::Circle(c) => c.position(),
            SceneModel::Plane(p) => p.position(),
        }
    }

    pub fn collides(&self, ray: Ray) -> (res: Option<RayCollision>)
        ensures
            res == model_collide_s(*self, ray),
    {
        match self {
            SceneModel::Circle(c) => c.collides(ray),
            SceneModel::Plane(p) => p.collides(ray),
        }
    }

    /// Whether this primitive blocks the given ray at a strictly positive
    /// distance; the per-primitive step of the shadow test.
    pub fn occludes(&self, ray: &Ray) -> (b: bool)
        ensures
            b == forward_hit_s(model_collide_s(*self, *ray)),
    {
        match self.collides(*ray) {
            Some(c) => c.t > 0,
            None => false,
        }
    }
}

/// Fixed-point facts about the constants the sphere lemmas meet.
proof fn proof_fx_consts()
    ensures
        fx_mul_s(-65536, -65536) == 65536,
        fx_mul_s(0, 0) == 0,
        fx_mul_s(262144, 65536) == 262144,
{
    lemma_fx_mul_neg_one(-65536);
    lemma_fx_mul_zero(0);
    lemma_fx_mul_one(262144);
}

/// A sphere of radius `r` centered at the origin, hit head-on by a ray cast
/// from distance `dist` straight at the center, reports the hit at
/// `t == dist - r`: the first surface crossing. Exact whenever the two
/// lengths are multiples of 256 raw units, so that their squares carry no
/// fixed-point rounding.
pub proof fn lemma_sphere_head_on(dist: i64, r: i64, material: Material)
    requires
        0 < r < dist <= 0x40000000,
        r as int % 256 == 0,
        dist as int % 256 == 0,
    ensures
        ({
            let circle = Circle { position: Vec3 { x: 0, y: 0, z: 0 }, radius: r, material };
            let ray = Ray {
                origin: Vec3 { x: dist, y: 0, z: 0 },
                direction: Vec3 { x: -65536i64, y: 0, z: 0 },
            };
            circle_collide_s(circle, ray) == Some(circle_hit_s(circle, ray, dist - r))
        }),
{
    let circle = Circle { position: Vec3 { x: 0, y: 0, z: 0 }, radius: r, material };
    let ray = Ray {
        origin: Vec3 { x: dist, y: 0, z: 0 },
        direction: Vec3 { x: -65536i64, y: 0, z: 0 },
    };
    let dm = dist as int / 256;
    let rm = r as int / 256;
    assert(dist as int == 256 * dm && r as int == 256 * rm);
    let offset = vsub_s(ray.origin, circle.position);
    assert(offset == (Vec3 { x: dist, y: 0, z: 0 }));
    proof_fx_consts();
    let a = dot_s(ray.direction, ray.direction);
    assert(a == 65536);
    lemma_fx_mul_neg_one(dist as int);
    let b = sat_add_s(dot_s(offset, ray.direction), dot_s(offset, ray.direction));
    assert(b == -2 * (dist as int));
    lemma_fx_mul_sq_mult256(dist as int);
    lemma_fx_mul_sq_mult256(r as int);
    assert(dot_s(offset, offset) == dm * dm);
    let cc = sat_sub_s(dot_s(offset, offset), fx_mul_s(r as int, r as int));
    assert(rm * rm <= dm * dm) by (nonlinear_arith)
        requires
            0 <= rm < dm,
    ;
    assert(cc == dm * dm - rm * rm);
    lemma_fx_mul_one(262144);
    lemma_fx_mul_four(cc);
    lemma_fx_mul_sq_mult256(b);
    assert(b / 256 == -2 * dm);
    assert((-2 * dm) * (-2 * dm) == 4 * (dm * dm)) by (nonlinear_arith);
    let disc = circle_disc_s(circle, ray);
    assert(disc == 4 * (rm * rm));
    assert((512 * rm) * (512 * rm) == 262144 * (rm * rm)) by (nonlinear_arith);
    assert((512 * rm + 1) * (512 * rm + 1) == 262144 * (rm * rm) + 1024 * rm + 1)
        by (nonlinear_arith);
    assert(is_isqrt(disc * 65536, 512 * rm));
    lemma_isqrt_unique(disc * 65536, 512 * rm);
    assert(fx_sqrt_s(disc) == 2 * (r as int));
    let num1 = sat_sub_s(sat_neg_s(b), fx_sqrt_s(disc));
    assert(num1 == 2 * (dist as int) - 2 * (r as int));
    assert(num1 > 0);
    let two_a = sat_add_s(a, a);
    assert(two_a == 131072);
    lemma_mul_div_exact(dist - r, 131072);
    assert(num1 * 65536 == (dist - r) * 131072);
    assert(fx_div_s(num1, two_a) == dist - r);
}

/// A ray exactly tangent to a sphere (its perpendicular distance from the
/// center equals the radius) meets a discriminant of exactly zero and
/// exactly one valid hit, never zero or two. Exact under the same
/// multiple-of-256 condition as the head-on case.
pub proof fn lemma_sphere_tangent(dist: i64, r: i64, material: Material)
    requires
        0 < r <= 0x40000000,
        0 < dist <= 0x40000000,
        r as int % 256 == 0,
        dist as int % 256 == 0,
    ensures
        ({
            let circle = Circle { position: Vec3 { x: 0, y: 0, z: 0 }, radius: r, material };
            let ray = Ray {
                origin: Vec3 { x: dist, y: r, z: 0 },
                direction: Vec3 { x: -65536i64, y: 0, z: 0 },
            };
            &&& circle_disc_s(circle, ray) == 0
            &&& circle_collide_s(circle, ray) == Some(circle_hit_s(circle, ray, dist as int))
        }),
{
    let circle = Circle { position: Vec3 { x: 0, y: 0, z: 0 }, radius: r, material };
    let ray = Ray {
        origin: Vec3 { x: dist, y: r, z: 0 },
        direction: Vec3 { x: -65536i64, y: 0, z: 0 },
    };
    let dm = dist as int / 256;
    let rm = r as int / 256;
    assert(dist as int == 256 * dm && r as int == 256 * rm);
    let offset = vsub_s(ray.origin, circle.position);
    assert(offset == (Vec3 { x: dist, y: r, z: 0 }));
    proof_fx_consts();
    lemma_fx_mul_zero(r as int);
    let a = dot_s(ray.direction, ray.direction);
    assert(a == 65536);
    lemma_fx_mul_neg_one(dist as int);
    let b = sat_add_s(dot_s(offset, ray.direction), dot_s(offset, ray.direction));
    assert(b == -2 * (dist as int));
    lemma_fx_mul_sq_mult256(dist as int);
    lemma_fx_mul_sq_mult256(r as int);
    assert(dot_s(offset, offset) == dm * dm + rm * rm);
    let cc = sat_sub_s(dot_s(offset, offset), fx_mul_s(r as int, r as int));
    assert(cc == dm * dm);
    lemma_fx_mul_one(262144);
    lemma_fx_mul_four(cc);
    lemma_fx_mul_sq_mult256(b);
    assert(b / 256 == -2 * dm);
    assert((-2 * dm) * (-2 * dm) == 4 * (dm * dm)) by (nonlinear_arith);
    let disc = circle_disc_s(circle, ray);
    assert(disc == 0);
    assert(is_isqrt(0, 0));
    lemma_isqrt_unique(0, 0);
    assert(fx_sqrt_s(disc) == 0);
    let num1 = sat_sub_s(sat_neg_s(b), fx_sqrt_s(disc));
    assert(num1 == 2 * (dist as int));
    let two_a = sat_add_s(a, a);
    assert(two_a == 131072);
    lemma_mul_div_exact(dist as int, 131072);
    assert(num1 * 65536 == (dist as int) * 131072);
    assert(fx_div_s(num1, two_a) == dist as int);
}

/// A ray whose direction is perpendicular to a plane's front normal, or
/// facing its back, never registers a hit against that plane.
pub proof fn lemma_plane_parallel(p: Plane, ray: Ray)
    requires
        dot_s(ray.direction, vneg_s(p.normal)) <= 0,
    ensures
        plane_collide_s(p, ray) is None,
{
}

} // verus!
