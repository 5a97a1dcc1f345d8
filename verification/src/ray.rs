//! Rays: an origin, a normalized direction, a point-at-distance query and a
//! mirror-reflection constructor.

use vstd::prelude::*;
use crate::fixed::{sat_add_s, sat_add};
use crate::vec3::{dot_s, norm_len_s, norm_s, vadd_s, vscale_s, vsub_s, Vec3};

verus! {

#[derive(Clone, Copy, PartialEq, Eq, Debug)]
pub struct Ray {
    pub origin: Vec3,
    pub direction: Vec3,
}

/// `origin + direction * t` for a raw distance `t`.
pub open spec fn point_at_s(r: Ray, t: int) -> Vec3 {
    vadd_s(r.origin, vscale_s(r.direction, t))
}

/// The specular reflection of a ray about a surface normal, departing from
/// `position`: `direction - 2 (n . direction) n`, renormalized.
pub open spec fn mirror_s(r: Ray, normal: Vec3, position: Vec3) -> Ray {
    let n = norm_s(normal);
    let twice = sat_add_s(dot_s(n, r.direction), dot_s(n, r.direction));
    let dir = vsub_s(r.direction, vscale_s(n, twice));
    Ray { origin: position, direction: norm_s(dir) }
}

impl Ray {
    /// Builds a ray with a normalized direction. A direction whose length
    /// rounds down to zero is geometrically undefined and is a caller
    /// contract violation, excluded here.
    pub fn new(origin: Vec3, direction: Vec3) -> (r: Ray)
        requires
            norm_len_s(direction) > 0,
        ensures
            r == (Ray { origin, direction: norm_s(direction) }),
    {
        Ray { origin, direction: direction.normalize() }
    }

    pub fn mirror(&self, normal: Vec3, position: Vec3) -> (r: Ray)
        ensures
            r == mirror_s(*self, normal, position),
    {
        let n = normal.normalize();
        let d = n.dot(self.direction);
        let dir = self.direction.sub(n.scale(sat_add(d, d)));
        Ray { origin: position, direction: dir.normalize() }
    }

    pub fn direction(&self) -> (d: Vec3)
        ensures
            d == self.direction,
    {
        self.direction
    }

    pub fn origin(&self) -> (o: Vec3)
        ensures
            o == self.origin,
    {
        self.origin
    }

    pub fn point_at_t(&self, t: i64) -> (p: Vec3)
        ensures
            p == point_at_s(*self, t as int),
    {
        self.origin.add(self.direction.scale(t))
    }
}

} // verus!
