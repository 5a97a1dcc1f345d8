//! Three-component coordinate vectors over fixed-point scalars.

use vstd::prelude::*;
use crate::fixed::{
    clamp64, fx_div_s, fx_mul_s, fx_sqrt_s, sat_add_s, sat_neg_s, sat_sub_s, fx_div, fx_mul,
    fx_sqrt, sat_add, sat_neg, sat_sub,
};

verus! {

/// A point, direction or normal; components are raw fixed-point values.
#[derive(Clone, Copy, PartialEq, Eq, Debug)]
pub struct Vec3 {
    pub x: i64,
    pub y: i64,
    pub z: i64,
}

pub open spec fn vadd_s(a: Vec3, b: Vec3) -> Vec3 {
    Vec3 {
        x: sat_add_s(a.x as int, b.x as int) as i64,
        y: sat_add_s(a.y as int, b.y as int) as i64,
        z: sat_add_s(a.z as int, b.z as int) as i64,
    }
}

pub open spec fn vsub_s(a: Vec3, b: Vec3) -> Vec3 {
    Vec3 {
        x: sat_sub_s(a.x as int, b.x as int) as i64,
        y: sat_sub_s(a.y as int, b.y as int) as i64,
        z: sat_sub_s(a.z as int, b.z as int) as i64,
    }
}

pub open spec fn vneg_s(a: Vec3) -> Vec3 {
    Vec3 {
        x: sat_neg_s(a.x as int) as i64,
        y: sat_neg_s(a.y as int) as i64,
        z: sat_neg_s(a.z as int) as i64,
    }
}

/// Componentwise scaling by a raw fixed-point factor.
pub open spec fn vscale_s(a: Vec3, m: int) -> Vec3 {
    Vec3 {
        x: fx_mul_s(a.x as int, m) as i64,
        y: fx_mul_s(a.y as int, m) as i64,
        z: fx_mul_s(a.z as int, m) as i64,
    }
}

/// Inner product in raw fixed-point units.
pub open spec fn dot_s(a: Vec3, b: Vec3) -> int {
    sat_add_s(
        sat_add_s(fx_mul_s(a.x as int, b.x as int), fx_mul_s(a.y as int, b.y as int)),
        fx_mul_s(a.z as int, b.z as int),
    )
}

pub open spec fn cross_s(a: Vec3, b: Vec3) -> Vec3 {
    Vec3 {
        x: sat_sub_s(fx_mul_s(a.y as int, b.z as int), fx_mul_s(a.z as int, b.y as int)) as i64,
        y: sat_sub_s(fx_mul_s(a.z as int, b.x as int), fx_mul_s(a.x as int, b.z as int)) as i64,
        z: sat_sub_s(fx_mul_s(a.x as int, b.y as int), fx_mul_s(a.y as int, b.x as int)) as i64,
    }
}

/// Length of a vector in raw units: the square root of its self inner product.
pub open spec fn norm_len_s(a: Vec3) -> int {
    fx_sqrt_s(dot_s(a, a))
}

/// Normalization; a vector whose length rounds down to zero is returned
/// unchanged, so the operation is total.
pub open spec fn norm_s(a: Vec3) -> Vec3 {
    let len = norm_len_s(a);
    if len <= 0 {
        a
    } else {
        Vec3 {
            x: fx_div_s(a.x as int, len) as i64,
            y: fx_div_s(a.y as int, len) as i64,
            z: fx_div_s(a.z as int, len) as i64,
        }
    }
}

/// The self inner product never comes out negative.
pub proof fn lemma_dot_self_nonneg(a: Vec3)
    ensures
        dot_s(a, a) >= 0,
{
    assert(a.x as int * a.x as int >= 0) by (nonlinear_arith);
    assert(a.y as int * a.y as int >= 0) by (nonlinear_arith);
    assert(a.z as int * a.z as int >= 0) by (nonlinear_arith);
}

impl Vec3 {
    pub fn new(x: i64, y: i64, z: i64) -> (v: Vec3)
        ensures
            v == (Vec3 { x, y, z }),
    {
        Vec3 { x, y, z }
    }

    pub fn add(self, o: Vec3) -> (r: Vec3)
        ensures
            r == vadd_s(self, o),
    {
        Vec3 { x: sat_add(self.x, o.x), y: sat_add(self.y, o.y), z: sat_add(self.z, o.z) }
    }

    pub fn sub(self, o: Vec3) -> (r: Vec3)
        ensures
            r == vsub_s(self, o),
    {
        Vec3 { x: sat_sub(self.x, o.x), y: sat_sub(self.y, o.y), z: sat_sub(self.z, o.z) }
    }

    pub fn neg(self) -> (r: Vec3)
        ensures
            r == vneg_s(self),
    {
        Vec3 { x: sat_neg(self.x), y: sat_neg(self.y), z: sat_neg(self.z) }
    }

    pub fn scale(self, m: i64) -> (r: Vec3)
        ensures
            r == vscale_s(self, m as int),
    {
        Vec3 { x: fx_mul(self.x, m), y: fx_mul(self.y, m), z: fx_mul(self.z, m) }
    }

    pub fn dot(self, o: Vec3) -> (r: i64)
        ensures
            r as int == dot_s(self, o),
    {
        sat_add(sat_add(fx_mul(self.x, o.x), fx_mul(self.y, o.y)), fx_mul(self.z, o.z))
    }

    pub fn cross(self, o: Vec3) -> (r: Vec3)
        ensures
            r == cross_s(self, o),
    {
        Vec3 {
            x: sat_sub(fx_mul(self.y, o.z), fx_mul(self.z, o.y)),
            y: sat_sub(fx_mul(self.z, o.x), fx_mul(self.x, o.z)),
            z: sat_sub(fx_mul(self.x, o.y), fx_mul(self.y, o.x)),
        }
    }

    /// Squared distance from the origin, in raw units.
    pub fn magnitude_squared(self) -> (r: i64)
        ensures
            r as int == dot_s(self, self),
    {
        self.dot(self)
    }

    pub fn normalize(self) -> (r: Vec3)
        ensures
            r == norm_s(self),
    {
        proof {
            lemma_dot_self_nonneg(self);
        }
        let d = self.dot(self);
        let len = fx_sqrt(d);
        if len <= 0 {
            self
        } else {
            Vec3 { x: fx_div(self.x, len), y: fx_div(self.y, len), z: fx_div(self.z, len) }
        }
    }
}

} // verus!
