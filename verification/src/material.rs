//! Surface appearance: a reflectivity fraction, a reserved refractive
//! placeholder, and a solid-color source.

use vstd::prelude::*;
use crate::color::Color;
use crate::fixed::SCALE;
use crate::vec3::Vec3;

verus! {

/// The source of a material's base color. Only solid colors exist; an
/// image-mapped source would need a texture type this crate does not model.
#[derive(Clone, Copy, Debug)]
pub enum Materials {
    Color(Color),
}

/// Surface appearance. `reflective` is a fraction of one raw unit;
/// `refractive` is reserved and never read.
#[derive(Clone, Copy, Debug)]
pub struct Material {
    pub refractive: i64,
    pub reflective: i64,
    pub map: Materials,
}

/// The base color of a material at a point; solid colors ignore the point.
pub open spec fn material_color_s(m: Material, position: Vec3) -> Color {
    match m.map {
        Materials::Color(c) => c,
    }
}

impl Material {
    /// A reflectivity fraction never leaves `[0, 1]`.
    pub open spec fn wf(self) -> bool {
        0 <= self.reflective <= SCALE
    }

    /// A plain diffuse material.
    pub fn color(col: Color) -> (m: Material)
        ensures
            m == (Material { refractive: 0, reflective: 0, map: Materials::Color(col) }),
            m.wf(),
    {
        Material { refractive: 0, reflective: 0, map: Materials::Color(col) }
    }

    /// A diffuse material with a mirror fraction.
    pub fn color_ref(col: Color, reflective: i64) -> (m: Material)
        requires
            0 <= reflective <= SCALE,
        ensures
            m == (Material { refractive: 0, reflective, map: Materials::Color(col) }),
            m.wf(),
    {
        Material { refractive: 0, reflective, map: Materials::Color(col) }
    }

    pub fn get_color(&self, position: Vec3) -> (c: Color)
        ensures
            c == material_color_s(*self, position),
    {
        match self.map {
            Materials::Color(color) => color,
        }
    }
}

} // verus!
