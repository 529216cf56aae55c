use vstd::prelude::*;

use crate::implementations::fx::{Fx, SCALE};
use crate::implementations::pattern::{pattern_wf, Pattern};
use crate::implementations::tuples::Vec4;

verus! {

/// Phong material coefficients plus reflection/refraction parameters; the
/// shininess exponent is a whole number.
#[derive(Clone)]
pub struct Material {
    pub color: Vec4,
    pub ambient: Fx,
    pub diffuse: Fx,
    pub specular: Fx,
    pub shininess: u32,
    pub reflective: Fx,
    pub transparency: Fx,
    pub refractive_index: Fx,
    pub pattern: Option<Pattern>,
}

/// The default material: white, standard Phong coefficients, opaque,
/// non-reflective, vacuum refractive index.
pub open spec fn default_material() -> Material {
    Material {
        color: Vec4(SCALE, SCALE, SCALE, 0),
        ambient: 100_000_000_000i64,
        diffuse: 900_000_000_000i64,
        specular: 900_000_000_000i64,
        shininess: 200u32,
        reflective: 0i64,
        transparency: 0i64,
        refractive_index: SCALE,
        pattern: None,
    }
}

/// A material is usable when its pattern, if any, is.
pub open spec fn mwf(m: Material) -> bool {
    match m.pattern {
        Some(p) => pattern_wf(p),
        None => true,
    }
}

impl Material {
    pub fn new() -> (r: Material)
        ensures
            r == default_material(),
    {
        Material {
            color: Vec4(SCALE, SCALE, SCALE, 0),
            ambient: 100_000_000_000,
            diffuse: 900_000_000_000,
            specular: 900_000_000_000,
            shininess: 200,
            reflective: 0,
            transparency: 0,
            refractive_index: SCALE,
            pattern: None,
        }
    }

    pub fn set_pattern(&mut self, pattern: Pattern)
        ensures
            final(self).pattern == Some(pattern),
            final(self).color == old(self).color,
            final(self).ambient == old(self).ambient,
            final(self).diffuse == old(self).diffuse,
            final(self).specular == old(self).specular,
            final(self).shininess == old(self).shininess,
            final(self).reflective == old(self).reflective,
            final(self).transparency == old(self).transparency,
            final(self).refractive_index == old(self).refractive_index,
    {
        self.pattern = Some(pattern);
    }
}

} // verus!
