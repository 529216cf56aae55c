use vstd::prelude::*;

use crate::implementations::fx::{ffloor, SCALE};
use crate::implementations::matrices::{sdet4, Matrix4x4};
use crate::implementations::pattern::{pattern_space_point, spattern_point};
use crate::implementations::shape::Shape;
use crate::implementations::tuples::Vec4;

verus! {

/// Stripes alternating along `x`, one whole unit wide.
#[derive(Clone, Copy)]
pub struct StripedPattern {
    pub a: Vec4,
    pub b: Vec4,
    pub transform: Matrix4x4,
}

/// The stripe color at a pattern-space point: `a` on even whole units of
/// `x`, `b` on odd ones.
pub open spec fn s_striped_color(p: StripedPattern, q: Vec4) -> Vec4 {
    if ffloor(q.0 as int) % (2 * SCALE as int) == 0 {
        p.a
    } else {
        p.b
    }
}

pub open spec fn s_striped_at(p: StripedPattern, shape_tf: Matrix4x4, wp: Vec4) -> Vec4 {
    s_striped_color(p, spattern_point(p.transform, shape_tf, wp))
}

impl StripedPattern {
    pub fn color_at(&self, shape: &Shape, point: &Vec4) -> (r: Vec4)
        requires
            sdet4(shape.transform) != 0,
            sdet4(self.transform) != 0,
        ensures
            r == s_striped_at(*self, shape.transform, *point),
    {
        let q: Vec4 = pattern_space_point(&self.transform, &shape.transform, point);
        let f: i64 = crate::implementations::fx::fx_floor(q.0);
        if crate::implementations::fx::fx_emod(f, 2 * SCALE) == 0 {
            self.a
        } else {
            self.b
        }
    }
}

} // verus!
