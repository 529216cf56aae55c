use vstd::prelude::*;

use crate::implementations::fx::{ffloor, fsub};
use crate::implementations::matrices::{sdet4, Matrix4x4};
use crate::implementations::pattern::{pattern_space_point, spattern_point};
use crate::implementations::shape::Shape;
use crate::implementations::tuples::{vadd, vscale, vsub, Vec4};

verus! {

/// A linear blend from `a` to `b` across each whole unit of `x`.
#[derive(Clone, Copy)]
pub struct GradientPattern {
    pub a: Vec4,
    pub b: Vec4,
    pub transform: Matrix4x4,
}

/// `a + (b - a) * frac(x)` at a pattern-space point.
pub open spec fn s_gradient_color(p: GradientPattern, q: Vec4) -> Vec4 {
    vadd(p.a, vscale(vsub(p.b, p.a), fsub(q.0 as int, ffloor(q.0 as int))))
}

pub open spec fn s_gradient_at(p: GradientPattern, shape_tf: Matrix4x4, wp: Vec4) -> Vec4 {
    s_gradient_color(p, spattern_point(p.transform, shape_tf, wp))
}

impl GradientPattern {
    pub fn color_at(&self, shape: &Shape, point: &Vec4) -> (r: Vec4)
        requires
            sdet4(shape.transform) != 0,
            sdet4(self.transform) != 0,
        ensures
            r == s_gradient_at(*self, shape.transform, *point),
    {
        let q: Vec4 = pattern_space_point(&self.transform, &shape.transform, point);
        let distance: Vec4 = self.b.minus(&self.a);
        let fraction: i64 = crate::implementations::fx::fx_sub(
            q.0,
            crate::implementations::fx::fx_floor(q.0),
        );
        crate::implementations::ray::vec4_add(&self.a, &distance.scaled(fraction))
    }
}

} // verus!
