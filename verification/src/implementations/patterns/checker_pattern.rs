use vstd::prelude::*;

use crate::implementations::fx::{fadd, ffloor, SCALE};
use crate::implementations::matrices::{sdet4, Matrix4x4};
use crate::implementations::pattern::{pattern_space_point, spattern_point};
use crate::implementations::shape::Shape;
use crate::implementations::tuples::Vec4;

verus! {

/// A three-dimensional checkerboard of whole-unit cubes.
#[derive(Clone, Copy)]
pub struct CheckerPattern {
    pub a: Vec4,
    pub b: Vec4,
    pub transform: Matrix4x4,
}

/// `a` where the whole parts of the coordinates sum to an even number.
pub open spec fn s_checker_color(p: CheckerPattern, q: Vec4) -> Vec4 {
    let s = fadd(fadd(ffloor(q.0 as int), ffloor(q.1 as int)), ffloor(q.2 as int));
    if s % (2 * SCALE as int) == 0 {
        p.a
    } else {
        p.b
    }
}

pub open spec fn s_checker_at(p: CheckerPattern, shape_tf: Matrix4x4, wp: Vec4) -> Vec4 {
    s_checker_color(p, spattern_point(p.transform, shape_tf, wp))
}

impl CheckerPattern {
    pub fn color_at(&self, shape: &Shape, point: &Vec4) -> (r: Vec4)
        requires
            sdet4(shape.transform) != 0,
            sdet4(self.transform) != 0,
        ensures
            r == s_checker_at(*self, shape.transform, *point),
    {
        let q: Vec4 = pattern_space_point(&self.transform, &shape.transform, point);
        let s: i64 = crate::implementations::fx::fx_add(
            crate::implementations::fx::fx_add(
                crate::implementations::fx::fx_floor(q.0),
                crate::implementations::fx::fx_floor(q.1),
            ),
            crate::implementations::fx::fx_floor(q.2),
        );
        if crate::implementations::fx::fx_emod(s, 2 * SCALE) == 0 {
            self.a
        } else {
            self.b
        }
    }
}

} // verus!
