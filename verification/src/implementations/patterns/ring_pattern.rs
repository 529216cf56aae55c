use vstd::prelude::*;

use crate::implementations::fx::{fadd, ffloor, fmul, fsqrt, SCALE};
use crate::implementations::matrices::{sdet4, Matrix4x4};
use crate::implementations::pattern::{pattern_space_point, spattern_point};
use crate::implementations::shape::Shape;
use crate::implementations::tuples::Vec4;

verus! {

/// Concentric rings in the x-z plane, one whole unit wide.
#[derive(Clone, Copy)]
pub struct RingPattern {
    pub a: Vec4,
    pub b: Vec4,
    pub transform: Matrix4x4,
}

/// `a` where the whole part of the radial distance is even, `b` where odd.
pub open spec fn s_ring_color(p: RingPattern, q: Vec4) -> Vec4 {
    let d = fsqrt(fadd(fmul(q.0 as int, q.0 as int), fmul(q.2 as int, q.2 as int)));
    if ffloor(d) % (2 * SCALE as int) == 0 {
        p.a
    } else {
        p.b
    }
}

pub open spec fn s_ring_at(p: RingPattern, shape_tf: Matrix4x4, wp: Vec4) -> Vec4 {
    s_ring_color(p, spattern_point(p.transform, shape_tf, wp))
}

impl RingPattern {
    pub fn color_at(&self, shape: &Shape, point: &Vec4) -> (r: Vec4)
        requires
            sdet4(shape.transform) != 0,
            sdet4(self.transform) != 0,
        ensures
            r == s_ring_at(*self, shape.transform, *point),
    {
        let q: Vec4 = pattern_space_point(&self.transform, &shape.transform, point);
        let d: i64 = crate::implementations::fx::fx_sqrt(
            crate::implementations::fx::fx_add(
                crate::implementations::fx::fx_mul(q.0, q.0),
                crate::implementations::fx::fx_mul(q.2, q.2),
            ),
        );
        let f: i64 = crate::implementations::fx::fx_floor(d);
        if crate::implementations::fx::fx_emod(f, 2 * SCALE) == 0 {
            self.a
        } else {
            self.b
        }
    }
}

} // verus!
