use vstd::prelude::*;

use crate::implementations::fx::{Fx};
use crate::implementations::matrices::{smul4v, Matrix4x4};
use crate::implementations::tuples::{vadd, vscale, Vec4};

verus! {

/// A ray: an origin point and a direction vector, in whichever space it is
/// currently expressed.
#[derive(Clone, Copy, Debug, PartialEq, Eq, Structural)]
pub struct Ray {
    pub origin: Vec4,
    pub direction: Vec4,
}

/// The point a parametric distance `t` along the ray.
pub open spec fn sposition(r: Ray, t: int) -> Vec4 {
    vadd(r.origin, vscale(r.direction, t))
}

pub open spec fn stransform_ray(r: Ray, m: Matrix4x4) -> Ray {
    Ray { origin: smul4v(m, r.origin), direction: smul4v(m, r.direction) }
}

/// Componentwise sum without the point-plus-point precondition of
/// `Vec4::plus`; ray arithmetic freely mixes homogeneous coordinates.
pub(crate) fn vec4_add(a: &Vec4, b: &Vec4) -> (r: Vec4)
    ensures
        r == vadd(*a, *b),
{
    Vec4(
        crate::implementations::fx::fx_add(a.0, b.0),
        crate::implementations::fx::fx_add(a.1, b.1),
        crate::implementations::fx::fx_add(a.2, b.2),
        crate::implementations::fx::fx_add(a.3, b.3),
    )
}

impl Ray {
    pub fn position(&self, t: Fx) -> (r: Vec4)
        ensures
            r == sposition(*self, t as int),
    {
        vec4_add(&self.origin, &self.direction.scaled(t))
    }

    /// The same ray expressed in another space; the original is untouched.
    pub fn transform(&self, m: &Matrix4x4) -> (r: Ray)
        ensures
            r == stransform_ray(*self, *m),
    {
        Ray { origin: m.times_vec(&self.origin), direction: m.times_vec(&self.direction) }
    }
}

} // verus!
