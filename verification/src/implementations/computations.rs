use vstd::prelude::*;

use crate::implementations::fx::{
    fadd, fdiv, fmul, fpow, fsqrt, fsub, Fx, SCALE,
};
use crate::implementations::tuples::{vdot, Vec4};

verus! {

/// Bias distance (0.01) used to push shadow/reflection ray origins off a
/// surface (and refraction origins through it) so that rounding cannot make
/// a ray re-hit the surface it starts on.
pub const BUMP_EPSILON: i64 = 10_000_000_000;

/// The precomputed shading geometry for one hit: surface point, eye and
/// (possibly flipped) normal vectors, bias-shifted points, reflection
/// vector, and the refractive indices on both sides of the surface.
#[derive(Clone, Copy)]
pub struct Computations {
    pub t: Fx,
    pub object: usize,
    pub point: Vec4,
    pub eyev: Vec4,
    pub normalv: Vec4,
    pub inside: bool,
    pub over_point: Vec4,
    pub under_point: Vec4,
    pub reflectv: Vec4,
    pub n1: Option<Fx>,
    pub n2: Option<Fx>,
}

pub open spec fn opt_scalar(o: Option<Fx>, d: int) -> int {
    match o {
        Some(v) => v as int,
        None => d,
    }
}

/// The tail of the Schlick formula: `r0 + (1 - r0) * (1 - cos)^5` with
/// `r0 == ((n1 - n2) / (n1 + n2))^2`.
pub open spec fn s_schlick_tail(n1: int, n2: int, cos: int) -> int {
    let q = fdiv(fsub(n1, n2), fadd(n1, n2));
    let r0 = fmul(q, q);
    fadd(r0, fmul(fsub(SCALE as int, r0), fpow(fsub(SCALE as int, cos), 5)))
}

/// Schlick's reflectance approximation.  Leaving into a less dense medium
/// (`n1 > n2`) substitutes the refracted cosine, and total internal
/// reflection yields reflectance 1.
pub open spec fn s_schlick(c: Computations) -> int {
    let n1 = opt_scalar(c.n1, SCALE as int);
    let n2 = opt_scalar(c.n2, SCALE as int);
    let cos0 = vdot(c.eyev, c.normalv);
    if n1 > n2 {
        let n = fdiv(n1, n2);
        let sin2_t = fmul(fmul(n, n), fsub(SCALE as int, fmul(cos0, cos0)));
        if sin2_t > SCALE {
            SCALE as int
        } else {
            s_schlick_tail(n1, n2, fsqrt(fsub(SCALE as int, sin2_t)))
        }
    } else {
        s_schlick_tail(n1, n2, cos0)
    }
}

fn schlick_tail(n1: Fx, n2: Fx, cos: Fx) -> (r: Fx)
    ensures
        r == s_schlick_tail(n1 as int, n2 as int, cos as int),
{
    let q: i64 = crate::implementations::fx::fx_div(
        crate::implementations::fx::fx_sub(n1, n2),
        crate::implementations::fx::fx_add(n1, n2),
    );
    let r0: i64 = crate::implementations::fx::fx_mul(q, q);
    crate::implementations::fx::fx_add(
        r0,
        crate::implementations::fx::fx_mul(
            crate::implementations::fx::fx_sub(SCALE, r0),
            crate::implementations::fx::fx_pow(crate::implementations::fx::fx_sub(SCALE, cos), 5),
        ),
    )
}

impl Computations {
    /// Reflectance of this hit; meaningful only once the refractive indices
    /// have been resolved.
    pub fn schlick(&self) -> (r: Fx)
        requires
            self.n1 is Some,
            self.n2 is Some,
        ensures
            r == s_schlick(*self),
    {
        let n1: i64 = match self.n1 {
            Some(v) => v,
            None => SCALE,
        };
        let n2: i64 = match self.n2 {
            Some(v) => v,
            None => SCALE,
        };
        let cos0: i64 = self.eyev.dot(&self.normalv);
        if n1 > n2 {
            let n: i64 = crate::implementations::fx::fx_div(n1, n2);
            let sin2_t: i64 = crate::implementations::fx::fx_mul(
                crate::implementations::fx::fx_mul(n, n),
                crate::implementations::fx::fx_sub(
                    SCALE,
                    crate::implementations::fx::fx_mul(cos0, cos0),
                ),
            );
            if sin2_t > SCALE {
                SCALE
            } else {
                schlick_tail(
                    n1,
                    n2,
                    crate::implementations::fx::fx_sqrt(
                        crate::implementations::fx::fx_sub(SCALE, sin2_t),
                    ),
                )
            }
        } else {
            schlick_tail(n1, n2, cos0)
        }
    }
}

} // verus!
