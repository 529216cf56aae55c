use vstd::prelude::*;

use crate::implementations::fx::{
    fadd, fdiv, fmul, fneg, fsqrt, fsub, fx_add, fx_div, fx_mul, fx_neg, fx_sqrt, fx_sub, Fx,
    SCALE,
};

verus! {

/// A homogeneous 4-tuple: `w == SCALE` (1.0) marks a point, `w == 0` a
/// vector; the same shape also carries RGB colors in its first three slots.
#[derive(Clone, Copy, Debug, PartialEq, Eq, Structural)]
pub struct Vec4(pub Fx, pub Fx, pub Fx, pub Fx);

#[derive(Clone, Copy, Debug, PartialEq, Eq, Structural)]
pub struct Vec3(pub Fx, pub Fx, pub Fx);

#[derive(Clone, Copy, Debug, PartialEq, Eq, Structural)]
pub struct Vec2(pub Fx, pub Fx);

pub open spec fn sv_color(r: int, g: int, b: int) -> Vec4 {
    Vec4(r as i64, g as i64, b as i64, 0i64)
}

pub open spec fn sv_point(x: int, y: int, z: int) -> Vec4 {
    Vec4(x as i64, y as i64, z as i64, SCALE)
}

pub open spec fn sv_vector(x: int, y: int, z: int) -> Vec4 {
    Vec4(x as i64, y as i64, z as i64, 0i64)
}

pub open spec fn vadd(a: Vec4, b: Vec4) -> Vec4 {
    Vec4(
        fadd(a.0 as int, b.0 as int) as i64,
        fadd(a.1 as int, b.1 as int) as i64,
        fadd(a.2 as int, b.2 as int) as i64,
        fadd(a.3 as int, b.3 as int) as i64,
    )
}

pub open spec fn vsub(a: Vec4, b: Vec4) -> Vec4 {
    Vec4(
        fsub(a.0 as int, b.0 as int) as i64,
        fsub(a.1 as int, b.1 as int) as i64,
        fsub(a.2 as int, b.2 as int) as i64,
        fsub(a.3 as int, b.3 as int) as i64,
    )
}

/// Componentwise scaling by one scalar.
pub open spec fn vscale(a: Vec4, s: int) -> Vec4 {
    Vec4(
        fmul(a.0 as int, s) as i64,
        fmul(a.1 as int, s) as i64,
        fmul(a.2 as int, s) as i64,
        fmul(a.3 as int, s) as i64,
    )
}

/// Componentwise (Hadamard) product, used for blending colors.
pub open spec fn vmul(a: Vec4, b: Vec4) -> Vec4 {
    Vec4(
        fmul(a.0 as int, b.0 as int) as i64,
        fmul(a.1 as int, b.1 as int) as i64,
        fmul(a.2 as int, b.2 as int) as i64,
        fmul(a.3 as int, b.3 as int) as i64,
    )
}

pub open spec fn vneg(a: Vec4) -> Vec4 {
    Vec4(
        fneg(a.0 as int) as i64,
        fneg(a.1 as int) as i64,
        fneg(a.2 as int) as i64,
        fneg(a.3 as int) as i64,
    )
}

pub open spec fn vdot(a: Vec4, b: Vec4) -> int {
    fadd(
        fadd(
            fadd(fmul(a.0 as int, b.0 as int), fmul(a.1 as int, b.1 as int)),
            fmul(a.2 as int, b.2 as int),
        ),
        fmul(a.3 as int, b.3 as int),
    )
}

pub open spec fn vcross(a: Vec4, b: Vec4) -> Vec4 {
    sv_vector(
        fsub(fmul(a.1 as int, b.2 as int), fmul(a.2 as int, b.1 as int)),
        fsub(fmul(a.2 as int, b.0 as int), fmul(a.0 as int, b.2 as int)),
        fsub(fmul(a.0 as int, b.1 as int), fmul(a.1 as int, b.0 as int)),
    )
}

pub open spec fn vmag(a: Vec4) -> int {
    fsqrt(vdot(a, a))
}

/// Normalization divides every component by the magnitude; a zero vector
/// (magnitude zero) maps to the zero vector, since `fdiv` by zero is zero.
pub open spec fn vnormalize(a: Vec4) -> Vec4 {
    let m = vmag(a);
    Vec4(
        fdiv(a.0 as int, m) as i64,
        fdiv(a.1 as int, m) as i64,
        fdiv(a.2 as int, m) as i64,
        fdiv(a.3 as int, m) as i64,
    )
}

/// Reflection of `v` about the unit normal `n`: `v - n * 2 * (v . n)`.
pub open spec fn vreflect(v: Vec4, n: Vec4) -> Vec4 {
    vsub(v, vscale(vscale(n, 2 * SCALE), vdot(v, n)))
}

pub fn color(r: Fx, g: Fx, b: Fx) -> (out: Vec4)
    ensures
        out == sv_color(r as int, g as int, b as int),
{
    Vec4(r, g, b, 0)
}

pub fn point(x: Fx, y: Fx, z: Fx) -> (out: Vec4)
    ensures
        out == sv_point(x as int, y as int, z as int),
{
    Vec4(x, y, z, SCALE)
}

pub fn vector(x: Fx, y: Fx, z: Fx) -> (out: Vec4)
    ensures
        out == sv_vector(x as int, y as int, z as int),
{
    Vec4(x, y, z, 0)
}

impl Vec4 {
    /// Componentwise sum.  Adding two points (`w` summing to 2.0) is a
    /// caller error, which the precondition rules out.
    pub fn plus(&self, other: &Vec4) -> (r: Vec4)
        requires
            self.3 + other.3 != 2 * SCALE,
        ensures
            r == vadd(*self, *other),
    {
        Vec4(
            fx_add(self.0, other.0),
            fx_add(self.1, other.1),
            fx_add(self.2, other.2),
            fx_add(self.3, other.3),
        )
    }

    pub fn minus(&self, other: &Vec4) -> (r: Vec4)
        ensures
            r == vsub(*self, *other),
    {
        Vec4(
            fx_sub(self.0, other.0),
            fx_sub(self.1, other.1),
            fx_sub(self.2, other.2),
            fx_sub(self.3, other.3),
        )
    }

    pub fn scaled(&self, s: Fx) -> (r: Vec4)
        ensures
            r == vscale(*self, s as int),
    {
        Vec4(fx_mul(self.0, s), fx_mul(self.1, s), fx_mul(self.2, s), fx_mul(self.3, s))
    }

    pub fn times(&self, other: &Vec4) -> (r: Vec4)
        ensures
            r == vmul(*self, *other),
    {
        Vec4(
            fx_mul(self.0, other.0),
            fx_mul(self.1, other.1),
            fx_mul(self.2, other.2),
            fx_mul(self.3, other.3),
        )
    }

    pub fn negated(&self) -> (r: Vec4)
        ensures
            r == vneg(*self),
    {
        Vec4(fx_neg(self.0), fx_neg(self.1), fx_neg(self.2), fx_neg(self.3))
    }

    pub fn dot(&self, other: &Vec4) -> (r: Fx)
        ensures
            r == vdot(*self, *other),
    {
        fx_add(
            fx_add(
                fx_add(fx_mul(self.0, other.0), fx_mul(self.1, other.1)),
                fx_mul(self.2, other.2),
            ),
            fx_mul(self.3, other.3),
        )
    }

    pub fn cross(&self, other: &Vec4) -> (r: Vec4)
        ensures
            r == vcross(*self, *other),
    {
        vector(
            fx_sub(fx_mul(self.1, other.2), fx_mul(self.2, other.1)),
            fx_sub(fx_mul(self.2, other.0), fx_mul(self.0, other.2)),
            fx_sub(fx_mul(self.0, other.1), fx_mul(self.1, other.0)),
        )
    }

    pub fn mag(&self) -> (r: Fx)
        ensures
            r == vmag(*self),
    {
        fx_sqrt(self.dot(self))
    }

    pub fn normalize(&self) -> (r: Vec4)
        ensures
            r == vnormalize(*self),
    {
        let m: i64 = self.mag();
        Vec4(fx_div(self.0, m), fx_div(self.1, m), fx_div(self.2, m), fx_div(self.3, m))
    }

    pub fn reflect(&self, normal: &Vec4) -> (r: Vec4)
        ensures
            r == vreflect(*self, *normal),
    {
        self.minus(&normal.scaled(2 * SCALE).scaled(self.dot(normal)))
    }

    /// Componentwise scaling, named after its use when mapping color
    /// channels onto a pixel range.
    pub fn clamp(&self, limit: Fx) -> (r: Vec4)
        ensures
            r == vscale(*self, limit as int),
    {
        self.scaled(limit)
    }

    pub fn from(vec: &Vec<Fx>) -> (r: Vec4)
        requires
            vec@.len() >= 4,
        ensures
            r == Vec4(vec@[0], vec@[1], vec@[2], vec@[3]),
    {
        Vec4(vec[0], vec[1], vec[2], vec[3])
    }
}

impl Vec3 {
    pub fn from(vec: &Vec<Fx>) -> (r: Vec3)
        requires
            vec@.len() >= 3,
        ensures
            r == Vec3(vec@[0], vec@[1], vec@[2]),
    {
        Vec3(vec[0], vec[1], vec[2])
    }
}

impl Vec2 {
    pub fn from(vec: &Vec<Fx>) -> (r: Vec2)
        requires
            vec@.len() >= 2,
        ensures
            r == Vec2(vec@[0], vec@[1]),
    {
        Vec2(vec[0], vec[1])
    }
}

} // verus!
