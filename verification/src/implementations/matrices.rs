use vstd::prelude::*;

use crate::implementations::fx::{
    fadd, fdiv, fmul, fneg, fsub, fx_add, fx_div, fx_mul, fx_neg, fx_sub, Fx, SCALE,
};
use crate::implementations::trig::{fcos, fsin, fx_cos, fx_sin, PI_FX};
use crate::implementations::tuples::{vcross, vnormalize, vsub, Vec2, Vec3, Vec4};

verus! {

#[derive(Clone, Copy, Debug, PartialEq, Eq, Structural)]
pub struct Matrix4x4(pub Vec4, pub Vec4, pub Vec4, pub Vec4);

#[derive(Clone, Copy, Debug, PartialEq, Eq, Structural)]
pub struct Matrix3x3(pub Vec3, pub Vec3, pub Vec3);

#[derive(Clone, Copy, Debug, PartialEq, Eq, Structural)]
pub struct Matrix2x2(pub Vec2, pub Vec2);

pub open spec fn srow4(m: Matrix4x4, i: int) -> Vec4 {
    if i == 0 {
        m.0
    } else if i == 1 {
        m.1
    } else if i == 2 {
        m.2
    } else {
        m.3
    }
}

pub open spec fn scomp4(v: Vec4, j: int) -> int {
    if j == 0 {
        v.0 as int
    } else if j == 1 {
        v.1 as int
    } else if j == 2 {
        v.2 as int
    } else {
        v.3 as int
    }
}

pub open spec fn sentry4(m: Matrix4x4, i: int, j: int) -> int {
    scomp4(srow4(m, i), j)
}

pub open spec fn srow3(m: Matrix3x3, i: int) -> Vec3 {
    if i == 0 {
        m.0
    } else if i == 1 {
        m.1
    } else {
        m.2
    }
}

pub open spec fn scomp3(v: Vec3, j: int) -> int {
    if j == 0 {
        v.0 as int
    } else if j == 1 {
        v.1 as int
    } else {
        v.2 as int
    }
}

pub open spec fn sentry3(m: Matrix3x3, i: int, j: int) -> int {
    scomp3(srow3(m, i), j)
}

pub open spec fn sident() -> Matrix4x4 {
    Matrix4x4(
        Vec4(SCALE, 0, 0, 0),
        Vec4(0, SCALE, 0, 0),
        Vec4(0, 0, SCALE, 0),
        Vec4(0, 0, 0, SCALE),
    )
}

/// One entry of a matrix product: the dot product of row `i` of `a` with
/// column `j` of `b`, summed left to right.
pub open spec fn sprod_entry(a: Matrix4x4, b: Matrix4x4, i: int, j: int) -> int {
    fadd(
        fadd(
            fadd(
                fmul(sentry4(a, i, 0), sentry4(b, 0, j)),
                fmul(sentry4(a, i, 1), sentry4(b, 1, j)),
            ),
            fmul(sentry4(a, i, 2), sentry4(b, 2, j)),
        ),
        fmul(sentry4(a, i, 3), sentry4(b, 3, j)),
    )
}

#[verifier::opaque]
pub open spec fn smul4(a: Matrix4x4, b: Matrix4x4) -> Matrix4x4 {
    Matrix4x4(
        Vec4(
            sprod_entry(a, b, 0, 0) as i64,
            sprod_entry(a, b, 0, 1) as i64,
            sprod_entry(a, b, 0, 2) as i64,
            sprod_entry(a, b, 0, 3) as i64,
        ),
        Vec4(
            sprod_entry(a, b, 1, 0) as i64,
            sprod_entry(a, b, 1, 1) as i64,
            sprod_entry(a, b, 1, 2) as i64,
            sprod_entry(a, b, 1, 3) as i64,
        ),
        Vec4(
            sprod_entry(a, b, 2, 0) as i64,
            sprod_entry(a, b, 2, 1) as i64,
            sprod_entry(a, b, 2, 2) as i64,
            sprod_entry(a, b, 2, 3) as i64,
        ),
        Vec4(
            sprod_entry(a, b, 3, 0) as i64,
            sprod_entry(a, b, 3, 1) as i64,
            sprod_entry(a, b, 3, 2) as i64,
            sprod_entry(a, b, 3, 3) as i64,
        ),
    )
}

pub open spec fn srowdot(r: Vec4, v: Vec4) -> int {
    fadd(
        fadd(fadd(fmul(r.0 as int, v.0 as int), fmul(r.1 as int, v.1 as int)), fmul(
            r.2 as int,
            v.2 as int,
        )),
        fmul(r.3 as int, v.3 as int),
    )
}

pub open spec fn smul4v(m: Matrix4x4, v: Vec4) -> Vec4 {
    Vec4(
        srowdot(m.0, v) as i64,
        srowdot(m.1, v) as i64,
        srowdot(m.2, v) as i64,
        srowdot(m.3, v) as i64,
    )
}

pub open spec fn stranspose(m: Matrix4x4) -> Matrix4x4 {
    Matrix4x4(
        Vec4(m.0.0, m.1.0, m.2.0, m.3.0),
        Vec4(m.0.1, m.1.1, m.2.1, m.3.1),
        Vec4(m.0.2, m.1.2, m.2.2, m.3.2),
        Vec4(m.0.3, m.1.3, m.2.3, m.3.3),
    )
}

/// The row of a 3x3 (resp. 2x2) submatrix: indices skip the deleted row
/// and column.
pub open spec fn skip(deleted: int, k: int) -> int {
    if k < deleted {
        k
    } else {
        k + 1
    }
}

pub open spec fn ssub4(m: Matrix4x4, x: int, y: int) -> Matrix3x3 {
    Matrix3x3(
        Vec3(
            sentry4(m, skip(x, 0), skip(y, 0)) as i64,
            sentry4(m, skip(x, 0), skip(y, 1)) as i64,
            sentry4(m, skip(x, 0), skip(y, 2)) as i64,
        ),
        Vec3(
            sentry4(m, skip(x, 1), skip(y, 0)) as i64,
            sentry4(m, skip(x, 1), skip(y, 1)) as i64,
            sentry4(m, skip(x, 1), skip(y, 2)) as i64,
        ),
        Vec3(
            sentry4(m, skip(x, 2), skip(y, 0)) as i64,
            sentry4(m, skip(x, 2), skip(y, 1)) as i64,
            sentry4(m, skip(x, 2), skip(y, 2)) as i64,
        ),
    )
}

pub open spec fn ssub3(m: Matrix3x3, x: int, y: int) -> Matrix2x2 {
    Matrix2x2(
        Vec2(
            sentry3(m, skip(x, 0), skip(y, 0)) as i64,
            sentry3(m, skip(x, 0), skip(y, 1)) as i64,
        ),
        Vec2(
            sentry3(m, skip(x, 1), skip(y, 0)) as i64,
            sentry3(m, skip(x, 1), skip(y, 1)) as i64,
        ),
    )
}

pub open spec fn sdet2(m: Matrix2x2) -> int {
    fsub(fmul(m.0.0 as int, m.1.1 as int), fmul(m.0.1 as int, m.1.0 as int))
}

pub open spec fn sminor3(m: Matrix3x3, x: int, y: int) -> int {
    sdet2(ssub3(m, x, y))
}

pub open spec fn scof3(m: Matrix3x3, x: int, y: int) -> int {
    if (x + y) % 2 == 0 {
        sminor3(m, x, y)
    } else {
        fneg(sminor3(m, x, y))
    }
}

/// Cofactor expansion along the first row, accumulated left to right.
pub open spec fn sdet3(m: Matrix3x3) -> int {
    fadd(
        fadd(
            fadd(0, fmul(m.0.0 as int, scof3(m, 0, 0))),
            fmul(m.0.1 as int, scof3(m, 0, 1)),
        ),
        fmul(m.0.2 as int, scof3(m, 0, 2)),
    )
}

pub open spec fn sminor4(m: Matrix4x4, x: int, y: int) -> int {
    sdet3(ssub4(m, x, y))
}

#[verifier::opaque]
pub open spec fn scof4(m: Matrix4x4, x: int, y: int) -> int {
    if (x + y) % 2 == 0 {
        sminor4(m, x, y)
    } else {
        fneg(sminor4(m, x, y))
    }
}

#[verifier::opaque]
pub open spec fn sdet4(m: Matrix4x4) -> int {
    fadd(
        fadd(
            fadd(
                fadd(0, fmul(m.0.0 as int, scof4(m, 0, 0))),
                fmul(m.0.1 as int, scof4(m, 0, 1)),
            ),
            fmul(m.0.2 as int, scof4(m, 0, 2)),
        ),
        fmul(m.0.3 as int, scof4(m, 0, 3)),
    )
}

/// The inverse: entry `(i, j)` is `cofactor(j, i) / det`, the transposed
/// matrix of cofactors scaled by the reciprocal of the determinant.
#[verifier::opaque]
pub open spec fn sinv4(m: Matrix4x4) -> Matrix4x4 {
    let d = sdet4(m);
    Matrix4x4(
        Vec4(
            fdiv(scof4(m, 0, 0), d) as i64,
            fdiv(scof4(m, 1, 0), d) as i64,
            fdiv(scof4(m, 2, 0), d) as i64,
            fdiv(scof4(m, 3, 0), d) as i64,
        ),
        Vec4(
            fdiv(scof4(m, 0, 1), d) as i64,
            fdiv(scof4(m, 1, 1), d) as i64,
            fdiv(scof4(m, 2, 1), d) as i64,
            fdiv(scof4(m, 3, 1), d) as i64,
        ),
        Vec4(
            fdiv(scof4(m, 0, 2), d) as i64,
            fdiv(scof4(m, 1, 2), d) as i64,
            fdiv(scof4(m, 2, 2), d) as i64,
            fdiv(scof4(m, 3, 2), d) as i64,
        ),
        Vec4(
            fdiv(scof4(m, 0, 3), d) as i64,
            fdiv(scof4(m, 1, 3), d) as i64,
            fdiv(scof4(m, 2, 3), d) as i64,
            fdiv(scof4(m, 3, 3), d) as i64,
        ),
    )
}

pub open spec fn stranslation(x: int, y: int, z: int) -> Matrix4x4 {
    Matrix4x4(
        Vec4(SCALE, 0, 0, x as i64),
        Vec4(0, SCALE, 0, y as i64),
        Vec4(0, 0, SCALE, z as i64),
        Vec4(0, 0, 0, SCALE),
    )
}

pub open spec fn sscaling(x: int, y: int, z: int) -> Matrix4x4 {
    Matrix4x4(
        Vec4(x as i64, 0, 0, 0),
        Vec4(0, y as i64, 0, 0),
        Vec4(0, 0, z as i64, 0),
        Vec4(0, 0, 0, SCALE),
    )
}

pub open spec fn sshearing(xy: int, xx: int, yx: int, yz: int, zx: int, zy: int) -> Matrix4x4 {
    Matrix4x4(
        Vec4(SCALE, xy as i64, xx as i64, 0),
        Vec4(yx as i64, SCALE, yz as i64, 0),
        Vec4(zx as i64, zy as i64, SCALE, 0),
        Vec4(0, 0, 0, SCALE),
    )
}

/// Degrees to radians, `(d / 180) * pi`, in fixed-point steps.
pub open spec fn sdeg2rad(d: int) -> int {
    fmul(fdiv(d, 180 * SCALE), PI_FX as int)
}

pub open spec fn srotation_x(degrees: int) -> Matrix4x4 {
    let r = sdeg2rad(degrees);
    let c = fcos(r);
    let s = fsin(r);
    Matrix4x4(
        Vec4(SCALE, 0, 0, 0),
        Vec4(0, c as i64, fneg(s) as i64, 0),
        Vec4(0, s as i64, c as i64, 0),
        Vec4(0, 0, 0, SCALE),
    )
}

pub open spec fn srotation_y(degrees: int) -> Matrix4x4 {
    let r = sdeg2rad(degrees);
    let c = fcos(r);
    let s = fsin(r);
    Matrix4x4(
        Vec4(c as i64, 0, s as i64, 0),
        Vec4(0, SCALE, 0, 0),
        Vec4(fneg(s) as i64, 0, c as i64, 0),
        Vec4(0, 0, 0, SCALE),
    )
}

pub open spec fn srotation_z(degrees: int) -> Matrix4x4 {
    let r = sdeg2rad(degrees);
    let c = fcos(r);
    let s = fsin(r);
    Matrix4x4(
        Vec4(c as i64, fneg(s) as i64, 0, 0),
        Vec4(s as i64, c as i64, 0, 0),
        Vec4(0, 0, SCALE, 0),
        Vec4(0, 0, 0, SCALE),
    )
}

/// The world-to-camera matrix: an orthonormal frame built from the gaze
/// direction and the up hint, then a translation to the eye point.
pub open spec fn sview_transform(from: Vec4, to: Vec4, up: Vec4) -> Matrix4x4 {
    let forward = vnormalize(vsub(to, from));
    let left = vcross(forward, vnormalize(up));
    let true_up = vcross(left, forward);
    let base = Matrix4x4(
        Vec4(left.0, left.1, left.2, 0),
        Vec4(true_up.0, true_up.1, true_up.2, 0),
        Vec4(fneg(forward.0 as int) as i64, fneg(forward.1 as int) as i64, fneg(
            forward.2 as int,
        ) as i64, 0),
        Vec4(0, 0, 0, SCALE),
    );
    smul4(
        base,
        stranslation(fneg(from.0 as int), fneg(from.1 as int), fneg(from.2 as int)),
    )
}

pub fn view_transform(from: &Vec4, to: &Vec4, up: &Vec4) -> (r: Matrix4x4)
    ensures
        r == sview_transform(*from, *to, *up),
{
    let forward: Vec4 = to.minus(from).normalize();
    let left: Vec4 = forward.cross(&up.normalize());
    let true_up: Vec4 = left.cross(&forward);
    let view_matrix = Matrix4x4(
        Vec4(left.0, left.1, left.2, 0),
        Vec4(true_up.0, true_up.1, true_up.2, 0),
        Vec4(fx_neg(forward.0), fx_neg(forward.1), fx_neg(forward.2), 0),
        Vec4(0, 0, 0, SCALE),
    );
    view_matrix.translate(fx_neg(from.0), fx_neg(from.1), fx_neg(from.2))
}

pub fn shearing(xy: Fx, xx: Fx, yx: Fx, yz: Fx, zx: Fx, zy: Fx) -> (r: Matrix4x4)
    ensures
        r == sshearing(xy as int, xx as int, yx as int, yz as int, zx as int, zy as int),
{
    Matrix4x4(
        Vec4(SCALE, xy, xx, 0),
        Vec4(yx, SCALE, yz, 0),
        Vec4(zx, zy, SCALE, 0),
        Vec4(0, 0, 0, SCALE),
    )
}

pub fn degrees_to_radians(degrees: Fx) -> (r: Fx)
    ensures
        r == sdeg2rad(degrees as int),
{
    fx_mul(fx_div(degrees, 180 * SCALE), PI_FX)
}

pub fn rotation_x(degrees: Fx) -> (r: Matrix4x4)
    ensures
        r == srotation_x(degrees as int),
{
    let radians: i64 = degrees_to_radians(degrees);
    let cos: i64 = fx_cos(radians);
    let sin: i64 = fx_sin(radians);
    Matrix4x4(
        Vec4(SCALE, 0, 0, 0),
        Vec4(0, cos, fx_neg(sin), 0),
        Vec4(0, sin, cos, 0),
        Vec4(0, 0, 0, SCALE),
    )
}

pub fn rotation_y(degrees: Fx) -> (r: Matrix4x4)
    ensures
        r == srotation_y(degrees as int),
{
    let radians: i64 = degrees_to_radians(degrees);
    let cos: i64 = fx_cos(radians);
    let sin: i64 = fx_sin(radians);
    Matrix4x4(
        Vec4(cos, 0, sin, 0),
        Vec4(0, SCALE, 0, 0),
        Vec4(fx_neg(sin), 0, cos, 0),
        Vec4(0, 0, 0, SCALE),
    )
}

pub fn rotation_z(degrees: Fx) -> (r: Matrix4x4)
    ensures
        r == srotation_z(degrees as int),
{
    let radians: i64 = degrees_to_radians(degrees);
    let cos: i64 = fx_cos(radians);
    let sin: i64 = fx_sin(radians);
    Matrix4x4(
        Vec4(cos, fx_neg(sin), 0, 0),
        Vec4(sin, cos, 0, 0),
        Vec4(0, 0, SCALE, 0),
        Vec4(0, 0, 0, SCALE),
    )
}

pub fn translation(x: Fx, y: Fx, z: Fx) -> (r: Matrix4x4)
    ensures
        r == stranslation(x as int, y as int, z as int),
{
    Matrix4x4(
        Vec4(SCALE, 0, 0, x),
        Vec4(0, SCALE, 0, y),
        Vec4(0, 0, SCALE, z),
        Vec4(0, 0, 0, SCALE),
    )
}

pub fn scaling(x: Fx, y: Fx, z: Fx) -> (r: Matrix4x4)
    ensures
        r == sscaling(x as int, y as int, z as int),
{
    Matrix4x4(
        Vec4(x, 0, 0, 0),
        Vec4(0, y, 0, 0),
        Vec4(0, 0, z, 0),
        Vec4(0, 0, 0, SCALE),
    )
}

impl Matrix2x2 {
    pub fn determ(&self) -> (r: Fx)
        ensures
            r == sdet2(*self),
    {
        fx_sub(fx_mul(self.0.0, self.1.1), fx_mul(self.0.1, self.1.0))
    }
}

impl Matrix3x3 {
    fn row(&self, i: usize) -> (r: Vec3)
        requires
            i < 3,
        ensures
            r == srow3(*self, i as int),
    {
        if i == 0 {
            self.0
        } else if i == 1 {
            self.1
        } else {
            self.2
        }
    }

    fn get(&self, i: usize, j: usize) -> (r: Fx)
        requires
            i < 3,
            j < 3,
        ensures
            r == sentry3(*self, i as int, j as int),
    {
        let row: Vec3 = self.row(i);
        if j == 0 {
            row.0
        } else if j == 1 {
            row.1
        } else {
            row.2
        }
    }

    pub fn to_vectors(&self) -> (r: Vec<Vec<Fx>>)
        ensures
            r@.len() == 3,
            forall|i: int, j: int|
                0 <= i < 3 && 0 <= j < 3 ==> r@[i]@.len() == 3 && r@[i]@[j] == sentry3(
                    *self,
                    i,
                    j,
                ),
    {
        let rows: Vec<Vec<Fx>> = vec![
            vec![self.0.0, self.0.1, self.0.2],
            vec![self.1.0, self.1.1, self.1.2],
            vec![self.2.0, self.2.1, self.2.2],
        ];
        rows
    }

    pub fn sub(&self, x: usize, y: usize) -> (r: Matrix2x2)
        requires
            x < 3,
            y < 3,
        ensures
            r == ssub3(*self, x as int, y as int),
    {
        let r0: usize = if x == 0 {
            1
        } else {
            0
        };
        let r1: usize = if x <= 1 {
            2
        } else {
            1
        };
        let c0: usize = if y == 0 {
            1
        } else {
            0
        };
        let c1: usize = if y <= 1 {
            2
        } else {
            1
        };
        Matrix2x2(
            Vec2(self.get(r0, c0), self.get(r0, c1)),
            Vec2(self.get(r1, c0), self.get(r1, c1)),
        )
    }

    pub fn minor(&self, x: usize, y: usize) -> (r: Fx)
        requires
            x < 3,
            y < 3,
        ensures
            r == sminor3(*self, x as int, y as int),
    {
        self.sub(x, y).determ()
    }

    pub fn cofactor(&self, x: usize, y: usize) -> (r: Fx)
        requires
            x < 3,
            y < 3,
        ensures
            r == scof3(*self, x as int, y as int),
    {
        let m: i64 = self.minor(x, y);
        if (x + y) % 2 == 0 {
            m
        } else {
            fx_neg(m)
        }
    }

    pub fn determ(&self) -> (r: Fx)
        ensures
            r == sdet3(*self),
    {
        let e0: i64 = fx_add(0, fx_mul(self.0.0, self.cofactor(0, 0)));
        let e1: i64 = fx_add(e0, fx_mul(self.0.1, self.cofactor(0, 1)));
        fx_add(e1, fx_mul(self.0.2, self.cofactor(0, 2)))
    }
}

impl Matrix4x4 {
    fn row(&self, i: usize) -> (r: Vec4)
        requires
            i < 4,
        ensures
            r == srow4(*self, i as int),
    {
        if i == 0 {
            self.0
        } else if i == 1 {
            self.1
        } else if i == 2 {
            self.2
        } else {
            self.3
        }
    }

    pub fn get(&self, i: usize, j: usize) -> (r: Fx)
        requires
            i < 4,
            j < 4,
        ensures
            r == sentry4(*self, i as int, j as int),
    {
        let row: Vec4 = self.row(i);
        if j == 0 {
            row.0
        } else if j == 1 {
            row.1
        } else if j == 2 {
            row.2
        } else {
            row.3
        }
    }

    pub fn to_vectors(&self) -> (r: Vec<Vec<Fx>>)
        ensures
            r@.len() == 4,
            forall|i: int, j: int|
                0 <= i < 4 && 0 <= j < 4 ==> r@[i]@.len() == 4 && r@[i]@[j] == sentry4(
                    *self,
                    i,
                    j,
                ),
    {
        let rows: Vec<Vec<Fx>> = vec![
            vec![self.0.0, self.0.1, self.0.2, self.0.3],
            vec![self.1.0, self.1.1, self.1.2, self.1.3],
            vec![self.2.0, self.2.1, self.2.2, self.2.3],
            vec![self.3.0, self.3.1, self.3.2, self.3.3],
        ];
        rows
    }

    pub fn from(v: &Vec<Vec<Fx>>) -> (r: Matrix4x4)
        requires
            v@.len() >= 4,
            forall|i: int| 0 <= i < 4 ==> v@[i]@.len() >= 4,
        ensures
            forall|i: int, j: int|
                0 <= i < 4 && 0 <= j < 4 ==> sentry4(r, i, j) == v@[i]@[j],
    {
        Matrix4x4(
            Vec4(v[0][0], v[0][1], v[0][2], v[0][3]),
            Vec4(v[1][0], v[1][1], v[1][2], v[1][3]),
            Vec4(v[2][0], v[2][1], v[2][2], v[2][3]),
            Vec4(v[3][0], v[3][1], v[3][2], v[3][3]),
        )
    }

    pub fn transpose(&self) -> (r: Matrix4x4)
        ensures
            r == stranspose(*self),
    {
        Matrix4x4(
            Vec4(self.0.0, self.1.0, self.2.0, self.3.0),
            Vec4(self.0.1, self.1.1, self.2.1, self.3.1),
            Vec4(self.0.2, self.1.2, self.2.2, self.3.2),
            Vec4(self.0.3, self.1.3, self.2.3, self.3.3),
        )
    }

    pub fn ident() -> (r: Matrix4x4)
        ensures
            r == sident(),
    {
        Matrix4x4(
            Vec4(SCALE, 0, 0, 0),
            Vec4(0, SCALE, 0, 0),
            Vec4(0, 0, SCALE, 0),
            Vec4(0, 0, 0, SCALE),
        )
    }

    pub fn sub(&self, x: usize, y: usize) -> (r: Matrix3x3)
        requires
            x < 4,
            y < 4,
        ensures
            r == ssub4(*self, x as int, y as int),
    {
        let r0: usize = if x == 0 {
            1
        } else {
            0
        };
        let r1: usize = if x <= 1 {
            2
        } else {
            1
        };
        let r2: usize = if x <= 2 {
            3
        } else {
            2
        };
        let c0: usize = if y == 0 {
            1
        } else {
            0
        };
        let c1: usize = if y <= 1 {
            2
        } else {
            1
        };
        let c2: usize = if y <= 2 {
            3
        } else {
            2
        };
        Matrix3x3(
            Vec3(self.get(r0, c0), self.get(r0, c1), self.get(r0, c2)),
            Vec3(self.get(r1, c0), self.get(r1, c1), self.get(r1, c2)),
            Vec3(self.get(r2, c0), self.get(r2, c1), self.get(r2, c2)),
        )
    }

    pub fn minor(&self, x: usize, y: usize) -> (r: Fx)
        requires
            x < 4,
            y < 4,
        ensures
            r == sminor4(*self, x as int, y as int),
    {
        self.sub(x, y).determ()
    }

    pub fn cofactor(&self, x: usize, y: usize) -> (r: Fx)
        requires
            x < 4,
            y < 4,
        ensures
            r == scof4(*self, x as int, y as int),
    {
        proof {
            reveal(scof4);
        }
        let m: i64 = self.minor(x, y);
        if (x + y) % 2 == 0 {
            m
        } else {
            fx_neg(m)
        }
    }

    pub fn determ(&self) -> (r: Fx)
        ensures
            r == sdet4(*self),
    {
        proof {
            reveal(sdet4);
        }
        let e0: i64 = fx_add(0, fx_mul(self.0.0, self.cofactor(0, 0)));
        let e1: i64 = fx_add(e0, fx_mul(self.0.1, self.cofactor(0, 1)));
        let e2: i64 = fx_add(e1, fx_mul(self.0.2, self.cofactor(0, 2)));
        fx_add(e2, fx_mul(self.0.3, self.cofactor(0, 3)))
    }

    /// A singular matrix (zero determinant) has no inverse; such a
    /// transform is a malformed scene and is excluded by precondition.
    pub fn invert(&self) -> (r: Matrix4x4)
        requires
            sdet4(*self) != 0,
        ensures
            r == sinv4(*self),
    {
        proof {
            reveal(sinv4);
        }
        let d: i64 = self.determ();
        Matrix4x4(
            Vec4(
                fx_div(self.cofactor(0, 0), d),
                fx_div(self.cofactor(1, 0), d),
                fx_div(self.cofactor(2, 0), d),
                fx_div(self.cofactor(3, 0), d),
            ),
            Vec4(
                fx_div(self.cofactor(0, 1), d),
                fx_div(self.cofactor(1, 1), d),
                fx_div(self.cofactor(2, 1), d),
                fx_div(self.cofactor(3, 1), d),
            ),
            Vec4(
                fx_div(self.cofactor(0, 2), d),
                fx_div(self.cofactor(1, 2), d),
                fx_div(self.cofactor(2, 2), d),
                fx_div(self.cofactor(3, 2), d),
            ),
            Vec4(
                fx_div(self.cofactor(0, 3), d),
                fx_div(self.cofactor(1, 3), d),
                fx_div(self.cofactor(2, 3), d),
                fx_div(self.cofactor(3, 3), d),
            ),
        )
    }

    pub fn times_matrix(&self, other: &Matrix4x4) -> (r: Matrix4x4)
        ensures
            r == smul4(*self, *other),
    {
        proof {
            reveal(smul4);
        }
        Matrix4x4(
            self.product_row(&self.0, other),
            self.product_row(&self.1, other),
            self.product_row(&self.2, other),
            self.product_row(&self.3, other),
        )
    }

    fn product_row(&self, row: &Vec4, other: &Matrix4x4) -> (r: Vec4)
        ensures
            r.0 == srowdot(*row, Vec4(other.0.0, other.1.0, other.2.0, other.3.0)),
            r.1 == srowdot(*row, Vec4(other.0.1, other.1.1, other.2.1, other.3.1)),
            r.2 == srowdot(*row, Vec4(other.0.2, other.1.2, other.2.2, other.3.2)),
            r.3 == srowdot(*row, Vec4(other.0.3, other.1.3, other.2.3, other.3.3)),
    {
        Vec4(
            fx_add(
                fx_add(
                    fx_add(fx_mul(row.0, other.0.0), fx_mul(row.1, other.1.0)),
                    fx_mul(row.2, other.2.0),
                ),
                fx_mul(row.3, other.3.0),
            ),
            fx_add(
                fx_add(
                    fx_add(fx_mul(row.0, other.0.1), fx_mul(row.1, other.1.1)),
                    fx_mul(row.2, other.2.1),
                ),
                fx_mul(row.3, other.3.1),
            ),
            fx_add(
                fx_add(
                    fx_add(fx_mul(row.0, other.0.2), fx_mul(row.1, other.1.2)),
                    fx_mul(row.2, other.2.2),
                ),
                fx_mul(row.3, other.3.2),
            ),
            fx_add(
                fx_add(
                    fx_add(fx_mul(row.0, other.0.3), fx_mul(row.1, other.1.3)),
                    fx_mul(row.2, other.2.3),
                ),
                fx_mul(row.3, other.3.3),
            ),
        )
    }

    pub fn times_vec(&self, v: &Vec4) -> (r: Vec4)
        ensures
            r == smul4v(*self, *v),
    {
        Vec4(
            fx_add(
                fx_add(
                    fx_add(fx_mul(self.0.0, v.0), fx_mul(self.0.1, v.1)),
                    fx_mul(self.0.2, v.2),
                ),
                fx_mul(self.0.3, v.3),
            ),
            fx_add(
                fx_add(
                    fx_add(fx_mul(self.1.0, v.0), fx_mul(self.1.1, v.1)),
                    fx_mul(self.1.2, v.2),
                ),
                fx_mul(self.1.3, v.3),
            ),
            fx_add(
                fx_add(
                    fx_add(fx_mul(self.2.0, v.0), fx_mul(self.2.1, v.1)),
                    fx_mul(self.2.2, v.2),
                ),
                fx_mul(self.2.3, v.3),
            ),
            fx_add(
                fx_add(
                    fx_add(fx_mul(self.3.0, v.0), fx_mul(self.3.1, v.1)),
                    fx_mul(self.3.2, v.2),
                ),
                fx_mul(self.3.3, v.3),
            ),
        )
    }

    pub fn shear(&self, xy: Fx, xx: Fx, yx: Fx, yz: Fx, zx: Fx, zy: Fx) -> (r: Matrix4x4)
        ensures
            r == smul4(
                *self,
                sshearing(xy as int, xx as int, yx as int, yz as int, zx as int, zy as int),
            ),
    {
        self.times_matrix(&shearing(xy, xx, yx, yz, zx, zy))
    }

    pub fn rotate_x(&self, degrees: Fx) -> (r: Matrix4x4)
        ensures
            r == smul4(*self, srotation_x(degrees as int)),
    {
        self.times_matrix(&rotation_x(degrees))
    }

    pub fn rotate_y(&self, degrees: Fx) -> (r: Matrix4x4)
        ensures
            r == smul4(*self, srotation_y(degrees as int)),
    {
        self.times_matrix(&rotation_y(degrees))
    }

    pub fn rotate_z(&self, degrees: Fx) -> (r: Matrix4x4)
        ensures
            r == smul4(*self, srotation_z(degrees as int)),
    {
        self.times_matrix(&rotation_z(degrees))
    }

    pub fn translate(&self, x: Fx, y: Fx, z: Fx) -> (r: Matrix4x4)
        ensures
            r == smul4(*self, stranslation(x as int, y as int, z as int)),
    {
        self.times_matrix(&translation(x, y, z))
    }

    pub fn scale(&self, x: Fx, y: Fx, z: Fx) -> (r: Matrix4x4)
        ensures
            r == smul4(*self, sscaling(x as int, y as int, z as int)),
    {
        self.times_matrix(&scaling(x, y, z))
    }
}

} // verus!
