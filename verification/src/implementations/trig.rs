use vstd::prelude::*;

use crate::implementations::fx::{
    fadd, fdiv, fmul, fsub, fx_add, fx_div, fx_emod, fx_mul, fx_sub, Fx, SCALE,
};

verus! {

/// Fixed-point circle constants (pi truncated to the scalar resolution).
pub const PI_FX: i64 = 3_141_592_653_590;

pub const TWO_PI_FX: i64 = 6_283_185_307_180;

pub const HALF_PI_FX: i64 = 1_570_796_326_795;

/// pi / 180, for converting degrees to radians.
pub const RAD_PER_DEG_FX: i64 = 17_453_292_520;

/// Reciprocal-factorial coefficients of the sine series, one per odd power.
pub const SIN_C3: i64 = 166_666_666_667;

pub const SIN_C5: i64 = 8_333_333_333;

pub const SIN_C7: i64 = 198_412_698;

pub const SIN_C9: i64 = 2_755_732;

pub const SIN_C11: i64 = 25_052;

pub const SIN_C13: i64 = 161;

/// Reciprocal-factorial coefficients of the cosine series, one per even power.
pub const COS_D2: i64 = 500_000_000_000;

pub const COS_D4: i64 = 41_666_666_667;

pub const COS_D6: i64 = 1_388_888_889;

pub const COS_D8: i64 = 24_801_587;

pub const COS_D10: i64 = 275_573;

pub const COS_D12: i64 = 2_088;

pub const COS_D14: i64 = 11;

/// An angle folded into `(-pi, pi]` by subtracting whole turns.
pub open spec fn fold_turn(x: int) -> int {
    let m = x % (TWO_PI_FX as int);
    if m > PI_FX {
        fsub(m, TWO_PI_FX as int)
    } else {
        m
    }
}

/// Alternating Taylor polynomial for sine on `[-pi/2, pi/2]`, evaluated by
/// Horner's rule over the fixed-point operations.
pub open spec fn sin_poly(z: int) -> int {
    let x2 = fmul(z, z);
    let s1 = fsub(SIN_C11 as int, fmul(x2, SIN_C13 as int));
    let s2 = fsub(SIN_C9 as int, fmul(x2, s1));
    let s3 = fsub(SIN_C7 as int, fmul(x2, s2));
    let s4 = fsub(SIN_C5 as int, fmul(x2, s3));
    let s5 = fsub(SIN_C3 as int, fmul(x2, s4));
    let s6 = fsub(SCALE as int, fmul(x2, s5));
    fmul(z, s6)
}

/// Alternating Taylor polynomial for cosine on `[-pi/2, pi/2]`.
pub open spec fn cos_poly(z: int) -> int {
    let x2 = fmul(z, z);
    let c1 = fsub(COS_D12 as int, fmul(x2, COS_D14 as int));
    let c2 = fsub(COS_D10 as int, fmul(x2, c1));
    let c3 = fsub(COS_D8 as int, fmul(x2, c2));
    let c4 = fsub(COS_D6 as int, fmul(x2, c3));
    let c5 = fsub(COS_D4 as int, fmul(x2, c4));
    let c6 = fsub(COS_D2 as int, fmul(x2, c5));
    fsub(SCALE as int, fmul(x2, c6))
}

/// Sine of an angle in radians: fold into `(-pi, pi]`, reflect into
/// `[-pi/2, pi/2]` (where `sin(pi - y) == sin(y)`), then sum the series.
pub open spec fn fsin(x: int) -> int {
    let y = fold_turn(x);
    if y > HALF_PI_FX {
        sin_poly(fsub(PI_FX as int, y))
    } else if y < -HALF_PI_FX {
        sin_poly(fsub(-PI_FX as int, y))
    } else {
        sin_poly(y)
    }
}

/// Cosine of an angle in radians, via `cos(y) == -cos(pi - |y|)` outside
/// `[-pi/2, pi/2]`.
pub open spec fn fcos(x: int) -> int {
    let y = fold_turn(x);
    if y > HALF_PI_FX {
        fsub(0, cos_poly(fsub(PI_FX as int, y)))
    } else if y < -HALF_PI_FX {
        fsub(0, cos_poly(fadd(PI_FX as int, y)))
    } else {
        cos_poly(y)
    }
}

pub open spec fn ftan(x: int) -> int {
    fdiv(fsin(x), fcos(x))
}

fn exec_fold_turn(x: Fx) -> (r: Fx)
    ensures
        r == fold_turn(x as int),
{
    let m: i64 = fx_emod(x, TWO_PI_FX);
    if m > PI_FX {
        fx_sub(m, TWO_PI_FX)
    } else {
        m
    }
}

fn exec_sin_poly(z: Fx) -> (r: Fx)
    ensures
        r == sin_poly(z as int),
{
    let x2: i64 = fx_mul(z, z);
    let s1: i64 = fx_sub(SIN_C11, fx_mul(x2, SIN_C13));
    let s2: i64 = fx_sub(SIN_C9, fx_mul(x2, s1));
    let s3: i64 = fx_sub(SIN_C7, fx_mul(x2, s2));
    let s4: i64 = fx_sub(SIN_C5, fx_mul(x2, s3));
    let s5: i64 = fx_sub(SIN_C3, fx_mul(x2, s4));
    let s6: i64 = fx_sub(SCALE, fx_mul(x2, s5));
    fx_mul(z, s6)
}

fn exec_cos_poly(z: Fx) -> (r: Fx)
    ensures
        r == cos_poly(z as int),
{
    let x2: i64 = fx_mul(z, z);
    let c1: i64 = fx_sub(COS_D12, fx_mul(x2, COS_D14));
    let c2: i64 = fx_sub(COS_D10, fx_mul(x2, c1));
    let c3: i64 = fx_sub(COS_D8, fx_mul(x2, c2));
    let c4: i64 = fx_sub(COS_D6, fx_mul(x2, c3));
    let c5: i64 = fx_sub(COS_D4, fx_mul(x2, c4));
    let c6: i64 = fx_sub(COS_D2, fx_mul(x2, c5));
    fx_sub(SCALE, fx_mul(x2, c6))
}

pub fn fx_sin(x: Fx) -> (r: Fx)
    ensures
        r == fsin(x as int),
{
    let y: i64 = exec_fold_turn(x);
    if y > HALF_PI_FX {
        exec_sin_poly(fx_sub(PI_FX, y))
    } else if y < -HALF_PI_FX {
        exec_sin_poly(fx_sub(-PI_FX, y))
    } else {
        exec_sin_poly(y)
    }
}

pub fn fx_cos(x: Fx) -> (r: Fx)
    ensures
        r == fcos(x as int),
{
    let y: i64 = exec_fold_turn(x);
    if y > HALF_PI_FX {
        fx_sub(0, exec_cos_poly(fx_sub(PI_FX, y)))
    } else if y < -HALF_PI_FX {
        fx_sub(0, exec_cos_poly(fx_add(PI_FX, y)))
    } else {
        exec_cos_poly(y)
    }
}

pub fn fx_tan(x: Fx) -> (r: Fx)
    ensures
        r == ftan(x as int),
{
    fx_div(fx_sin(x), fx_cos(x))
}

} // verus!
