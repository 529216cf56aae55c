use vstd::prelude::*;

verus! {

/// The scalar type of the tracer: a fixed-point number, stored as a count of
/// units of `1 / SCALE`.  All scalar arithmetic saturates at the `i64` range
/// instead of overflowing, and every operation is specified exactly by the
/// spec functions below, so every quantity the tracer computes is a
/// mathematical function of the scene description.
pub type Fx = i64;

/// Number of fixed-point units per 1.0.
pub const SCALE: i64 = 1_000_000_000_000;

/// Half a unit, used for rounding to the nearest whole number.
pub const HALF_UNIT: i64 = 500_000_000_000;

/// Tolerance for "is nearly zero / nearly equal" tests (10^-5).
pub const EPSILON: i64 = 10_000_000;

/// Saturate an unbounded integer into the `i64` range.
pub open spec fn clip(x: int) -> int {
    if x > i64::MAX {
        i64::MAX as int
    } else if x < i64::MIN {
        i64::MIN as int
    } else {
        x
    }
}

pub open spec fn iabs(x: int) -> int {
    if x < 0 {
        -x
    } else {
        x
    }
}

/// Division truncated toward zero (`/` on `int` is Euclidean, so truncation
/// is spelled out through absolute values).
pub open spec fn tdiv(a: int, b: int) -> int
    recommends
        b != 0,
{
    if (a < 0) != (b < 0) {
        -(iabs(a) / iabs(b))
    } else {
        iabs(a) / iabs(b)
    }
}

pub open spec fn fadd(a: int, b: int) -> int {
    clip(a + b)
}

pub open spec fn fsub(a: int, b: int) -> int {
    clip(a - b)
}

pub open spec fn fneg(a: int) -> int {
    clip(-a)
}

pub open spec fn fabs(a: int) -> int {
    clip(iabs(a))
}

pub open spec fn fmul(a: int, b: int) -> int {
    clip(tdiv(a * b, SCALE as int))
}

/// Division of two fixed-point numbers; a zero divisor yields zero, so the
/// operation is total and the branch is visible in every caller's contract.
pub open spec fn fdiv(a: int, b: int) -> int {
    if b == 0 {
        0
    } else {
        clip(tdiv(a * SCALE, b))
    }
}

/// Whether `r` is the integer square root of `n`.
pub open spec fn is_sqrt_of(n: nat, r: nat) -> bool {
    r * r <= n && n < (r + 1) * (r + 1)
}

/// The integer square root: the unique `r` with `r * r <= n < (r+1) * (r+1)`.
pub open spec fn spec_isqrt(n: nat) -> nat {
    choose|r: nat| is_sqrt_of(n, r)
}

/// Fixed-point square root; negative inputs (which have no real root) yield
/// zero.  `sqrt(v / SCALE) == isqrt(v * SCALE) / SCALE` up to truncation.
pub open spec fn fsqrt(v: int) -> int {
    if v <= 0 {
        0
    } else {
        clip(spec_isqrt((v * SCALE) as nat) as int)
    }
}

/// Fixed-point power with a whole-number exponent.
pub open spec fn fpow(b: int, e: nat) -> int
    decreases e,
{
    if e == 0 {
        SCALE as int
    } else {
        fmul(b, fpow(b, (e - 1) as nat))
    }
}

/// Largest multiple of 1.0 that is at most `a`.
pub open spec fn ffloor(a: int) -> int {
    clip(SCALE * (a / (SCALE as int)))
}

/// Nearest whole number, halves rounding away from zero.
pub open spec fn fround(a: int) -> int {
    if a >= 0 {
        clip(SCALE * ((a + HALF_UNIT) / (SCALE as int)))
    } else {
        clip(-(SCALE * ((-a + HALF_UNIT) / (SCALE as int))))
    }
}

pub open spec fn f_of_int(n: int) -> int {
    clip(n * SCALE)
}

/// Whether two scalars are within EPSILON of one another.
pub open spec fn spec_fequals(a: int, b: int) -> bool {
    iabs(a - b) < EPSILON
}

proof fn lemma_mul_sign(a: int, b: int)
    ensures
        iabs(a) * iabs(b) == iabs(a * b),
        a * b > 0 <==> ((a > 0 && b > 0) || (a < 0 && b < 0)),
        a * b < 0 <==> (((a < 0) != (b < 0)) && a != 0 && b != 0),
        a * b == 0 <==> (a == 0 || b == 0),
{
    assert(iabs(a) * iabs(b) == iabs(a * b) && (a * b > 0 <==> ((a > 0 && b > 0) || (a < 0 && b
        < 0))) && (a * b < 0 <==> (((a < 0) != (b < 0)) && a != 0 && b != 0)) && (a * b == 0 <==> (a
        == 0 || b == 0))) by (nonlinear_arith);
}

proof fn lemma_div_bound(p: int, d: int)
    requires
        p >= 0,
        d > 0,
    ensures
        0 <= p / d <= p,
{
    assert(0 <= p / d <= p) by (nonlinear_arith)
        requires
            p >= 0,
            d > 0,
    ;
}

pub fn fx_add(a: Fx, b: Fx) -> (r: Fx)
    ensures
        r == fadd(a as int, b as int),
{
    let s: i128 = a as i128 + b as i128;
    if s > i64::MAX as i128 {
        i64::MAX
    } else if s < i64::MIN as i128 {
        i64::MIN
    } else {
        s as i64
    }
}

pub fn fx_sub(a: Fx, b: Fx) -> (r: Fx)
    ensures
        r == fsub(a as int, b as int),
{
    let s: i128 = a as i128 - b as i128;
    if s > i64::MAX as i128 {
        i64::MAX
    } else if s < i64::MIN as i128 {
        i64::MIN
    } else {
        s as i64
    }
}

pub fn fx_neg(a: Fx) -> (r: Fx)
    ensures
        r == fneg(a as int),
{
    if a == i64::MIN {
        i64::MAX
    } else {
        -a
    }
}

pub fn fx_abs(a: Fx) -> (r: Fx)
    ensures
        r == fabs(a as int),
{
    if a == i64::MIN {
        i64::MAX
    } else if a < 0 {
        -a
    } else {
        a
    }
}

/// Magnitude of an `i64` as a `u128` (total, unlike `i64::abs`).
fn abs_u128(a: i64) -> (r: u128)
    ensures
        r == iabs(a as int),
{
    if a >= 0 {
        a as u128
    } else {
        (-(a as i128)) as u128
    }
}

/// Saturate a magnitude-and-sign result back into an `i64`.
fn clip_signed(q: u128, neg: bool) -> (r: i64)
    ensures
        neg ==> r == clip(-(q as int)),
        !neg ==> r == clip(q as int),
{
    if neg {
        if q >= 9_223_372_036_854_775_808u128 {
            i64::MIN
        } else {
            -(q as i64)
        }
    } else {
        if q > i64::MAX as u128 {
            i64::MAX
        } else {
            q as i64
        }
    }
}

pub fn fx_mul(a: Fx, b: Fx) -> (r: Fx)
    ensures
        r == fmul(a as int, b as int),
{
    let neg: bool = (a < 0) != (b < 0);
    let aa: u128 = abs_u128(a);
    let bb: u128 = abs_u128(b);
    proof {
        assert(aa * bb <= 0x8000_0000_0000_0000u128 * 0x8000_0000_0000_0000u128)
            by (nonlinear_arith)
            requires
                aa <= 0x8000_0000_0000_0000u128,
                bb <= 0x8000_0000_0000_0000u128,
        ;
    }
    let p: u128 = aa * bb;
    let q: u128 = p / (SCALE as u128);
    proof {
        lemma_mul_sign(a as int, b as int);
        lemma_div_bound(p as int, SCALE as int);
        if a as int * b as int == 0 {
            assert(q == 0);
        }
    }
    clip_signed(q, neg && q > 0)
}

pub fn fx_div(a: Fx, b: Fx) -> (r: Fx)
    ensures
        r == fdiv(a as int, b as int),
{
    if b == 0 {
        return 0;
    }
    let neg: bool = (a < 0) != (b < 0);
    let aa: u128 = abs_u128(a);
    let bb: u128 = abs_u128(b);
    proof {
        assert(aa * (SCALE as u128) <= 0x8000_0000_0000_0000u128 * (SCALE as u128))
            by (nonlinear_arith)
            requires
                aa <= 0x8000_0000_0000_0000u128,
        ;
    }
    let p: u128 = aa * (SCALE as u128);
    let q: u128 = p / bb;
    proof {
        lemma_mul_sign(a as int, SCALE as int);
        lemma_div_bound(p as int, bb as int);
        if a == 0 {
            assert(q == 0);
        }
    }
    clip_signed(q, neg && q > 0)
}

proof fn lemma_isqrt_exists(n: nat, r: nat)
    requires
        r * r <= n,
        n < (r + 1) * (r + 1),
    ensures
        spec_isqrt(n) == r,
{
    assert(is_sqrt_of(n, r));
    assert(exists|x: nat| is_sqrt_of(n, x));
    let c: nat = spec_isqrt(n);
    assert(is_sqrt_of(n, c));
    assert(c == r) by (nonlinear_arith)
        requires
            c * c <= n,
            n < (c + 1) * (c + 1),
            r * r <= n,
            n < (r + 1) * (r + 1),
            c >= 0,
            r >= 0,
    ;
}

pub fn fx_sqrt(v: Fx) -> (r: Fx)
    ensures
        r == fsqrt(v as int),
{
    if v <= 0 {
        return 0;
    }
    proof {
        assert((v as u128) * (SCALE as u128) < 4_503_599_627_370_496u128
            * 4_503_599_627_370_496u128) by (nonlinear_arith)
            requires
                v as u128 <= 0x7fff_ffff_ffff_ffffu128,
        ;
    }
    let n: u128 = (v as u128) * (SCALE as u128);
    let mut lo: u128 = 0;
    let mut hi: u128 = 4_503_599_627_370_496u128;
    while lo + 1 < hi
        invariant
            lo < hi,
            hi <= 4_503_599_627_370_496u128,
            lo * lo <= n,
            n < hi * hi,
        decreases hi - lo,
    {
        let mid: u128 = lo + (hi - lo) / 2;
        proof {
            assert(mid * mid < u128::MAX) by (nonlinear_arith)
                requires
                    mid <= 4_503_599_627_370_496u128,
            ;
        }
        if mid * mid <= n {
            lo = mid;
        } else {
            hi = mid;
        }
    }
    proof {
        lemma_isqrt_exists(n as nat, lo as nat);
    }
    lo as i64
}

pub fn fx_pow(b: Fx, e: u32) -> (r: Fx)
    ensures
        r == fpow(b as int, e as nat),
    decreases e,
{
    if e == 0 {
        SCALE
    } else {
        fx_mul(b, fx_pow(b, e - 1))
    }
}

/// Euclidean remainder of `a` by a positive divisor: the result is in `[0, d)`.
pub fn fx_emod(a: i64, d: i64) -> (r: i64)
    requires
        d > 0,
    ensures
        r == a as int % d as int,
{
    let du: u128 = d as u128;
    if a >= 0 {
        let rem: u128 = (a as u128) % du;
        proof {
            vstd::arithmetic::div_mod::lemma_fundamental_div_mod(a as int, d as int);
        }
        rem as i64
    } else {
        let na: u128 = (-(a as i128)) as u128;
        let q: u128 = na / du;
        let rem: u128 = na % du;
        proof {
            vstd::arithmetic::div_mod::lemma_fundamental_div_mod(na as int, d as int);
            assert(na as int == (d as int) * (q as int) + rem as int);
        }
        if rem == 0 {
            proof {
                assert(a as int == (-(q as int)) * (d as int) + 0) by (nonlinear_arith)
                    requires
                        na as int == (d as int) * (q as int),
                        a as int == -(na as int),
                ;
                vstd::arithmetic::div_mod::lemma_fundamental_div_mod_converse(
                    a as int,
                    d as int,
                    -(q as int),
                    0,
                );
            }
            0
        } else {
            proof {
                assert(a as int == (-(q as int) - 1) * (d as int) + (d as int - rem as int))
                    by (nonlinear_arith)
                    requires
                        na as int == (d as int) * (q as int) + rem as int,
                        a as int == -(na as int),
                ;
                vstd::arithmetic::div_mod::lemma_fundamental_div_mod_converse(
                    a as int,
                    d as int,
                    -(q as int) - 1,
                    d as int - rem as int,
                );
            }
            (du - rem) as i64
        }
    }
}

pub fn fx_floor(a: Fx) -> (r: Fx)
    ensures
        r == ffloor(a as int),
{
    let m: i64 = fx_emod(a, SCALE);
    proof {
        vstd::arithmetic::div_mod::lemma_fundamental_div_mod(a as int, SCALE as int);
    }
    let s: i128 = a as i128 - m as i128;
    if s < i64::MIN as i128 {
        i64::MIN
    } else {
        s as i64
    }
}

pub fn fx_round(a: Fx) -> (r: Fx)
    ensures
        r == fround(a as int),
{
    let neg: bool = a < 0;
    let aa: u128 = abs_u128(a);
    let shifted: u128 = aa + HALF_UNIT as u128;
    let rem: u128 = shifted % (SCALE as u128);
    proof {
        vstd::arithmetic::div_mod::lemma_fundamental_div_mod(shifted as int, SCALE as int);
        lemma_div_bound(shifted as int, SCALE as int);
        assert(0 <= (SCALE as int) * (shifted as int / SCALE as int) <= shifted as int)
            by (nonlinear_arith)
            requires
                shifted as int % SCALE as int >= 0,
                shifted as int / SCALE as int >= 0,
                shifted as int == (SCALE as int) * (shifted as int / SCALE as int) + shifted
                    as int % SCALE as int,
        ;
    }
    let q: u128 = shifted - rem;
    proof {
        assert(q == (SCALE as int) * (shifted as int / SCALE as int));
    }
    clip_signed(q, neg && q > 0)
}

pub fn fx_from_int(n: i64) -> (r: Fx)
    ensures
        r == f_of_int(n as int),
{
    let neg: bool = n < 0;
    let aa: u128 = abs_u128(n);
    proof {
        assert(aa * (SCALE as u128) <= 0x8000_0000_0000_0000u128 * (SCALE as u128))
            by (nonlinear_arith)
            requires
                aa <= 0x8000_0000_0000_0000u128,
        ;
        lemma_mul_sign(n as int, SCALE as int);
    }
    let p: u128 = aa * (SCALE as u128);
    clip_signed(p, neg && p > 0)
}

/// Whether two scalars are within EPSILON of one another; used only for
/// "nearly zero / nearly equal" tests such as tangency and parallelism.
pub fn fequals(a: Fx, b: Fx) -> (r: bool)
    ensures
        r == spec_fequals(a as int, b as int),
{
    let d: i128 = a as i128 - b as i128;
    let ad: i128 = if d < 0 {
        -d
    } else {
        d
    };
    ad < EPSILON as i128
}

} // verus!
