//! Fixed-point scalars, 2-vectors and 2x2 matrices.
//!
//! A scalar is an `i64` holding `value * ONE`. Every operation rounds toward
//! negative infinity and saturates at the bounds of `i64`, so each one is total
//! and is stated exactly by a spec function over `int`.
use vstd::prelude::*;

verus! {

/// Number of fractional steps in one unit.
pub const ONE: i64 = 1048576;

/// One half, in fixed point.
pub const HALF: i64 = 524288;

/// Clamps a mathematical integer into the range of `i64`.
pub open spec fn sat(x: int) -> int {
    if x > i64::MAX {
        i64::MAX as int
    } else if x < i64::MIN {
        i64::MIN as int
    } else {
        x
    }
}

/// `a / d` rounded toward negative infinity, for a positive divisor.
pub open spec fn floor_div(a: int, d: int) -> int
    recommends
        d > 0,
{
    a / d
}

pub open spec fn fx_add(a: int, b: int) -> int {
    sat(a + b)
}

pub open spec fn fx_sub(a: int, b: int) -> int {
    sat(a - b)
}

pub open spec fn fx_neg(a: int) -> int {
    sat(-a)
}

pub open spec fn fx_mul(a: int, b: int) -> int {
    sat(floor_div(a * b, ONE as int))
}

/// Fixed-point quotient; a zero divisor gives zero.
pub open spec fn fx_div(a: int, b: int) -> int {
    if b > 0 {
        sat(floor_div(a * ONE, b))
    } else if b < 0 {
        sat(floor_div(-a * ONE, -b))
    } else {
        0
    }
}

pub open spec fn fx_min(a: int, b: int) -> int {
    if a <= b {
        a
    } else {
        b
    }
}

pub open spec fn fx_max(a: int, b: int) -> int {
    if a >= b {
        a
    } else {
        b
    }
}

/// `a * a * ... * a` (`n` factors), each product rounded as `fx_mul`.
pub open spec fn fx_pow(a: int, n: nat) -> int
    decreases n,
{
    if n == 0 {
        ONE as int
    } else {
        fx_mul(fx_pow(a, (n - 1) as nat), a)
    }
}

/// Floor division of an `i128` by a positive `i128`.
pub fn div_floor(a: i128, d: i128) -> (r: i128)
    requires
        d > 0,
    ensures
        r == floor_div(a as int, d as int),
{
    if a >= 0 {
        let q = a / d;
        q
    } else {
        let m: i128 = -(a + 1);
        let q: i128 = m / d;
        proof {
            let ai = a as int;
            let di = d as int;
            let qi = q as int;
            let mi = m as int;
            vstd::arithmetic::div_mod::lemma_fundamental_div_mod(mi, di);
            assert(0 <= mi % di < di);
            assert(qi == mi / di);
            assert(ai == (-qi - 1) * di + (di - 1 - mi % di)) by (nonlinear_arith)
                requires
                    mi == di * qi + mi % di,
                    mi == -(ai + 1),
            ;
            vstd::arithmetic::div_mod::lemma_fundamental_div_mod_converse(
                ai,
                di,
                -qi - 1,
                di - 1 - mi % di,
            );
        }
        -q - 1
    }
}

/// The product of two values of `i64`'s magnitude fits in `i128`.
pub proof fn lemma_product_fits(a: int, b: int)
    requires
        -0x8000_0000_0000_0000 <= a <= 0x8000_0000_0000_0000,
        -0x8000_0000_0000_0000 <= b <= 0x8000_0000_0000_0000,
    ensures
        -0x4000_0000_0000_0000_0000_0000_0000_0000 <= a * b <= 0x4000_0000_0000_0000_0000_0000_0000_0000,
{
    let m: int = 0x8000_0000_0000_0000;
    assert(-(m * m) <= a * b <= m * m) by (nonlinear_arith)
        requires
            -m <= a <= m,
            -m <= b <= m,
    ;
}

/// Clamps an `i128` into the range of `i64`.
pub fn saturate(x: i128) -> (r: i64)
    ensures
        r == sat(x as int),
{
    if x > i64::MAX as i128 {
        i64::MAX
    } else if x < i64::MIN as i128 {
        i64::MIN
    } else {
        x as i64
    }
}

pub fn fixed_add(a: i64, b: i64) -> (r: i64)
    ensures
        r == fx_add(a as int, b as int),
{
    saturate(a as i128 + b as i128)
}

pub fn fixed_sub(a: i64, b: i64) -> (r: i64)
    ensures
        r == fx_sub(a as int, b as int),
{
    saturate(a as i128 - b as i128)
}

pub fn fixed_neg(a: i64) -> (r: i64)
    ensures
        r == fx_neg(a as int),
{
    saturate(-(a as i128))
}

pub fn fixed_mul(a: i64, b: i64) -> (r: i64)
    ensures
        r == fx_mul(a as int, b as int),
{
    proof {
        lemma_product_fits(a as int, b as int);
    }
    let p: i128 = a as i128 * b as i128;
    saturate(div_floor(p, ONE as i128))
}

pub fn fixed_div(a: i64, b: i64) -> (r: i64)
    ensures
        r == fx_div(a as int, b as int),
{
    proof {
        lemma_product_fits(a as int, ONE as int);
        lemma_product_fits(-(a as int), ONE as int);
    }
    if b > 0 {
        saturate(div_floor(a as i128 * ONE as i128, b as i128))
    } else if b < 0 {
        saturate(div_floor(-(a as i128) * ONE as i128, -(b as i128)))
    } else {
        0
    }
}

pub fn fixed_max(a: i64, b: i64) -> (r: i64)
    ensures
        r == fx_max(a as int, b as int),
{
    if a >= b {
        a
    } else {
        b
    }
}

pub fn fixed_pow(a: i64, n: u32) -> (r: i64)
    ensures
        r == fx_pow(a as int, n as nat),
{
    let mut acc: i64 = ONE;
    let mut i: u32 = 0;
    while i < n
        invariant
            i <= n,
            acc == fx_pow(a as int, i as nat),
        decreases n - i,
    {
        acc = fixed_mul(acc, a);
        i = i + 1;
    }
    acc
}

} // verus!
