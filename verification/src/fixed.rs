//! Fixed-point arithmetic: the integer representation of real-valued
//! quantities, and the truncating scaled multiply the pipeline is built on.

use vstd::prelude::*;
use vstd::arithmetic::div_mod::{
    lemma_div_is_ordered, lemma_div_multiples_vanish, lemma_div_pos_is_pos,
};

verus! {

/// Number of fixed-point units in one real-world unit. Every coordinate,
/// radius, angle and density in this crate is an integer count of
/// `1/SCALE` units.
pub const SCALE: i64 = 10000;

/// Largest magnitude admitted as the scaled factor of `mul_fp`, chosen so
/// that the intermediate product with `SCALE` still fits in an `i64`.
pub const MAX_FACTOR: i64 = 900_000_000_000_000;

/// Largest coordinate magnitude the pipeline admits (well inside
/// `MAX_FACTOR`, so rotated sums of coordinates stay multipliable).
pub const COORD_LIMIT: i64 = 1_000_000_000_000;

/// |a| over the mathematical integers.
pub open spec fn iabs(a: int) -> int {
    if a >= 0 {
        a
    } else {
        -a
    }
}

/// Division truncating toward zero (the behaviour of Rust's `/`),
/// stated over the mathematical integers.
pub open spec fn tdiv(a: int, b: int) -> int {
    if a >= 0 {
        a / b
    } else {
        -((-a) / b)
    }
}

/// Fixed-point product: multiply, then scale back down, truncating
/// toward zero.
pub open spec fn fmul(a: int, b: int) -> int {
    tdiv(a * b, SCALE as int)
}

/// Truncating division by a positive divisor.
pub fn div_trunc(a: i64, b: i64) -> (r: i64)
    requires
        b > 0,
        a > i64::MIN,
    ensures
        r == tdiv(a as int, b as int),
{
    if a >= 0 {
        a / b
    } else {
        proof {
            lemma_div_pos_is_pos(-(a as int), b as int);
        }
        -((-a) / b)
    }
}

/// The cube of `SCALE`: the scale of an inverse depth multiplied by two
/// more scaled factors during projection.
pub const SCALE_CUBED: i64 = 1_000_000_000_000;

/// Truncating division by a positive divisor, on the wide integers the
/// projector works in.
pub fn div_trunc_i128(a: i128, b: i128) -> (r: i128)
    requires
        b > 0,
        a > i128::MIN,
    ensures
        r == tdiv(a as int, b as int),
{
    if a >= 0 {
        a / b
    } else {
        proof {
            lemma_div_pos_is_pos(-(a as int), b as int);
        }
        -((-a) / b)
    }
}

/// A product of values bounded in magnitude is bounded by the product of
/// the bounds.
pub proof fn lemma_mul_bounds(a: int, b: int, ma: int, mb: int)
    requires
        -ma <= a <= ma,
        -mb <= b <= mb,
    ensures
        -(ma * mb) <= a * b <= ma * mb,
{
    assert(-(ma * mb) <= a * b <= ma * mb) by (nonlinear_arith)
        requires
            -ma <= a <= ma,
            -mb <= b <= mb,
    ;
}

/// Truncating division keeps a quotient bound that the dividend obeys.
pub proof fn lemma_tdiv_bound(a: int, b: int, m: int)
    requires
        b > 0,
        0 <= m,
        -(m * b) <= a <= m * b,
    ensures
        -m <= tdiv(a, b) <= m,
{
    assert(m * b == b * m) by (nonlinear_arith);
    lemma_div_multiples_vanish(m, b);
    if a >= 0 {
        lemma_div_is_ordered(a, b * m, b);
        lemma_div_pos_is_pos(a, b);
    } else {
        lemma_div_is_ordered(-a, b * m, b);
        lemma_div_pos_is_pos(-a, b);
    }
}

/// A fixed-point product with a factor of at most one unit cannot grow
/// the other factor's magnitude.
pub proof fn lemma_fmul_bound(a: int, b: int)
    requires
        -SCALE <= b <= SCALE,
    ensures
        -iabs(a) <= fmul(a, b) <= iabs(a),
{
    lemma_mul_bounds(a, b, iabs(a), SCALE as int);
    lemma_tdiv_bound(a * b, SCALE as int, iabs(a));
}

/// Multiplying by the fixed-point one (`SCALE`) is the identity, and by
/// the fixed-point zero yields zero.
pub proof fn lemma_fmul_units(a: int)
    ensures
        fmul(a, SCALE as int) == a,
        fmul(a, 0) == 0,
{
    if a >= 0 {
        assert(a * SCALE == SCALE * a) by (nonlinear_arith);
        lemma_div_multiples_vanish(a, SCALE as int);
    } else {
        assert(-(a * SCALE) == SCALE * (-a)) by (nonlinear_arith);
        lemma_div_multiples_vanish(-a, SCALE as int);
    }
    assert(a * 0 == 0) by (nonlinear_arith);
    assert(tdiv(0, SCALE as int) == 0) by {
        lemma_div_pos_is_pos(0, SCALE as int);
        lemma_div_is_ordered(0, 0, SCALE as int);
    }
}

/// A fixed-point product with zero on the left is zero.
pub proof fn lemma_fmul_zero_left(b: int)
    ensures
        fmul(0, b) == 0,
{
    assert(0 * b == 0) by (nonlinear_arith);
    vstd::arithmetic::div_mod::lemma_div_of0(SCALE as int);
}

/// Fixed-point multiply with a factor bounded by one unit.
pub fn mul_fp(a: i64, b: i64) -> (r: i64)
    requires
        -MAX_FACTOR <= a <= MAX_FACTOR,
        -SCALE <= b <= SCALE,
    ensures
        r == fmul(a as int, b as int),
        -iabs(a as int) <= r <= iabs(a as int),
{
    proof {
        lemma_mul_bounds(a as int, b as int, MAX_FACTOR as int, SCALE as int);
        lemma_fmul_bound(a as int, b as int);
    }
    let p: i64 = a * b;
    div_trunc(p, SCALE)
}

} // verus!
