//! Fixed-point trigonometry: a rational sine approximation on one turn,
//! exact at the points the pipeline's laws depend on (`sin 0 == 0`,
//! `cos 0 == SCALE`).

use vstd::prelude::*;
use vstd::arithmetic::div_mod::{
    lemma_div_is_ordered, lemma_div_multiples_vanish, lemma_div_of0, lemma_div_pos_is_pos,
    lemma_fundamental_div_mod, lemma_fundamental_div_mod_converse_mod,
};
use crate::fixed::SCALE;

verus! {

/// A quarter turn in fixed-point radians.
pub const HALF_PI_FP: i64 = 15708;

/// A half turn in fixed-point radians; exactly `2 * HALF_PI_FP`, which
/// makes the sine approximation exact at the quarter turn.
pub const PI_FP: i64 = 31416;

/// A full turn in fixed-point radians; exactly `2 * PI_FP`.
pub const TWO_PI_FP: i64 = 62832;

/// Rational sine approximation on `[0, PI_FP]` (Bhaskara's formula),
/// yielding 0 at both ends and exactly `SCALE` at `HALF_PI_FP`.
pub open spec fn sin_poly(x: int) -> int {
    let g = x * (PI_FP - x);
    (16 * g * SCALE) / (5 * PI_FP * PI_FP - 4 * g)
}

/// Fixed-point sine of an angle already reduced to one turn.
pub open spec fn sin_fp_spec(x: int) -> int {
    if x <= PI_FP {
        sin_poly(x)
    } else {
        -sin_poly(x - PI_FP)
    }
}

/// An arbitrary angle reduced to `[0, TWO_PI_FP)`.
pub open spec fn reduce_spec(x: int) -> int {
    x % (TWO_PI_FP as int)
}

/// Fixed-point cosine of an angle already reduced to one turn: the sine
/// shifted by a quarter turn.
pub open spec fn cos_fp_spec(x: int) -> int {
    sin_fp_spec((x + HALF_PI_FP) % (TWO_PI_FP as int))
}

/// Sine on the first half turn, where the approximation is nonnegative.
fn sin_half_turn(x: i64) -> (r: i64)
    requires
        0 <= x <= PI_FP,
    ensures
        r == sin_poly(x as int),
        0 <= r <= SCALE,
{
    proof {
        let p: int = PI_FP as int;
        assert(0 <= x * (p - x) && 4 * (x * (p - x)) <= p * p) by (nonlinear_arith)
            requires
                0 <= x <= p,
        ;
    }
    let g: i64 = x * (PI_FP - x);
    let num: i64 = 16 * g * SCALE;
    let den: i64 = 5 * PI_FP * PI_FP - 4 * g;
    proof {
        lemma_div_pos_is_pos(num as int, den as int);
        assert(num <= den * SCALE);
        lemma_div_is_ordered(num as int, den * SCALE, den as int);
        lemma_div_multiples_vanish(SCALE as int, den as int);
    }
    num / den
}

/// Fixed-point sine of an angle in `[0, TWO_PI_FP)`.
pub fn sin_fp(x: i64) -> (r: i64)
    requires
        0 <= x < TWO_PI_FP,
    ensures
        r == sin_fp_spec(x as int),
        -SCALE <= r <= SCALE,
{
    if x <= PI_FP {
        sin_half_turn(x)
    } else {
        -sin_half_turn(x - PI_FP)
    }
}

/// Reduce any angle to `[0, TWO_PI_FP)`, the Euclidean remainder by a
/// full turn.
pub fn reduce_angle(x: i64) -> (r: i64)
    requires
        x > i64::MIN,
    ensures
        r == reduce_spec(x as int),
        0 <= r < TWO_PI_FP,
{
    let t: i64 = TWO_PI_FP;
    if x >= 0 {
        x % t
    } else {
        let m: i64 = (-x) % t;
        proof {
            lemma_fundamental_div_mod(-(x as int), t as int);
            let q = (-(x as int)) / (t as int);
            if m == 0 {
                lemma_fundamental_div_mod_converse_mod(x as int, t as int, -q, 0);
            } else {
                lemma_fundamental_div_mod_converse_mod(
                    x as int,
                    t as int,
                    -q - 1,
                    t - m,
                );
            }
        }
        if m == 0 {
            0
        } else {
            t - m
        }
    }
}

/// Fixed-point cosine of an angle in `[0, TWO_PI_FP)`.
pub fn cos_fp(x: i64) -> (r: i64)
    requires
        0 <= x < TWO_PI_FP,
    ensures
        r == cos_fp_spec(x as int),
        -SCALE <= r <= SCALE,
{
    let y: i64 = x + HALF_PI_FP;
    let yr: i64 = if y >= TWO_PI_FP {
        y - TWO_PI_FP
    } else {
        y
    };
    proof {
        if y >= TWO_PI_FP {
            lemma_fundamental_div_mod_converse_mod(y as int, TWO_PI_FP as int, 1, yr as int);
        } else {
            lemma_fundamental_div_mod_converse_mod(y as int, TWO_PI_FP as int, 0, yr as int);
        }
    }
    sin_fp(yr)
}

/// The fixed-point sine vanishes at angle zero.
pub proof fn lemma_sin_zero()
    ensures
        sin_fp_spec(0) == 0,
{
    lemma_div_of0(5 * PI_FP * PI_FP);
    assert(sin_poly(0) == 0);
}

/// The fixed-point cosine is exactly one unit at angle zero.
pub proof fn lemma_cos_zero()
    ensures
        cos_fp_spec(0) == SCALE,
{
    lemma_fundamental_div_mod_converse_mod(
        HALF_PI_FP as int,
        TWO_PI_FP as int,
        0,
        HALF_PI_FP as int,
    );
    let h: int = HALF_PI_FP as int;
    let g: int = h * (PI_FP - h);
    assert(g == 15708 * 15708);
    assert(16 * g * SCALE == (5 * PI_FP * PI_FP - 4 * g) * SCALE);
    lemma_div_multiples_vanish(SCALE as int, 5 * PI_FP * PI_FP - 4 * g);
    assert(sin_poly(h) == SCALE);
}

} // verus!
