//! The rotation transform: three accumulated Euler angles and the three
//! closed-form coordinate maps of the composite rotation matrix.

use vstd::prelude::*;
use crate::fixed::{
    fmul, iabs, lemma_fmul_units, lemma_fmul_zero_left, mul_fp, COORD_LIMIT, SCALE,
};
use crate::trig::{
    cos_fp, cos_fp_spec, lemma_cos_zero, lemma_sin_zero, reduce_angle, reduce_spec, sin_fp,
    sin_fp_spec, TWO_PI_FP,
};

verus! {

/// The three accumulating rotation angles, each kept reduced to one
/// turn. Only the frame driver mutates a value of this type.
pub struct Scalars {
    pub a: i64,
    pub b: i64,
    pub c: i64,
}

impl Scalars {
    /// All three angles lie in `[0, TWO_PI_FP)`.
    pub open spec fn wf(&self) -> bool {
        &&& 0 <= self.a < TWO_PI_FP
        &&& 0 <= self.b < TWO_PI_FP
        &&& 0 <= self.c < TWO_PI_FP
    }

    /// The initial state: all angles zero.
    pub fn new() -> (s: Scalars)
        ensures
            s.wf(),
            s.a == 0 && s.b == 0 && s.c == 0,
    {
        Scalars { a: 0, b: 0, c: 0 }
    }

    /// Advance the three angles by one frame's fixed deltas, reducing
    /// each back to one turn.
    pub fn advance(&mut self, da: i64, db: i64, dc: i64)
        requires
            old(self).wf(),
            -1_000_000_000 <= da <= 1_000_000_000,
            -1_000_000_000 <= db <= 1_000_000_000,
            -1_000_000_000 <= dc <= 1_000_000_000,
        ensures
            final(self).wf(),
            final(self).a == reduce_spec(old(self).a + da),
            final(self).b == reduce_spec(old(self).b + db),
            final(self).c == reduce_spec(old(self).c + dc),
    {
        self.a = reduce_angle(self.a + da);
        self.b = reduce_angle(self.b + db);
        self.c = reduce_angle(self.c + dc);
    }
}

/// Two successive scaled multiplies.
pub open spec fn fmul2(v: int, s1: int, s2: int) -> int {
    fmul(fmul(v, s1), s2)
}

/// Three successive scaled multiplies.
pub open spec fn fmul3(v: int, s1: int, s2: int, s3: int) -> int {
    fmul(fmul2(v, s1, s2), s3)
}

/// Rotated x coordinate over the six sines and cosines.
pub open spec fn rot_x(
    i: int,
    j: int,
    k: int,
    sa: int,
    ca: int,
    sb: int,
    cb: int,
    sc: int,
    cc: int,
) -> int {
    fmul3(j, sa, sb, cc) - fmul3(k, ca, sb, cc) + fmul2(j, ca, sc) + fmul2(k, sa, sc) + fmul2(
        i,
        cb,
        cc,
    )
}

/// Rotated y coordinate over the six sines and cosines.
pub open spec fn rot_y(
    i: int,
    j: int,
    k: int,
    sa: int,
    ca: int,
    sb: int,
    cb: int,
    sc: int,
    cc: int,
) -> int {
    fmul2(j, ca, cc) + fmul2(k, sa, cc) - fmul3(j, sa, sb, sc) + fmul3(k, ca, sb, sc) - fmul2(
        i,
        cb,
        sc,
    )
}

/// Rotated z coordinate over the four sines and cosines it involves.
pub open spec fn rot_z(i: int, j: int, k: int, sa: int, ca: int, sb: int, cb: int) -> int {
    fmul2(k, ca, cb) - fmul2(j, sa, cb) + fmul(i, sb)
}

/// Rotated x as a function of the raw angles.
pub open spec fn calc_x_spec(i: int, j: int, k: int, a: int, b: int, c: int) -> int {
    rot_x(
        i,
        j,
        k,
        sin_fp_spec(a),
        cos_fp_spec(a),
        sin_fp_spec(b),
        cos_fp_spec(b),
        sin_fp_spec(c),
        cos_fp_spec(c),
    )
}

/// Rotated y as a function of the raw angles.
pub open spec fn calc_y_spec(i: int, j: int, k: int, a: int, b: int, c: int) -> int {
    rot_y(
        i,
        j,
        k,
        sin_fp_spec(a),
        cos_fp_spec(a),
        sin_fp_spec(b),
        cos_fp_spec(b),
        sin_fp_spec(c),
        cos_fp_spec(c),
    )
}

/// Rotated z as a function of the raw angles.
pub open spec fn calc_z_spec(i: int, j: int, k: int, a: int, b: int, c: int) -> int {
    rot_z(i, j, k, sin_fp_spec(a), cos_fp_spec(a), sin_fp_spec(b), cos_fp_spec(b))
}

/// Two scaled multiplies, each factor at most one unit.
fn mul2(v: i64, s1: i64, s2: i64) -> (r: i64)
    requires
        -COORD_LIMIT <= v <= COORD_LIMIT,
        -SCALE <= s1 <= SCALE,
        -SCALE <= s2 <= SCALE,
    ensures
        r == fmul2(v as int, s1 as int, s2 as int),
        -iabs(v as int) <= r <= iabs(v as int),
{
    mul_fp(mul_fp(v, s1), s2)
}

/// Three scaled multiplies, each factor at most one unit.
fn mul3(v: i64, s1: i64, s2: i64, s3: i64) -> (r: i64)
    requires
        -COORD_LIMIT <= v <= COORD_LIMIT,
        -SCALE <= s1 <= SCALE,
        -SCALE <= s2 <= SCALE,
        -SCALE <= s3 <= SCALE,
    ensures
        r == fmul3(v as int, s1 as int, s2 as int, s3 as int),
        -iabs(v as int) <= r <= iabs(v as int),
{
    mul_fp(mul2(v, s1, s2), s3)
}

/// Rotated x of the point `(i, j, k)` under the current angles.
pub fn calculate_x(i: i64, j: i64, k: i64, scalars: &Scalars) -> (r: i64)
    requires
        scalars.wf(),
        -COORD_LIMIT <= i <= COORD_LIMIT,
        -COORD_LIMIT <= j <= COORD_LIMIT,
        -COORD_LIMIT <= k <= COORD_LIMIT,
    ensures
        r == calc_x_spec(
            i as int,
            j as int,
            k as int,
            scalars.a as int,
            scalars.b as int,
            scalars.c as int,
        ),
        -5 * COORD_LIMIT <= r <= 5 * COORD_LIMIT,
{
    let sa: i64 = sin_fp(scalars.a);
    let ca: i64 = cos_fp(scalars.a);
    let sb: i64 = sin_fp(scalars.b);
    let cb: i64 = cos_fp(scalars.b);
    let sc: i64 = sin_fp(scalars.c);
    let cc: i64 = cos_fp(scalars.c);
    mul3(j, sa, sb, cc) - mul3(k, ca, sb, cc) + mul2(j, ca, sc) + mul2(k, sa, sc) + mul2(i, cb, cc)
}

/// Rotated y of the point `(i, j, k)` under the current angles.
pub fn calculate_y(i: i64, j: i64, k: i64, scalars: &Scalars) -> (r: i64)
    requires
        scalars.wf(),
        -COORD_LIMIT <= i <= COORD_LIMIT,
        -COORD_LIMIT <= j <= COORD_LIMIT,
        -COORD_LIMIT <= k <= COORD_LIMIT,
    ensures
        r == calc_y_spec(
            i as int,
            j as int,
            k as int,
            scalars.a as int,
            scalars.b as int,
            scalars.c as int,
        ),
        -5 * COORD_LIMIT <= r <= 5 * COORD_LIMIT,
{
    let sa: i64 = sin_fp(scalars.a);
    let ca: i64 = cos_fp(scalars.a);
    let sb: i64 = sin_fp(scalars.b);
    let cb: i64 = cos_fp(scalars.b);
    let sc: i64 = sin_fp(scalars.c);
    let cc: i64 = cos_fp(scalars.c);
    mul2(j, ca, cc) + mul2(k, sa, cc) - mul3(j, sa, sb, sc) + mul3(k, ca, sb, sc) - mul2(i, cb, sc)
}

/// Rotated z of the point `(i, j, k)` under the current angles.
pub fn calculate_z(i: i64, j: i64, k: i64, scalars: &Scalars) -> (r: i64)
    requires
        scalars.wf(),
        -COORD_LIMIT <= i <= COORD_LIMIT,
        -COORD_LIMIT <= j <= COORD_LIMIT,
        -COORD_LIMIT <= k <= COORD_LIMIT,
    ensures
        r == calc_z_spec(
            i as int,
            j as int,
            k as int,
            scalars.a as int,
            scalars.b as int,
            scalars.c as int,
        ),
        -5 * COORD_LIMIT <= r <= 5 * COORD_LIMIT,
{
    let sa: i64 = sin_fp(scalars.a);
    let ca: i64 = cos_fp(scalars.a);
    let sb: i64 = sin_fp(scalars.b);
    let cb: i64 = cos_fp(scalars.b);
    mul2(k, ca, cb) - mul2(j, sa, cb) + mul_fp(i, sb)
}

/// Law: rotating by the angles (0, 0, 0) returns every coordinate
/// unchanged.
pub proof fn lemma_rotation_identity_at_zero(i: int, j: int, k: int)
    ensures
        calc_x_spec(i, j, k, 0, 0, 0) == i,
        calc_y_spec(i, j, k, 0, 0, 0) == j,
        calc_z_spec(i, j, k, 0, 0, 0) == k,
{
    lemma_sin_zero();
    lemma_cos_zero();
    lemma_fmul_units(i);
    lemma_fmul_units(j);
    lemma_fmul_units(k);
    lemma_fmul_zero_left(0);
    lemma_fmul_zero_left(SCALE as int);
}

} // verus!
