use vstd::prelude::*;
use vstd::arithmetic::div_mod::{
    lemma_div_pos_is_pos, lemma_multiply_divide_le, lemma_multiply_divide_lt,
    lemma_div_is_ordered, lemma_div_plus_one,
};

verus! {

/// A quarter turn, in angle units: angles live in `[0, 4 * TURN_QUARTER)`.
pub const TURN_QUARTER: u64 = 65536;

/// A full turn, in angle units.
pub const TURN_FULL: u64 = 262144;

/// The fixed-point value standing for 1.0 in trigonometric results:
/// cosine and sine range over `[-TRIG_ONE, TRIG_ONE]`.
pub const TRIG_ONE: u64 = 65536;

/// Fixed-point cosine on the first quarter turn, `u` in `[0, TURN_QUARTER]`.
/// A rational approximation of the cosine of `u / TURN_QUARTER` quarter
/// turns, scaled by `TRIG_ONE`; it is exact at both ends of the quarter.
pub open spec fn coq_spec(u: int) -> int {
    let x = TURN_QUARTER - u;
    let g = x * (2 * TURN_QUARTER - x);
    (4 * g * TRIG_ONE) / (5 * (TURN_QUARTER as int) * (TURN_QUARTER as int) - g)
}

/// The quarter-turn cosine stays within `[0, TRIG_ONE]`.
pub proof fn lemma_coq_bounds(u: int)
    requires
        0 <= u <= TURN_QUARTER,
    ensures
        0 <= coq_spec(u) <= TRIG_ONE,
{
    let q = TURN_QUARTER as int;
    let x = q - u;
    let g = x * (2 * q - x);
    assert(0 <= g && g <= q * q) by (nonlinear_arith)
        requires
            0 <= x <= q,
            g == x * (2 * q - x),
    ;
    lemma_div_pos_is_pos(4 * g * TRIG_ONE, 5 * q * q - g);
    lemma_multiply_divide_le(4 * g * TRIG_ONE, 5 * q * q - g, TRIG_ONE as int);
}

/// Fixed-point cosine of an angle `u` in `[0, TURN_QUARTER]`.
pub fn coq(u: u64) -> (c: u64)
    requires
        u <= TURN_QUARTER,
    ensures
        c as int == coq_spec(u as int),
        c <= TRIG_ONE,
{
    proof {
        lemma_coq_bounds(u as int);
    }
    let x = TURN_QUARTER - u;
    assert((x as int) * (2 * TURN_QUARTER - x as int) <= (TURN_QUARTER as int) * (TURN_QUARTER
        as int)) by (nonlinear_arith)
        requires
            0 <= x as int <= TURN_QUARTER as int,
    ;
    let g = x * (2 * TURN_QUARTER - x);
    let num = 4 * g * TRIG_ONE;
    let den = 5 * TURN_QUARTER * TURN_QUARTER - g;
    num / den
}

/// Fixed-point cosine over a full turn, assembled from the quarter-turn
/// cosine by the quadrant symmetries of the cosine.
pub open spec fn cos_fp_spec(a: int) -> int {
    let q = a / (TURN_QUARTER as int);
    let u = a % (TURN_QUARTER as int);
    if q == 0 {
        coq_spec(u)
    } else if q == 1 {
        -coq_spec(TURN_QUARTER - u)
    } else if q == 2 {
        -coq_spec(u)
    } else {
        coq_spec(TURN_QUARTER - u)
    }
}

/// Fixed-point sine over a full turn, assembled from the quarter-turn
/// cosine by the quadrant symmetries of the sine.
pub open spec fn sin_fp_spec(a: int) -> int {
    let q = a / (TURN_QUARTER as int);
    let u = a % (TURN_QUARTER as int);
    if q == 0 {
        coq_spec(TURN_QUARTER - u)
    } else if q == 1 {
        coq_spec(u)
    } else if q == 2 {
        -coq_spec(TURN_QUARTER - u)
    } else {
        -coq_spec(u)
    }
}

/// Cosine and sine stay within `[-TRIG_ONE, TRIG_ONE]` over the full turn.
pub proof fn lemma_cos_sin_bounds(a: int)
    requires
        0 <= a < TURN_FULL,
    ensures
        -TRIG_ONE <= cos_fp_spec(a) <= TRIG_ONE,
        -TRIG_ONE <= sin_fp_spec(a) <= TRIG_ONE,
{
    let q = a / (TURN_QUARTER as int);
    let u = a % (TURN_QUARTER as int);
    lemma_coq_bounds(u);
    lemma_coq_bounds(TURN_QUARTER - u);
}

/// Fixed-point cosine of an angle `a` in `[0, TURN_FULL)`.
pub fn cos_fp(a: u64) -> (c: i64)
    requires
        a < TURN_FULL,
    ensures
        c as int == cos_fp_spec(a as int),
        -(TRIG_ONE as i64) <= c <= TRIG_ONE as i64,
{
    let q = a / TURN_QUARTER;
    let u = a % TURN_QUARTER;
    proof {
        lemma_coq_bounds(u as int);
        lemma_coq_bounds(TURN_QUARTER - u as int);
    }
    if q == 0 {
        coq(u) as i64
    } else if q == 1 {
        -(coq(TURN_QUARTER - u) as i64)
    } else if q == 2 {
        -(coq(u) as i64)
    } else {
        coq(TURN_QUARTER - u) as i64
    }
}

/// Fixed-point sine of an angle `a` in `[0, TURN_FULL)`.
pub fn sin_fp(a: u64) -> (s: i64)
    requires
        a < TURN_FULL,
    ensures
        s as int == sin_fp_spec(a as int),
        -(TRIG_ONE as i64) <= s <= TRIG_ONE as i64,
{
    let q = a / TURN_QUARTER;
    let u = a % TURN_QUARTER;
    proof {
        lemma_coq_bounds(u as int);
        lemma_coq_bounds(TURN_QUARTER - u as int);
    }
    if q == 0 {
        coq(TURN_QUARTER - u) as i64
    } else if q == 1 {
        coq(u) as i64
    } else if q == 2 {
        -(coq(TURN_QUARTER - u) as i64)
    } else {
        -(coq(u) as i64)
    }
}

/// The angle of boundary point `i` out of `n`: the fraction `i / n` of a
/// full turn, rounded down to angle units.
pub open spec fn angle_spec(i: int, n: int) -> int {
    (i * TURN_FULL) / n
}

/// Point angles strictly increase with the point index, as long as the
/// edge count does not exceed the angle resolution of a full turn.
pub proof fn lemma_angle_strictly_increasing(i: int, j: int, n: int)
    requires
        0 <= i < j < n,
        n <= TURN_FULL,
    ensures
        angle_spec(i, n) < angle_spec(j, n),
{
    let f = TURN_FULL as int;
    assert(i * f + f <= j * f) by (nonlinear_arith)
        requires
            i + 1 <= j,
            f > 0,
    ;
    lemma_div_is_ordered(i * f + n, j * f, n);
    lemma_div_plus_one(i * f, n);
}

/// The angle of point `i` out of `n`, in angle units.
pub fn angle_fp(i: u64, n: u64) -> (a: u64)
    requires
        i < n,
        n <= 0xFFFF_FFFF,
    ensures
        a as int == angle_spec(i as int, n as int),
        a < TURN_FULL,
{
    assert((i as int) * (TURN_FULL as int) < (n as int) * (TURN_FULL as int)) by (nonlinear_arith)
        requires
            (i as int) < (n as int),
            TURN_FULL as int > 0,
    ;
    assert((i as int) * (TURN_FULL as int) <= 0xFFFF_FFFFint * (TURN_FULL as int))
        by (nonlinear_arith)
        requires
            (i as int) <= 0xFFFF_FFFFint,
            TURN_FULL as int > 0,
    ;
    let prod = i * TURN_FULL;
    let a = prod / n;
    proof {
        assert((n as int) * (TURN_FULL as int) == (TURN_FULL as int) * (n as int))
            by (nonlinear_arith);
        lemma_multiply_divide_lt(prod as int, n as int, TURN_FULL as int);
    }
    a
}

/// Scale a nonnegative radius by a fixed-point trigonometric factor `t`
/// in `[-TRIG_ONE, TRIG_ONE]`, rounding the magnitude down.
pub open spec fn scaled_spec(r: int, t: int) -> int {
    if t >= 0 {
        (r * t) / (TRIG_ONE as int)
    } else {
        -((r * -t) / (TRIG_ONE as int))
    }
}

/// A radius scaled by a trigonometric factor stays within `[-r, r]`.
pub proof fn lemma_scaled_bound(r: int, t: int)
    requires
        0 <= r,
        -TRIG_ONE <= t <= TRIG_ONE,
    ensures
        -r <= scaled_spec(r, t) <= r,
{
    let s = TRIG_ONE as int;
    if t >= 0 {
        assert(r * t >= 0) by (nonlinear_arith)
            requires
                r >= 0,
                t >= 0,
        ;
        assert(r * t <= s * r) by (nonlinear_arith)
            requires
                0 <= r,
                t <= s,
        ;
        lemma_div_pos_is_pos(r * t, s);
        lemma_multiply_divide_le(r * t, s, r);
    } else {
        assert(r * -t >= 0) by (nonlinear_arith)
            requires
                r >= 0,
                t < 0,
        ;
        assert(r * -t <= s * r) by (nonlinear_arith)
            requires
                0 <= r,
                -t <= s,
        ;
        lemma_div_pos_is_pos(r * -t, s);
        lemma_multiply_divide_le(r * -t, s, r);
    }
}

/// Scale a radius by a fixed-point trigonometric factor.
pub fn scaled(r: i64, t: i64) -> (o: i64)
    requires
        0 <= r <= crate::limits::RADIUS_MAX,
        -(TRIG_ONE as i64) <= t <= TRIG_ONE as i64,
    ensures
        o as int == scaled_spec(r as int, t as int),
        -r <= o <= r,
{
    proof {
        lemma_scaled_bound(r as int, t as int);
    }
    assert((r as int) * (TRIG_ONE as int) <= 0x8000_0000_0000_0000int) by (nonlinear_arith)
        requires
            0 <= r as int <= crate::limits::RADIUS_MAX as int,
            TRIG_ONE as int == 65536,
            crate::limits::RADIUS_MAX as int == 100_000_000,
    ;
    if t >= 0 {
        assert((r as int) * (t as int) <= (r as int) * (TRIG_ONE as int)) by (nonlinear_arith)
            requires
                0 <= r as int,
                0 <= t as int <= TRIG_ONE as int,
        ;
        ((r as u64) * (t as u64) / TRIG_ONE) as i64
    } else {
        let tm = (-t) as u64;
        assert((r as int) * (tm as int) <= (r as int) * (TRIG_ONE as int)) by (nonlinear_arith)
            requires
                0 <= r as int,
                0 <= tm as int <= TRIG_ONE as int,
        ;
        -(((r as u64) * tm / TRIG_ONE) as i64)
    }
}

} // verus!
