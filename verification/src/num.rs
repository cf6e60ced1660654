use vstd::prelude::*;

verus! {

/// Exclusive bound on the argument of `isqrt`: `1 << 126`, so that the
/// binary search can start from a high end of `1 << 63` whose square is
/// representable and known to exceed the argument.
pub const SQRT_ARG_MAX: u128 = 0x4000_0000_0000_0000_0000_0000_0000_0000;

/// `r` is the square root of `x`, rounded down.
pub open spec fn is_sqrt_floor(x: nat, r: nat) -> bool {
    r * r <= x && x < (r + 1) * (r + 1)
}

/// The square root of `x`, rounded down.
pub open spec fn sqrt_floor(x: nat) -> nat {
    choose|r: nat| is_sqrt_floor(x, r)
}

/// At most one natural is the rounded-down square root of `x`, so any
/// witness of `is_sqrt_floor` is `sqrt_floor` itself.
pub proof fn lemma_sqrt_floor_unique(x: nat, r: nat)
    requires
        is_sqrt_floor(x, r),
    ensures
        sqrt_floor(x) == r,
{
    assert(exists|s: nat| is_sqrt_floor(x, s)) by {
        assert(is_sqrt_floor(x, r));
    }
    let w = sqrt_floor(x);
    assert(is_sqrt_floor(x, w));
    if w < r {
        assert((w + 1) * (w + 1) <= r * r) by (nonlinear_arith)
            requires
                w + 1 <= r,
        ;
        assert(false);
    }
    if r < w {
        assert((r + 1) * (r + 1) <= w * w) by (nonlinear_arith)
            requires
                r + 1 <= w,
        ;
        assert(false);
    }
}

/// A number whose square is at most `x` is at most any `b` whose square
/// reaches `x`.
pub proof fn lemma_sqrt_le(x: nat, k: nat, b: nat)
    requires
        k * k <= x,
        x <= b * b,
    ensures
        k <= b,
{
    if b < k {
        assert((b + 1) * (b + 1) <= k * k) by (nonlinear_arith)
            requires
                b + 1 <= k,
        ;
        assert(b * b < (b + 1) * (b + 1)) by (nonlinear_arith);
        assert(false);
    }
}

/// Floor square root by binary search on the answer.
pub fn isqrt(x: u128) -> (r: u64)
    requires
        x < SQRT_ARG_MAX,
    ensures
        is_sqrt_floor(x as nat, r as nat),
        r as nat == sqrt_floor(x as nat),
{
    let mut lo: u128 = 0;
    let mut hi: u128 = 0x8000_0000_0000_0000;
    while hi - lo > 1
        invariant
            lo < hi,
            hi <= 0x8000_0000_0000_0000,
            lo * lo <= x,
            x < hi * hi,
            x < SQRT_ARG_MAX,
        decreases hi - lo,
    {
        let mid = lo + (hi - lo) / 2;
        assert(mid * mid < SQRT_ARG_MAX * 4) by (nonlinear_arith)
            requires
                mid < 0x8000_0000_0000_0000u128,
                SQRT_ARG_MAX == 0x4000_0000_0000_0000_0000_0000_0000_0000u128,
        ;
        if mid * mid <= x {
            lo = mid;
        } else {
            hi = mid;
        }
    }
    proof {
        lemma_sqrt_floor_unique(x as nat, lo as nat);
    }
    lo as u64
}

/// Magnitude of a signed coordinate as an unsigned value.
pub fn abs_i64(v: i64) -> (a: u64)
    ensures
        a as int == vstd::math::abs(v as int),
{
    if v < 0 {
        (-(v as i128)) as u64
    } else {
        v as u64
    }
}

} // verus!
