//! Integer helpers: division that rounds toward zero, symmetric clamping and
//! the integer square root.
use vstd::prelude::*;

verus! {

/// Quotient of `a` by a positive `b`, rounded toward zero.
pub open spec fn trunc_div(a: int, b: int) -> int {
    if a >= 0 {
        a / b
    } else {
        -((-a) / b)
    }
}

/// `v` forced into `[-bound, bound]`: the larger of `-bound` and the smaller
/// of `bound` and `v`. For a negative `bound` this is `-bound`.
pub open spec fn clamp_sym(v: int, bound: int) -> int {
    let low = if bound < v { bound } else { v };
    if -bound > low { -bound } else { low }
}

/// `r` is the largest whole number whose square does not exceed `n`.
pub open spec fn is_isqrt(n: int, r: int) -> bool {
    r >= 0 && r * r <= n && n < (r + 1) * (r + 1)
}

/// The integer square root of `n`: the largest `r` with `r * r <= n`.
pub open spec fn isqrt(n: int) -> int {
    choose|r: int| is_isqrt(n, r)
}

/// At most one number is the integer square root of `n`, and `isqrt` names it.
pub proof fn lemma_isqrt_unique(n: int, r: int)
    requires
        is_isqrt(n, r),
    ensures
        isqrt(n) == r,
{
    let s = isqrt(n);
    assert(is_isqrt(n, s));
    assert(s == r) by (nonlinear_arith)
        requires
            s >= 0,
            r >= 0,
            s * s <= n,
            n < (s + 1) * (s + 1),
            r * r <= n,
            n < (r + 1) * (r + 1),
    ;
}

/// Every number from zero on has an integer square root.
pub proof fn lemma_isqrt_exists(n: int)
    requires
        n >= 0,
    ensures
        is_isqrt(n, isqrt(n)),
    decreases n,
{
    if n == 0 {
        assert(is_isqrt(0, 0));
    } else {
        lemma_isqrt_exists(n - 1);
        let r = isqrt(n - 1);
        if (r + 1) * (r + 1) <= n {
            assert(n < (r + 2) * (r + 2)) by (nonlinear_arith)
                requires
                    r >= 0,
                    n - 1 < (r + 1) * (r + 1),
            ;
            assert(is_isqrt(n, r + 1));
        } else {
            assert(is_isqrt(n, r));
        }
    }
}

/// Forces `v` into `[-bound, bound]`.
pub fn clamp_symmetric(v: i64, bound: i64) -> (r: i64)
    requires
        bound > i64::MIN,
    ensures
        r == clamp_sym(v as int, bound as int),
{
    let low: i64 = if bound < v { bound } else { v };
    if -bound > low { -bound } else { low }
}

/// Computes the integer square root by bisection.
pub fn integer_sqrt(n: u128) -> (r: u64)
    ensures
        r == isqrt(n as int),
        is_isqrt(n as int, r as int),
{
    let mut lo: u128 = 0;
    let mut hi: u128 = 0x1_0000_0000_0000_0000;
    assert(hi * hi > n) by (nonlinear_arith)
        requires
            hi == 0x1_0000_0000_0000_0000,
            n <= 0xffff_ffff_ffff_ffff_ffff_ffff_ffff_ffff,
    ;
    while hi - lo > 1
        invariant
            lo < hi <= 0x1_0000_0000_0000_0000,
            lo * lo <= n,
            n < hi * hi,
        decreases hi - lo,
    {
        let mid: u128 = lo + (hi - lo) / 2;
        assert(mid * mid <= 0xffff_ffff_ffff_ffff * 0xffff_ffff_ffff_ffff) by (nonlinear_arith)
            requires
                0 <= mid <= 0xffff_ffff_ffff_ffff,
        ;
        if mid * mid <= n {
            lo = mid;
        } else {
            hi = mid;
        }
    }
    proof {
        assert(hi == lo + 1);
        lemma_isqrt_unique(n as int, lo as int);
    }
    lo as u64
}

} // verus!
