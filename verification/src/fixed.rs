//! Integer square root for 16.16 fixed-point values.
//!
//! A fixed-point value `v` stands for the real number `v / 65536`. The square
//! root of `l / 65536` is `isqrt(l * 65536) / 65536`, so one integer square
//! root over `[0, 2^32]` serves the whole pipeline.

use vstd::prelude::*;

verus! {

/// The integer square root of `n`: the largest `r` with `r * r <= n`.
pub open spec fn isqrt_spec(n: nat) -> nat
    decreases n,
{
    if n == 0 {
        0
    } else {
        let r = isqrt_spec((n - 1) as nat);
        if (r + 1) * (r + 1) <= n {
            r + 1
        } else {
            r
        }
    }
}

/// `isqrt_spec(n)` is the unique `r` with `r * r <= n < (r + 1) * (r + 1)`.
pub proof fn lemma_isqrt_bounds(n: nat)
    ensures
        isqrt_spec(n) * isqrt_spec(n) <= n,
        n < (isqrt_spec(n) + 1) * (isqrt_spec(n) + 1),
    decreases n,
{
    if n == 0 {
        assert(n < (isqrt_spec(n) + 1) * (isqrt_spec(n) + 1)) by (nonlinear_arith)
            requires
                n == 0,
                isqrt_spec(n) == 0;
    } else {
        lemma_isqrt_bounds((n - 1) as nat);
        let r = isqrt_spec((n - 1) as nat);
        if (r + 1) * (r + 1) <= n {
            assert(isqrt_spec(n) == r + 1);
            assert((r + 2) * (r + 2) > (r + 1) * (r + 1)) by (nonlinear_arith)
                requires r >= 0;
        } else {
            assert(isqrt_spec(n) == r);
        }
    }
}

/// Any `r` within the square-root bounds for `n` is `isqrt_spec(n)`.
pub proof fn lemma_isqrt_unique(n: nat, r: nat)
    requires
        r * r <= n,
        n < (r + 1) * (r + 1),
    ensures
        r == isqrt_spec(n),
{
    lemma_isqrt_bounds(n);
    let s = isqrt_spec(n);
    assert(r == s) by (nonlinear_arith)
        requires
            r * r <= n,
            n < (r + 1) * (r + 1),
            s * s <= n,
            n < (s + 1) * (s + 1),
            r >= 0,
            s >= 0;
}

/// The integer square root of `n`, by binary search, for `n` up to `2^32`.
pub fn isqrt(n: u64) -> (r: u64)
    requires
        n <= 0x1_0000_0000,
    ensures
        r == isqrt_spec(n as nat),
        r <= 65536,
{
    let mut lo: u64 = 0;
    let mut hi: u64 = 65536;
    proof {
        assert(n < (hi + 1) * (hi + 1)) by (nonlinear_arith)
            requires
                hi == 65536,
                n <= 0x1_0000_0000;
    }
    while lo < hi
        invariant
            lo <= hi <= 65536,
            lo * lo <= n,
            n < (hi + 1) * (hi + 1),
        decreases hi - lo,
    {
        let mid: u64 = lo + (hi - lo + 1) / 2;
        proof {
            assert(mid * mid <= 65536 * 65536) by (nonlinear_arith)
                requires 0 <= mid <= 65536;
        }
        if mid * mid <= n {
            lo = mid;
        } else {
            hi = mid - 1;
        }
    }
    proof {
        lemma_isqrt_unique(n as nat, lo as nat);
    }
    lo
}

} // verus!
