//! Integer square roots.
//!
//! `sqrt_floor` / `sqrt_ceil` underpin vector normalization and the
//! fixed-point cosine: the ceiling root makes a normalized vector provably
//! no longer than a unit, the floor root keeps `sin^2 + cos^2` within the
//! unit circle.

use vstd::prelude::*;

verus! {

/// Largest dividend the square-root routines accept: three squared
/// magnitudes of in-range scalars.
pub const NORM2_LIMIT: i64 = 3_000_000_000_000_000_000;

/// Cap on every root handled here; its square exceeds `NORM2_LIMIT`.
pub const ROOT_LIMIT: i64 = 2_000_000_000;

/// Largest `r <= k` with `r * r <= n` (0 when there is none).
pub open spec fn sqrt_floor_upto(n: int, k: int) -> int
    decreases k,
{
    if k <= 0 {
        0
    } else if k * k <= n {
        k
    } else {
        sqrt_floor_upto(n, k - 1)
    }
}

/// Largest `r` with `r * r <= n`, for `n` up to `ROOT_LIMIT` squared.
pub open spec fn sqrt_floor(n: int) -> int {
    sqrt_floor_upto(n, ROOT_LIMIT as int)
}

/// Smallest `r` with `n <= r * r`.
pub open spec fn sqrt_ceil(n: int) -> int {
    let r = sqrt_floor(n);
    if r * r == n {
        r
    } else {
        r + 1
    }
}

proof fn lemma_sqrt_floor_upto_char(n: int, k: int)
    requires
        0 <= n,
        0 <= k,
        n < (k + 1) * (k + 1),
    ensures
        ({
            let r = sqrt_floor_upto(n, k);
            0 <= r <= k && r * r <= n && n < (r + 1) * (r + 1)
        }),
    decreases k,
{
    if k <= 0 {
    } else if k * k <= n {
    } else {
        assert(n < ((k - 1) + 1) * ((k - 1) + 1));
        lemma_sqrt_floor_upto_char(n, k - 1);
    }
}

/// `sqrt_floor(n)` really is the floor square root of `n`.
pub proof fn lemma_sqrt_floor_char(n: int)
    requires
        0 <= n <= NORM2_LIMIT,
    ensures
        ({
            let r = sqrt_floor(n);
            0 <= r <= ROOT_LIMIT && r * r <= n && n < (r + 1) * (r + 1)
        }),
{
    assert((ROOT_LIMIT + 1) * (ROOT_LIMIT + 1) == 2_000_000_001 * 2_000_000_001) by (nonlinear_arith)
        requires
            ROOT_LIMIT == 2_000_000_000,
    ;
    assert(n < (ROOT_LIMIT + 1) * (ROOT_LIMIT + 1));
    lemma_sqrt_floor_upto_char(n, ROOT_LIMIT as int);
}

/// Any value with the floor-root property equals `sqrt_floor(n)`.
pub proof fn lemma_sqrt_floor_unique(n: int, r: int)
    requires
        0 <= n <= NORM2_LIMIT,
        0 <= r,
        r * r <= n,
        n < (r + 1) * (r + 1),
    ensures
        r == sqrt_floor(n),
{
    lemma_sqrt_floor_char(n);
    let q = sqrt_floor(n);
    assert(r == q) by (nonlinear_arith)
        requires
            0 <= r,
            r * r <= n,
            n < (r + 1) * (r + 1),
            0 <= q,
            q * q <= n,
            n < (q + 1) * (q + 1),
    ;
}

/// The ceiling root dominates `n` and is least among such roots.
pub proof fn lemma_sqrt_ceil_char(n: int)
    requires
        0 <= n <= NORM2_LIMIT,
    ensures
        ({
            let r = sqrt_ceil(n);
            0 <= r <= ROOT_LIMIT + 1 && n <= r * r && (r > 0 ==> (r - 1) * (r - 1) < n) && (n == 0
                ==> r == 0)
        }),
{
    lemma_sqrt_floor_char(n);
    let f = sqrt_floor(n);
    if f * f == n {
        if f > 0 {
            assert((f - 1) * (f - 1) < f * f) by (nonlinear_arith)
                requires
                    f > 0,
            ;
        }
    } else {
        assert(((f + 1) - 1) * ((f + 1) - 1) < n);
    }
}

/// Floor square root by binary search.
pub fn isqrt_floor(n: i64) -> (r: i64)
    requires
        0 <= n <= NORM2_LIMIT,
    ensures
        r as int == sqrt_floor(n as int),
        0 <= r <= ROOT_LIMIT,
        (r as int) * (r as int) <= n as int,
        (n as int) < (r as int + 1) * (r as int + 1),
{
    proof {
        assert((n as int) < (ROOT_LIMIT as int) * (ROOT_LIMIT as int));
    }
    let mut lo: i64 = 0;
    let mut hi: i64 = ROOT_LIMIT;
    while hi - lo > 1
        invariant
            0 <= lo < hi <= ROOT_LIMIT,
            (lo as int) * (lo as int) <= n as int,
            (n as int) < (hi as int) * (hi as int),
            0 <= n <= NORM2_LIMIT,
        decreases hi - lo,
    {
        let gap: i64 = hi - lo;
        let half: i64 = ((gap as u64) / 2u64) as i64;
        let mid: i64 = lo + half;
        proof {
            assert(lo < mid < hi);
            assert((mid as int) * (mid as int) < 4_000_000_000_000_000_000) by (nonlinear_arith)
                requires
                    0 <= (mid as int) && (mid as int) < 2_000_000_000,
            ;
        }
        let sq: i64 = mid * mid;
        if sq <= n {
            lo = mid;
        } else {
            hi = mid;
        }
    }
    proof {
        lemma_sqrt_floor_unique(n as int, lo as int);
    }
    lo
}

/// Ceiling square root.
pub fn isqrt_ceil(n: i64) -> (r: i64)
    requires
        0 <= n <= NORM2_LIMIT,
    ensures
        r as int == sqrt_ceil(n as int),
        0 <= r <= ROOT_LIMIT + 1,
        n as int <= (r as int) * (r as int),
        r > 0 ==> (r as int - 1) * (r as int - 1) < n as int,
        n == 0 ==> r == 0,
{
    let f = isqrt_floor(n);
    proof {
        lemma_sqrt_ceil_char(n as int);
        assert((f as int) * (f as int) <= 4_000_000_000_000_000_000) by (nonlinear_arith)
            requires
                0 <= f as int <= 2_000_000_000,
        ;
    }
    let sq: i64 = f * f;
    if sq == n {
        f
    } else {
        f + 1
    }
}

} // verus!
