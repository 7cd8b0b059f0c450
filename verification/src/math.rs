//! Integer square roots and the bounds on products that the fixed-point
//! arithmetic of the library rests on.

use vstd::prelude::*;

verus! {

/// `r` is the integer square root of `n`, rounded down.
pub open spec fn is_floor_sqrt(n: int, r: int) -> bool {
    0 <= r && r * r <= n < (r + 1) * (r + 1)
}

/// The integer square root of `n`, rounded down (for `n >= 0`).
pub open spec fn floor_sqrt(n: int) -> int {
    choose|r: int| is_floor_sqrt(n, r)
}

proof fn lemma_floor_sqrt_exists(n: nat)
    ensures
        exists|r: int| is_floor_sqrt(n as int, r),
    decreases n,
{
    if n == 0 {
        assert(is_floor_sqrt(0, 0));
    } else {
        let m: int = n - 1;
        lemma_floor_sqrt_exists(m as nat);
        let r = choose|r: int| is_floor_sqrt(m, r);
        assert((r + 2) * (r + 2) == (r + 1) * (r + 1) + 2 * r + 3) by (nonlinear_arith);
        if (r + 1) * (r + 1) <= n {
            assert(is_floor_sqrt(n as int, r + 1));
        } else {
            assert(is_floor_sqrt(n as int, r));
        }
    }
}

proof fn lemma_floor_sqrt_unique(n: int, r1: int, r2: int)
    by (nonlinear_arith)
    requires
        is_floor_sqrt(n, r1),
        is_floor_sqrt(n, r2),
    ensures
        r1 == r2,
{
    if r1 < r2 {
        assert((r1 + 1) * (r1 + 1) <= r2 * r2);
    } else if r2 < r1 {
        assert((r2 + 1) * (r2 + 1) <= r1 * r1);
    }
}

/// Every `n >= 0` has exactly one integer square root: `floor_sqrt(n)`.
pub proof fn lemma_floor_sqrt(n: int)
    requires
        0 <= n,
    ensures
        is_floor_sqrt(n, floor_sqrt(n)),
        forall|r: int| is_floor_sqrt(n, r) ==> r == floor_sqrt(n),
{
    lemma_floor_sqrt_exists(n as nat);
    assert forall|r: int| is_floor_sqrt(n, r) implies r == floor_sqrt(n) by {
        lemma_floor_sqrt_unique(n, r, floor_sqrt(n));
    }
}

/// The integer square root of `n`, rounded down.
pub fn isqrt(n: u128) -> (r: u64)
    ensures
        r == floor_sqrt(n as int),
        is_floor_sqrt(n as int, r as int),
{
    let mut lo: u128 = 0;
    let mut hi: u128 = 0x1_0000_0000_0000_0000;
    assert(0x1_0000_0000_0000_0000int * 0x1_0000_0000_0000_0000int
        == 0x1_0000_0000_0000_0000_0000_0000_0000_0000int) by (nonlinear_arith);
    while hi - lo > 1
        invariant
            lo < hi <= 0x1_0000_0000_0000_0000,
            lo * lo <= n,
            n < hi * hi,
        decreases hi - lo,
    {
        let mid: u128 = lo + (hi - lo) / 2;
        assert(mid * mid <= 0xffff_ffff_ffff_ffffint * 0xffff_ffff_ffff_ffffint)
            by (nonlinear_arith)
            requires
                0 <= mid <= 0xffff_ffff_ffff_ffff,
        ;
        assert(0xffff_ffff_ffff_ffffint * 0xffff_ffff_ffff_ffffint < 0x1_0000_0000_0000_0000_0000_0000_0000_0000int) by (nonlinear_arith);
        if mid * mid <= n {
            lo = mid;
        } else {
            hi = mid;
        }
    }
    proof {
        assert(hi == lo + 1);
        assert(is_floor_sqrt(n as int, lo as int));
        lemma_floor_sqrt(n as int);
    }
    lo as u64
}

pub(crate) proof fn lemma_product_bound(a: int, b: int, c: int, ma: int, mb: int, mc: int)
    by (nonlinear_arith)
    requires
        0 <= a <= ma,
        0 <= b <= mb,
        0 <= c <= mc,
    ensures
        0 <= a * b * c <= ma * mb * mc,
        0 <= a * b <= ma * mb,
{
}

pub(crate) proof fn lemma_root_bound(r: int, q: int, m: int)
    by (nonlinear_arith)
    requires
        0 <= r,
        0 <= m,
        r * r <= q,
        q <= m * m,
    ensures
        r <= m,
{
}

pub(crate) proof fn lemma_scaled_quotient(u: int, s: int, n: int)
    by (nonlinear_arith)
    requires
        0 <= u,
        0 <= s <= n,
        0 < n,
    ensures
        0 <= u * s / n <= u,
{
    assert(u * s <= u * n);
    assert(u * n / n == u);
}

/// The square of a coordinate.
pub(crate) fn square(v: i32) -> (out: u128)
    ensures
        out == v * v,
        out <= 0x4000_0000_0000_0000,
{
    let m: u128 = if v < 0 {
        (-(v as i64)) as u128
    } else {
        v as u128
    };
    proof {
        lemma_product_bound(m as int, m as int, 1, 0x8000_0000, 0x8000_0000, 1);
        assert(m * m == v * v) by (nonlinear_arith)
            requires
                m == v || m == -v,
        ;
    }
    m * m
}

} // verus!
