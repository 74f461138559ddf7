//! Fixed-point arithmetic helpers: the global scale, truncating division
//! as Rust computes it, and an exact integer square root.

use vstd::prelude::*;

verus! {

/// One world unit, expressed in micro-units.
pub const SCALE: i64 = 1_000_000;

/// Truncating (round-toward-zero) division for a positive divisor, the
/// semantics of Rust's `/` on machine integers.  Ghost `/` is Euclidean,
/// so the negative case is spelled out through the magnitude.
pub open spec fn fdiv(a: int, b: int) -> int {
    if a >= 0 {
        a / b
    } else {
        -((-a) / b)
    }
}

/// Floor of the square root, defined by counting up.
pub open spec fn sqrt_floor(n: nat) -> nat
    decreases n,
{
    if n == 0 {
        0
    } else {
        let r = sqrt_floor((n - 1) as nat);
        if (r + 1) * (r + 1) <= n {
            r + 1
        } else {
            r
        }
    }
}

/// `sqrt_floor(n)` is the unique `r` with `r * r <= n < (r + 1) * (r + 1)`.
pub proof fn lemma_sqrt_floor(n: nat)
    ensures
        sqrt_floor(n) * sqrt_floor(n) <= n,
        n < (sqrt_floor(n) + 1) * (sqrt_floor(n) + 1),
    decreases n,
{
    let s = sqrt_floor(n);
    if n == 0 {
        assert(s == 0);
        assert(s * s <= n && n < (s + 1) * (s + 1)) by (nonlinear_arith)
            requires
                s == 0,
                n == 0,
        ;
    } else {
        let r = sqrt_floor((n - 1) as nat);
        lemma_sqrt_floor((n - 1) as nat);
        assert(r * r <= n - 1 && n - 1 < (r + 1) * (r + 1));
        if (r + 1) * (r + 1) <= n {
            assert(s == r + 1);
            assert(n == (r + 1) * (r + 1));
            assert(s * s <= n && n < (s + 1) * (s + 1)) by (nonlinear_arith)
                requires
                    s == r + 1,
                    n == (r + 1) * (r + 1),
                    r >= 0,
            ;
        } else {
            assert(s == r);
            assert(s * s <= n);
            assert(n < (s + 1) * (s + 1));
        }
    }
}

/// Any `r` satisfying the square-root bracketing equals `sqrt_floor(n)`.
pub proof fn lemma_sqrt_floor_unique(n: nat, r: nat)
    requires
        r * r <= n,
        n < (r + 1) * (r + 1),
    ensures
        r == sqrt_floor(n),
{
    let s = sqrt_floor(n);
    lemma_sqrt_floor(n);
    if r < s {
        assert((r + 1) * (r + 1) <= s * s) by (nonlinear_arith)
            requires
                0 <= r,
                r + 1 <= s,
            ;
    }
    if s < r {
        assert((s + 1) * (s + 1) <= r * r) by (nonlinear_arith)
            requires
                0 <= s,
                s + 1 <= r,
            ;
    }
}

/// Exact integer square root by binary search.
pub fn isqrt(n: u64) -> (r: u64)
    ensures
        r == sqrt_floor(n as nat),
        r * r <= n,
{
    let mut lo: u64 = 0;
    let mut hi: u64 = if n >= 0xffff_ffff {
        0x1_0000_0000
    } else {
        n + 1
    };
    proof {
        if n >= 0xffff_ffff {
            assert(hi * hi == 0x1_0000_0000_0000_0000int);
            assert(n < hi * hi);
        } else {
            assert((n + 1) * (n + 1) > n) by (nonlinear_arith)
                requires
                    n >= 0,
                ;
        }
    }
    while lo + 1 < hi
        invariant
            lo < hi,
            hi <= 0x1_0000_0000,
            lo * lo <= n,
            n < hi * hi,
        decreases hi - lo,
    {
        let mid: u64 = lo + (hi - lo) / 2;
        assert(mid * mid < 0x1_0000_0000_0000_0000) by (nonlinear_arith)
            requires
                mid < 0x1_0000_0000,
            ;
        if mid * mid <= n {
            lo = mid;
        } else {
            hi = mid;
        }
    }
    proof {
        lemma_sqrt_floor_unique(n as nat, lo as nat);
    }
    lo
}

/// Truncating division of an `i64` by a positive divisor, matching `fdiv`.
pub fn div_trunc(a: i64, b: i64) -> (q: i64)
    requires
        1 <= b,
        -0x7fff_ffff_ffff_ffff <= a,
    ensures
        q == fdiv(a as int, b as int),
{
    if a >= 0 {
        let q64: u64 = (a as u64) / (b as u64);
        proof {
            assert(a as u64 == a as int);
            assert((a as u64) / (b as u64) <= a as u64) by (nonlinear_arith)
                requires
                    b as u64 >= 1,
                ;
        }
        q64 as i64
    } else {
        let m: i64 = -a;
        let q64: u64 = (m as u64) / (b as u64);
        proof {
            assert(m as u64 == m as int);
            assert((m as u64) / (b as u64) <= m as u64) by (nonlinear_arith)
                requires
                    b as u64 >= 1,
                ;
        }
        -(q64 as i64)
    }
}

/// A bound on the magnitude survives truncating division.
pub proof fn lemma_fdiv_abs_le(a: int, b: int, m: int)
    requires
        1 <= b,
        -m <= a <= m,
        0 <= m,
    ensures
        -m <= fdiv(a, b) <= m,
        -(m / b) <= fdiv(a, b) <= m / b,
{
    if a >= 0 {
        assert(0 <= a / b <= m / b && a / b <= a) by (nonlinear_arith)
            requires
                0 <= a <= m,
                1 <= b,
            ;
    } else {
        assert(0 <= (-a) / b <= m / b && (-a) / b <= -a) by (nonlinear_arith)
            requires
                0 < -a <= m,
                1 <= b,
            ;
    }
}

/// Dividing a multiple of a positive divisor is exact.
pub proof fn lemma_div_exact(k: int, b: int)
    requires
        1 <= b,
        0 <= k,
    ensures
        (k * b) / b == k,
{
    assert((k * b) / b == k) by (nonlinear_arith)
        requires
            1 <= b,
            0 <= k,
        ;
}

/// Division by a positive divisor preserves order of the dividends.
pub proof fn lemma_div_ordered(a: int, c: int, b: int)
    requires
        1 <= b,
        0 <= a <= c,
    ensures
        a / b <= c / b,
{
    assert(a / b <= c / b) by (nonlinear_arith)
        requires
            1 <= b,
            0 <= a <= c,
        ;
}

/// A product of non-negative factors stays under the product of their bounds,
/// and so does its quotient by a positive constant.
pub proof fn lemma_mul_div_bound(a: int, ca: int, b: int, cb: int, d: int)
    requires
        0 <= a <= ca,
        0 <= b <= cb,
        1 <= d,
    ensures
        0 <= a * b <= ca * cb,
        0 <= (a * b) / d <= (ca * cb) / d,
{
    assert(0 <= a * b <= ca * cb) by (nonlinear_arith)
        requires
            0 <= a <= ca,
            0 <= b <= cb,
        ;
    lemma_div_ordered(a * b, ca * cb, d);
    assert(0 <= (a * b) / d) by (nonlinear_arith)
        requires
            0 <= a * b,
            1 <= d,
        ;
}

} // verus!
