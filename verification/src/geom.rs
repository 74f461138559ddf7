//! Vectors in micro-units and horizontal normalization.

use vstd::prelude::*;
use crate::fixed::{
    SCALE, fdiv, sqrt_floor, isqrt, div_trunc, lemma_sqrt_floor, lemma_fdiv_abs_le,
    lemma_div_exact,
};

verus! {

/// A point or direction, each coordinate in micro-units.
/// `y` is the vertical axis.
#[derive(Clone, Copy, PartialEq, Eq, Structural, Debug)]
pub struct Vec3 {
    pub x: i64,
    pub y: i64,
    pub z: i64,
}

/// Floor length of the horizontal vector `(ax, az)`.
pub open spec fn flat_len(ax: int, az: int) -> int {
    sqrt_floor((ax * ax + az * az) as nat) as int
}

/// Normalize-or-zero on the horizontal plane: the zero vector maps to
/// itself, anything else is scaled to (truncated) unit length.
pub open spec fn norm_flat_x(ax: int, az: int) -> int {
    if ax == 0 && az == 0 {
        0
    } else {
        fdiv(ax * SCALE, flat_len(ax, az))
    }
}

/// The `z` component of horizontal normalize-or-zero.
pub open spec fn norm_flat_z(ax: int, az: int) -> int {
    if ax == 0 && az == 0 {
        0
    } else {
        fdiv(az * SCALE, flat_len(ax, az))
    }
}

/// Horizontal normalize-or-zero; tolerates the zero vector and never
/// exceeds unit length.
pub fn normalize_flat(ax: i64, az: i64) -> (n: (i64, i64))
    requires
        -30_000_000 <= ax <= 30_000_000,
        -30_000_000 <= az <= 30_000_000,
    ensures
        n.0 == norm_flat_x(ax as int, az as int),
        n.1 == norm_flat_z(ax as int, az as int),
        -SCALE <= n.0 <= SCALE,
        -SCALE <= n.1 <= SCALE,
{
    proof {
        assert(0 <= ax * ax <= 900_000_000_000_000 && 0 <= az * az <= 900_000_000_000_000)
            by (nonlinear_arith)
            requires
                -30_000_000 <= ax <= 30_000_000,
                -30_000_000 <= az <= 30_000_000,
        ;
    }
    let n2: i64 = ax * ax + az * az;
    if n2 == 0 {
        proof {
            assert(ax == 0 && az == 0) by (nonlinear_arith)
                requires
                    ax * ax + az * az == 0,
            ;
        }
        (0, 0)
    } else {
        let len: u64 = isqrt(n2 as u64);
        proof {
            lemma_sqrt_floor(n2 as nat);
            assert(len >= 1) by (nonlinear_arith)
                requires
                    n2 >= 1,
                    n2 < (len + 1) * (len + 1),
                    len >= 0,
            ;
            assert(len < 50_000_000) by (nonlinear_arith)
                requires
                    len * len <= 1_800_000_000_000_000,
                    len >= 0,
            ;
            assert(len + 1 > ax && len + 1 > -ax && len + 1 > az && len + 1 > -az)
                by (nonlinear_arith)
                requires
                    n2 == ax * ax + az * az,
                    n2 < (len + 1) * (len + 1),
                    len >= 0,
            ;
            assert(-30_000_000_000_000 <= ax * SCALE <= 30_000_000_000_000
                && -30_000_000_000_000 <= az * SCALE <= 30_000_000_000_000)
                by (nonlinear_arith)
                requires
                    -30_000_000 <= ax <= 30_000_000,
                    -30_000_000 <= az <= 30_000_000,
                    SCALE == 1_000_000,
            ;
        }
        let nx: i64 = div_trunc(ax * SCALE, len as i64);
        let nz: i64 = div_trunc(az * SCALE, len as i64);
        proof {
            let l = len as int;
            assert(-(l * SCALE) <= ax * SCALE <= l * SCALE && -(l * SCALE) <= az * SCALE <= l * SCALE
                && l * SCALE >= 0)
                by (nonlinear_arith)
                requires
                    -l <= ax <= l,
                    -l <= az <= l,
                    l >= 1,
                    SCALE == 1_000_000,
            ;
            lemma_fdiv_abs_le(ax * SCALE, l, l * SCALE);
            lemma_fdiv_abs_le(az * SCALE, l, l * SCALE);
            lemma_div_exact(SCALE as int, l);
            assert(l * SCALE == SCALE * l) by (nonlinear_arith);
            assert((l * SCALE) / l == SCALE);
        }
        (nx, nz)
    }
}

} // verus!
