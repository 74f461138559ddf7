//! Fixed-point sine and cosine on micro-radian angles.
//!
//! The model defines the camera's look direction through these series
//! approximations; every contract downstream speaks of `sin_angle` and
//! `cos_angle`, so the whole pipeline is pinned to one definition.

use vstd::prelude::*;
use crate::fixed::{SCALE, lemma_mul_div_bound};

verus! {

/// Pi in micro-radians.
pub const PI_URAD: i64 = 3_141_593;

/// Pi over two in micro-radians.
pub const HALF_PI_URAD: i64 = 1_570_796;

/// A full turn (two pi) in micro-radians.
pub const TURN_URAD: i64 = 6_283_185;

/// Every value of `sin_angle` and `cos_angle` fits well inside this bound.
pub const TRIG_BOUND: i64 = 1_700_000;

/// Taylor series for sine on the reduced range `[0, HALF_PI_URAD]`,
/// evaluated in micro-units with truncating steps.
pub open spec fn sin_poly(r: int) -> int {
    let x2 = (r * r) / (SCALE as int);
    let p3 = (x2 * r) / (SCALE as int);
    let p5 = (p3 * x2) / (SCALE as int);
    let p7 = (p5 * x2) / (SCALE as int);
    r - p3 / 6 + p5 / 120 - p7 / 5040
}

/// Taylor series for cosine on the reduced range `[0, HALF_PI_URAD]`.
pub open spec fn cos_poly(r: int) -> int {
    let x2 = (r * r) / (SCALE as int);
    let p4 = (x2 * x2) / (SCALE as int);
    let p6 = (p4 * x2) / (SCALE as int);
    SCALE + p4 / 24 - x2 / 2 - p6 / 720
}

/// Sine of an angle in `[-PI_URAD, PI_URAD]`: fold the sign out, reflect
/// the upper quadrant onto the lower one, then evaluate the series.
pub open spec fn sin_angle(a: int) -> int {
    let ax = if a < 0 { -a } else { a };
    let r = if ax > HALF_PI_URAD { PI_URAD - ax } else { ax };
    if a < 0 { -sin_poly(r) } else { sin_poly(r) }
}

/// Cosine of an angle in `[-PI_URAD, PI_URAD]`.
pub open spec fn cos_angle(a: int) -> int {
    let ax = if a < 0 { -a } else { a };
    if ax > HALF_PI_URAD { -cos_poly(PI_URAD - ax) } else { cos_poly(ax) }
}

/// Series evaluation for sine on the reduced range.
fn sin_poly_fx(r: u64) -> (s: i64)
    requires
        r <= 1_570_796,
    ensures
        s == sin_poly(r as int),
        -TRIG_BOUND <= s <= TRIG_BOUND,
{
    proof {
        lemma_mul_div_bound(r as int, 1_570_796, r as int, 1_570_796, 1_000_000);
    }
    let x2: u64 = r * r / 1_000_000;
    proof {
        lemma_mul_div_bound(x2 as int, 2_467_400, r as int, 1_570_796, 1_000_000);
    }
    let p3: u64 = x2 * r / 1_000_000;
    proof {
        lemma_mul_div_bound(p3 as int, 3_875_782, x2 as int, 2_467_400, 1_000_000);
    }
    let p5: u64 = p3 * x2 / 1_000_000;
    proof {
        lemma_mul_div_bound(p5 as int, 9_563_104, x2 as int, 2_467_400, 1_000_000);
    }
    let p7: u64 = p5 * x2 / 1_000_000;
    let t3: u64 = p3 / 6;
    let t5: u64 = p5 / 120;
    let t7: u64 = p7 / 5040;
    (r as i64) - (t3 as i64) + (t5 as i64) - (t7 as i64)
}

/// Series evaluation for cosine on the reduced range.
fn cos_poly_fx(r: u64) -> (c: i64)
    requires
        r <= 1_570_796,
    ensures
        c == cos_poly(r as int),
        -TRIG_BOUND <= c <= TRIG_BOUND,
{
    proof {
        lemma_mul_div_bound(r as int, 1_570_796, r as int, 1_570_796, 1_000_000);
    }
    let x2: u64 = r * r / 1_000_000;
    proof {
        lemma_mul_div_bound(x2 as int, 2_467_400, x2 as int, 2_467_400, 1_000_000);
    }
    let p4: u64 = x2 * x2 / 1_000_000;
    proof {
        lemma_mul_div_bound(p4 as int, 6_088_062, x2 as int, 2_467_400, 1_000_000);
    }
    let p6: u64 = p4 * x2 / 1_000_000;
    let t4: u64 = p4 / 24;
    let t2: u64 = x2 / 2;
    let t6: u64 = p6 / 720;
    1_000_000i64 + (t4 as i64) - (t2 as i64) - (t6 as i64)
}

/// A lower bound for the cosine series over one interval `[a, b]` of the
/// reduced range: each term is bounded by its value at the interval end
/// where it is largest.  The callers hand in the end values of the
/// series terms already worked out.
proof fn lemma_cos_poly_lower_on(r: int, a: int, b: int, a4: int, b2: int, b6: int)
    requires
        0 <= a <= r,
        r <= b,
        a4 == ((a * a / (SCALE as int)) * (a * a / (SCALE as int))) / (SCALE as int),
        b2 == b * b / (SCALE as int),
        b6 == ((b2 * b2) / (SCALE as int)) * b2 / (SCALE as int),
    ensures
        cos_poly(r) >= SCALE + a4 / 24 - b2 / 2 - b6 / 720,
{
    let s = SCALE as int;
    let x2 = r * r / s;
    let a2 = a * a / s;
    assert(a * a <= r * r && r * r <= b * b && 0 <= a * a) by (nonlinear_arith)
        requires
            0 <= a <= r <= b,
    ;
    crate::fixed::lemma_div_ordered(a * a, r * r, s);
    crate::fixed::lemma_div_ordered(r * r, b * b, s);
    assert(0 <= a2 <= x2 <= b2);
    let p4 = x2 * x2 / s;
    let b4 = (b2 * b2) / s;
    assert(a2 * a2 <= x2 * x2 && x2 * x2 <= b2 * b2 && 0 <= a2 * a2) by (nonlinear_arith)
        requires
            0 <= a2 <= x2 <= b2,
    ;
    crate::fixed::lemma_div_ordered(a2 * a2, x2 * x2, s);
    crate::fixed::lemma_div_ordered(x2 * x2, b2 * b2, s);
    assert(0 <= a4 <= p4 <= b4);
    let p6 = p4 * x2 / s;
    assert(0 <= p4 * x2 && p4 * x2 <= b4 * b2) by (nonlinear_arith)
        requires
            0 <= p4 <= b4,
            0 <= x2 <= b2,
    ;
    crate::fixed::lemma_div_ordered(p4 * x2, b4 * b2, s);
    crate::fixed::lemma_div_ordered(a4, p4, 24);
    crate::fixed::lemma_div_ordered(x2, b2, 2);
    crate::fixed::lemma_div_ordered(p6, b6, 720);
}

/// Inside the pitch clamp the modelled cosine stays at least one
/// micro-unit and at most a quarter over the unit scale: the look
/// direction never degenerates, however steep the legal pitch.
pub proof fn lemma_cos_angle_inside_clamp(p: int)
    requires
        -1_540_000 <= p <= 1_540_000,
    ensures
        1 <= cos_angle(p) <= 1_250_000,
{
    let r = if p < 0 { -p } else { p };
    assert(cos_angle(p) == cos_poly(r));
    let s = SCALE as int;
    if r <= 1_400_000 {
        assert(0 * 0 == 0 && 1_400_000 * 1_400_000 == 1_960_000_000_000
            && 1_960_000 * 1_960_000 == 3_841_600_000_000
            && 3_841_600 * 1_960_000 == 7_529_536_000_000) by (nonlinear_arith);
        lemma_cos_poly_lower_on(r, 0, 1_400_000, 0, 1_960_000, 7_529_536);
        assert(cos_poly(r) >= 1);
    } else if r <= 1_510_000 {
        assert(1_400_000 * 1_400_000 == 1_960_000_000_000
            && 1_960_000 * 1_960_000 == 3_841_600_000_000
            && 1_510_000 * 1_510_000 == 2_280_100_000_000
            && 2_280_100 * 2_280_100 == 5_198_856_010_000
            && 5_198_856 * 2_280_100 == 11_853_911_565_600) by (nonlinear_arith);
        lemma_cos_poly_lower_on(r, 1_400_000, 1_510_000, 3_841_600, 2_280_100, 11_853_911);
        assert(cos_poly(r) >= 1);
    } else {
        assert(1_510_000 * 1_510_000 == 2_280_100_000_000
            && 2_280_100 * 2_280_100 == 5_198_856_010_000
            && 1_540_000 * 1_540_000 == 2_371_600_000_000
            && 2_371_600 * 2_371_600 == 5_624_486_560_000
            && 5_624_486 * 2_371_600 == 13_339_030_997_600) by (nonlinear_arith);
        lemma_cos_poly_lower_on(r, 1_510_000, 1_540_000, 5_198_856, 2_371_600, 13_339_030);
        assert(cos_poly(r) >= 1);
    }
    let x2 = r * r / s;
    let p4 = x2 * x2 / s;
    let p6 = p4 * x2 / s;
    assert(r * r <= 2_371_600_000_000 && 0 <= r * r) by (nonlinear_arith)
        requires
            0 <= r <= 1_540_000,
    ;
    crate::fixed::lemma_div_ordered(r * r, 2_371_600_000_000, s);
    assert(x2 * x2 <= 5_624_486_560_000 && 0 <= x2 * x2) by (nonlinear_arith)
        requires
            0 <= x2 <= 2_371_600,
    ;
    crate::fixed::lemma_div_ordered(x2 * x2, 5_624_486_560_000, s);
    crate::fixed::lemma_div_ordered(p4, 5_624_486, 24);
    assert(0 <= p4 * x2) by (nonlinear_arith)
        requires
            0 <= p4,
            0 <= x2,
    ;
    crate::fixed::lemma_div_ordered(0, p4 * x2, s);
    crate::fixed::lemma_div_ordered(0, x2, 2);
    crate::fixed::lemma_div_ordered(0, p6, 720);
    assert(cos_poly(r) <= SCALE + p4 / 24);
}

/// Sine of a micro-radian angle within half a turn of zero.
pub fn sin_fx(a: i64) -> (s: i64)
    requires
        -PI_URAD <= a <= PI_URAD,
    ensures
        s == sin_angle(a as int),
        -TRIG_BOUND <= s <= TRIG_BOUND,
{
    let ax: i64 = if a < 0 { -a } else { a };
    let r: i64 = if ax > HALF_PI_URAD { PI_URAD - ax } else { ax };
    let s = sin_poly_fx(r as u64);
    if a < 0 { -s } else { s }
}

/// Cosine of a micro-radian angle within half a turn of zero.
pub fn cos_fx(a: i64) -> (c: i64)
    requires
        -PI_URAD <= a <= PI_URAD,
    ensures
        c == cos_angle(a as int),
        -TRIG_BOUND <= c <= TRIG_BOUND,
{
    let ax: i64 = if a < 0 { -a } else { a };
    if ax > HALF_PI_URAD {
        let c = cos_poly_fx((PI_URAD - ax) as u64);
        -c
    } else {
        cos_poly_fx(ax as u64)
    }
}

} // verus!
