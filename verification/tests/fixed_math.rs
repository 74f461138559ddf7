//! Checks of the fixed-point arithmetic helpers and the trig tables.

use walksim::fixed::{div_trunc, isqrt};
use walksim::trig::{cos_fx, sin_fx, HALF_PI_URAD, PI_URAD};
use walksim::look::wrap_fx;

#[test]
fn isqrt_small_values() {
    assert_eq!(isqrt(0), 0);
    assert_eq!(isqrt(1), 1);
    assert_eq!(isqrt(3), 1);
    assert_eq!(isqrt(4), 2);
    assert_eq!(isqrt(999_999), 999);
    assert_eq!(isqrt(1_000_000), 1000);
}

#[test]
fn isqrt_large_values() {
    assert_eq!(isqrt(4_000_000_000_000), 2_000_000);
    assert_eq!(isqrt(u64::MAX), 4_294_967_295);
}

#[test]
fn div_trunc_rounds_toward_zero() {
    assert_eq!(div_trunc(7, 2), 3);
    assert_eq!(div_trunc(-7, 2), -3);
    assert_eq!(div_trunc(0, 5), 0);
    assert_eq!(div_trunc(-1, 1_000_000), 0);
}

#[test]
fn sine_at_reference_angles() {
    assert_eq!(sin_fx(0), 0);
    // thirty degrees
    assert_eq!(sin_fx(523_599), 500_000);
    assert_eq!(sin_fx(-523_599), -500_000);
    assert_eq!(sin_fx(-HALF_PI_URAD), -999_844);
    // reflection above a quarter turn
    assert_eq!(sin_fx(2_500_000), 598_473);
    assert_eq!(sin_fx(PI_URAD), 0);
}

#[test]
fn cosine_at_reference_angles() {
    assert_eq!(cos_fx(0), 1_000_000);
    assert_eq!(cos_fx(523_599), 866_026);
    assert_eq!(cos_fx(-523_599), 866_026);
    assert_eq!(cos_fx(HALF_PI_URAD), -894);
    assert_eq!(cos_fx(2_500_000), -801_144);
    assert_eq!(cos_fx(PI_URAD), -1_000_000);
}

#[test]
fn wrap_keeps_range_and_identity() {
    assert_eq!(wrap_fx(0), 0);
    assert_eq!(wrap_fx(3_141_592), 3_141_592);
    assert_eq!(wrap_fx(3_141_593), -3_141_592);
    assert_eq!(wrap_fx(-3_141_593), 3_141_592);
    assert_eq!(wrap_fx(6_283_185), 0);
    assert_eq!(wrap_fx(-6_283_185), 0);
    assert_eq!(wrap_fx(10_000_000), -2_566_370);
    assert_eq!(wrap_fx(-10_000_000), 2_566_370);
}
