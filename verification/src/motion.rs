//! The move controller: held keys push the camera along the horizontal
//! plane.
//!
//! Each held key contributes its direction twice — once flattened onto
//! the plane and once in full.  The duplication looks redundant, and
//! after the final flattening it indeed only scales the accumulator,
//! but it is part of the controller's fixed recipe and is kept as it
//! stands.  The accumulated vector is flattened,
//! normalized-or-zero, and scaled by speed and elapsed time, so diagonal
//! movement is no faster than axis-aligned movement.

use vstd::prelude::*;
use crate::fixed::{SCALE, fdiv, div_trunc, lemma_fdiv_abs_le, lemma_div_exact, sqrt_floor, lemma_sqrt_floor_unique};
use crate::geom::{Vec3, flat_len, norm_flat_x, norm_flat_z, normalize_flat};
use crate::look::{Orientation, PITCH_LIMIT_URAD};
use crate::trig::{sin_angle, cos_angle, sin_poly, cos_poly, sin_fx, cos_fx, lemma_cos_angle_inside_clamp};

verus! {

/// Walking speed: 3.4 units per second, in micro-units.
pub const SPEED_UPS: i64 = 3_400_000;

/// The largest elapsed frame time a frame update accepts: one thousand
/// seconds, in micro-seconds.
pub const DT_MAX_US: u64 = 1_000_000_000;

/// No per-frame position step exceeds this many micro-units
/// (speed times the elapsed-time cap).
pub const MOVE_STEP_MAX: i64 = 3_400_000_000;

/// The four directional keys, held or not this frame.
#[derive(Clone, Copy, PartialEq, Eq, Structural, Debug)]
pub struct HeldKeys {
    pub forward: bool,
    pub back: bool,
    pub left: bool,
    pub right: bool,
}

impl HeldKeys {
    /// No directional key held.
    pub open spec fn none() -> HeldKeys {
        HeldKeys { forward: false, back: false, left: false, right: false }
    }
}

/// `x` component of the camera's forward unit vector
/// (yaw about world-up composed with pitch about local right).
pub open spec fn forward_x(o: Orientation) -> int {
    fdiv(-(sin_angle(o.yaw as int) * cos_angle(o.pitch as int)), SCALE as int)
}

/// `y` (vertical) component of the forward unit vector.
pub open spec fn forward_y(o: Orientation) -> int {
    sin_angle(o.pitch as int)
}

/// `z` component of the forward unit vector.
pub open spec fn forward_z(o: Orientation) -> int {
    fdiv(-(cos_angle(o.yaw as int) * cos_angle(o.pitch as int)), SCALE as int)
}

/// `x` component of the camera's right unit vector (pitch does not move
/// the right axis).
pub open spec fn right_x(o: Orientation) -> int {
    cos_angle(o.yaw as int)
}

/// `z` component of the right unit vector.
pub open spec fn right_z(o: Orientation) -> int {
    -sin_angle(o.yaw as int)
}

/// Horizontal `x` of the accumulated direction: every held key adds its
/// direction twice (flattened plus full), back and left negate.
pub open spec fn accum_x(o: Orientation, k: HeldKeys) -> int {
    (if k.forward { 2 * forward_x(o) } else { 0 })
    + (if k.back { -2 * forward_x(o) } else { 0 })
    + (if k.right { 2 * right_x(o) } else { 0 })
    + (if k.left { -2 * right_x(o) } else { 0 })
}

/// Horizontal `z` of the accumulated direction.
pub open spec fn accum_z(o: Orientation, k: HeldKeys) -> int {
    (if k.forward { 2 * forward_z(o) } else { 0 })
    + (if k.back { -2 * forward_z(o) } else { 0 })
    + (if k.right { 2 * right_z(o) } else { 0 })
    + (if k.left { -2 * right_z(o) } else { 0 })
}

/// One normalized component scaled by speed and elapsed micro-seconds.
pub open spec fn step_of(n: int, dt: int) -> int {
    fdiv(fdiv(n * SPEED_UPS, SCALE as int) * dt, SCALE as int)
}

/// The full per-frame position change along `x`.
pub open spec fn move_delta_x(o: Orientation, k: HeldKeys, dt: int) -> int {
    step_of(norm_flat_x(accum_x(o, k), accum_z(o, k)), dt)
}

/// The full per-frame position change along `z`.
pub open spec fn move_delta_z(o: Orientation, k: HeldKeys, dt: int) -> int {
    step_of(norm_flat_z(accum_x(o, k), accum_z(o, k)), dt)
}

/// One frame of the move controller: the position change for the held
/// keys, the current orientation and the elapsed micro-seconds.  The
/// vertical component is always zero, whatever the pitch.
pub fn move_delta(o: Orientation, k: HeldKeys, dt_us: u64) -> (d: Vec3)
    requires
        o.wf(),
        dt_us <= DT_MAX_US,
    ensures
        d.x == move_delta_x(o, k, dt_us as int),
        d.y == 0,
        d.z == move_delta_z(o, k, dt_us as int),
        -MOVE_STEP_MAX <= d.x <= MOVE_STEP_MAX,
        -MOVE_STEP_MAX <= d.z <= MOVE_STEP_MAX,
{
    let sy = sin_fx(o.yaw);
    let cy = cos_fx(o.yaw);
    let cp = cos_fx(o.pitch);
    proof {
        assert(-2_890_000_000_000 <= sy * cp <= 2_890_000_000_000
            && -2_890_000_000_000 <= cy * cp <= 2_890_000_000_000)
            by (nonlinear_arith)
            requires
                -1_700_000 <= sy <= 1_700_000,
                -1_700_000 <= cy <= 1_700_000,
                -1_700_000 <= cp <= 1_700_000,
        ;
        lemma_fdiv_abs_le(-(sy * cp) as int, SCALE as int, 2_890_000_000_000);
        lemma_fdiv_abs_le(-(cy * cp) as int, SCALE as int, 2_890_000_000_000);
    }
    let fx: i64 = div_trunc(-(sy * cp), SCALE);
    let fz: i64 = div_trunc(-(cy * cp), SCALE);
    let rx: i64 = cy;
    let rz: i64 = -sy;

    let mut ax: i64 = 0;
    let mut az: i64 = 0;
    if k.forward {
        ax = ax + fx;
        az = az + fz;
        ax = ax + fx;
        az = az + fz;
    }
    if k.back {
        ax = ax - fx;
        az = az - fz;
        ax = ax - fx;
        az = az - fz;
    }
    if k.right {
        ax = ax + rx;
        az = az + rz;
        ax = ax + rx;
        az = az + rz;
    }
    if k.left {
        ax = ax - rx;
        az = az - rz;
        ax = ax - rx;
        az = az - rz;
    }
    proof {
        assert(ax == accum_x(o, k));
        assert(az == accum_z(o, k));
    }
    let n = normalize_flat(ax, az);
    proof {
        assert(-3_400_000_000_000 <= n.0 * SPEED_UPS <= 3_400_000_000_000
            && -3_400_000_000_000 <= n.1 * SPEED_UPS <= 3_400_000_000_000)
            by (nonlinear_arith)
            requires
                -1_000_000 <= n.0 <= 1_000_000,
                -1_000_000 <= n.1 <= 1_000_000,
                SPEED_UPS == 3_400_000,
        ;
        lemma_fdiv_abs_le(n.0 * SPEED_UPS, SCALE as int, 3_400_000_000_000);
        lemma_fdiv_abs_le(n.1 * SPEED_UPS, SCALE as int, 3_400_000_000_000);
    }
    let vx: i64 = div_trunc(n.0 * SPEED_UPS, SCALE);
    let vz: i64 = div_trunc(n.1 * SPEED_UPS, SCALE);
    proof {
        assert(-3_400_000_000_000_000 <= vx * (dt_us as i64) <= 3_400_000_000_000_000
            && -3_400_000_000_000_000 <= vz * (dt_us as i64) <= 3_400_000_000_000_000)
            by (nonlinear_arith)
            requires
                -3_400_000 <= vx <= 3_400_000,
                -3_400_000 <= vz <= 3_400_000,
                0 <= dt_us as i64 <= 1_000_000_000,
        ;
        lemma_fdiv_abs_le(vx * (dt_us as i64), SCALE as int, 3_400_000_000_000_000);
        lemma_fdiv_abs_le(vz * (dt_us as i64), SCALE as int, 3_400_000_000_000_000);
    }
    let dx: i64 = div_trunc(vx * (dt_us as i64), SCALE);
    let dz: i64 = div_trunc(vz * (dt_us as i64), SCALE);
    Vec3 { x: dx, y: 0, z: dz }
}

/// Holding no directional key produces no position change, for any
/// orientation and any elapsed time.
pub proof fn lemma_no_keys_no_motion(o: Orientation, dt: int)
    ensures
        move_delta_x(o, HeldKeys::none(), dt) == 0,
        move_delta_z(o, HeldKeys::none(), dt) == 0,
{
    assert(accum_x(o, HeldKeys::none()) == 0);
    assert(accum_z(o, HeldKeys::none()) == 0);
    assert(norm_flat_x(0, 0) == 0);
    assert(norm_flat_z(0, 0) == 0);
    assert(0 * SPEED_UPS == 0) by (nonlinear_arith);
    assert(fdiv(0, SCALE as int) == 0);
    assert(0 * dt == 0) by (nonlinear_arith);
    assert(step_of(0, dt) == 0);
}

/// Exact trig at yaw zero: the sine vanishes, the cosine is one whole
/// unit, and the right vector is exactly the positive `x` axis.
proof fn lemma_yaw_zero_trig(o: Orientation)
    requires
        o.yaw == 0,
    ensures
        sin_angle(o.yaw as int) == 0,
        cos_angle(o.yaw as int) == SCALE,
        right_x(o) == SCALE,
        right_z(o) == 0,
{
    assert(0 * 0 == 0) by (nonlinear_arith);
    assert(sin_poly(0) == 0);
    assert(cos_poly(0) == SCALE);
}

/// With only the forward key held at yaw zero, the camera moves by
/// exactly speed times elapsed time, straight along the flattened
/// forward axis (negative `z`), whatever the legal pitch: flattening
/// and renormalizing cancel the pitch scaling without remainder.
pub proof fn lemma_forward_key_full_speed(o: Orientation, dt: int)
    requires
        o.yaw == 0,
        -PITCH_LIMIT_URAD <= o.pitch <= PITCH_LIMIT_URAD,
        0 <= dt,
    ensures
        move_delta_x(o, HeldKeys { forward: true, back: false, left: false, right: false }, dt)
            == 0,
        move_delta_z(o, HeldKeys { forward: true, back: false, left: false, right: false }, dt)
            == -((SPEED_UPS * dt) / (SCALE as int)),
{
    let k = HeldKeys { forward: true, back: false, left: false, right: false };
    let s = SCALE as int;
    lemma_yaw_zero_trig(o);
    let cp = cos_angle(o.pitch as int);
    lemma_cos_angle_inside_clamp(o.pitch as int);
    assert(0 * cp == 0) by (nonlinear_arith);
    assert(forward_x(o) == fdiv(0, s));
    assert(forward_x(o) == 0);
    assert(s * cp == cp * s && 0 < cp * s) by (nonlinear_arith)
        requires
            1 <= cp,
            s == 1_000_000,
    ;
    lemma_div_exact(cp, s);
    assert(forward_z(o) == fdiv(-(s * cp), s));
    assert(forward_z(o) == -((cp * s) / s));
    assert(forward_z(o) == -cp);
    assert(accum_x(o, k) == 2 * forward_x(o));
    assert(accum_x(o, k) == 0);
    assert(accum_z(o, k) == 2 * forward_z(o));
    let m = accum_z(o, k);
    let q = 2 * cp;
    assert(m == -q);
    assert(0 * 0 == 0) by (nonlinear_arith);
    assert(m * m == q * q && 0 <= q * q && q * q < (q + 1) * (q + 1)) by (nonlinear_arith)
        requires
            m == -q,
            2 <= q,
    ;
    let n2 = (0 * 0 + m * m) as nat;
    assert(n2 == q * q);
    assert((q as nat) * (q as nat) <= n2 && n2 < ((q as nat) + 1) * ((q as nat) + 1));
    lemma_sqrt_floor_unique(n2, q as nat);
    assert(flat_len(0, m) == q);
    assert(0 * s == 0) by (nonlinear_arith);
    assert(0int / q == 0) by (nonlinear_arith)
        requires
            1 <= q,
    ;
    assert(norm_flat_x(0, m) == fdiv(0, q));
    assert(norm_flat_x(0, m) == 0);
    assert(m * s == -(q * s) && 0 < q * s && q * s == s * q) by (nonlinear_arith)
        requires
            m == -q,
            2 <= q,
            s == 1_000_000,
    ;
    lemma_div_exact(s, q);
    assert(norm_flat_z(0, m) == fdiv(m * s, q));
    assert(fdiv(m * s, q) == -((q * s) / q));
    assert(norm_flat_z(0, m) == -s);
    lemma_scaled_axis_step(dt);
}

/// The exact unit length of the doubled strafe accumulator.
proof fn lemma_axis_norm()
    ensures
        flat_len(2_000_000, 0) == 2_000_000,
        norm_flat_x(2_000_000, 0) == 1_000_000,
        norm_flat_z(2_000_000, 0) == 0,
{
    assert(2_000_000 * 2_000_000 + 0 * 0 == 4_000_000_000_000) by (nonlinear_arith);
    assert(2_000_000 * 2_000_000 <= 4_000_000_000_000
        && 4_000_000_000_000 < 2_000_001 * 2_000_001) by (nonlinear_arith);
    lemma_sqrt_floor_unique(4_000_000_000_000nat, 2_000_000nat);
    assert(sqrt_floor(4_000_000_000_000nat) == 2_000_000);
    assert(2_000_000 * (SCALE as int) == 2_000_000_000_000) by (nonlinear_arith)
        requires
            SCALE == 1_000_000,
    ;
    assert(0 * (SCALE as int) == 0) by (nonlinear_arith);
    assert(norm_flat_x(2_000_000, 0) == fdiv(2_000_000_000_000, 2_000_000));
    assert(norm_flat_z(2_000_000, 0) == fdiv(0, 2_000_000));
}

/// With only the right-strafe key held at yaw zero, the camera moves by
/// exactly speed times elapsed time along positive `x`; pitch plays no
/// part in the strafe axis at all.
pub proof fn lemma_right_key_full_speed(o: Orientation, dt: int)
    requires
        o.yaw == 0,
        0 <= dt,
    ensures
        move_delta_x(o, HeldKeys { forward: false, back: false, left: false, right: true }, dt)
            == (SPEED_UPS * dt) / (SCALE as int),
        move_delta_z(o, HeldKeys { forward: false, back: false, left: false, right: true }, dt)
            == 0,
{
    let k = HeldKeys { forward: false, back: false, left: false, right: true };
    lemma_yaw_zero_trig(o);
    assert(accum_x(o, k) == 2 * right_x(o));
    assert(2 * 1_000_000 == 2_000_000) by (nonlinear_arith);
    assert(accum_x(o, k) == 2_000_000);
    assert(accum_z(o, k) == 2 * right_z(o));
    assert(2 * 0 == 0) by (nonlinear_arith);
    assert(accum_z(o, k) == 0);
    lemma_axis_norm();
    lemma_scaled_axis_step(dt);
}

/// Stepping an exact unit axis component: the two truncating divisions
/// collapse to one application of speed and time.
proof fn lemma_scaled_axis_step(dt: int)
    requires
        0 <= dt,
    ensures
        step_of(0, dt) == 0,
        step_of(-1_000_000, dt) == -((SPEED_UPS * dt) / (SCALE as int)),
        step_of(1_000_000, dt) == (SPEED_UPS * dt) / (SCALE as int),
{
    assert(0 * SPEED_UPS == 0 && (-1_000_000) * SPEED_UPS == -3_400_000_000_000
        && 1_000_000 * SPEED_UPS == 3_400_000_000_000) by (nonlinear_arith)
        requires
            SPEED_UPS == 3_400_000,
    ;
    assert(fdiv(0, SCALE as int) == 0);
    assert(fdiv(-3_400_000_000_000, SCALE as int) == -3_400_000);
    assert(fdiv(3_400_000_000_000, SCALE as int) == 3_400_000);
    assert(0 * dt == 0) by (nonlinear_arith);
    assert(step_of(0, dt) == 0);
    assert((-3_400_000) * dt == -(3_400_000 * dt) && 0 <= 3_400_000 * dt) by (nonlinear_arith)
        requires
            0 <= dt,
    ;
    if 3_400_000 * dt == 0 {
        assert(step_of(-1_000_000, dt) == fdiv(0, SCALE as int));
        assert(step_of(1_000_000, dt) == fdiv(0, SCALE as int));
        assert((3_400_000 * dt) / (SCALE as int) == 0);
        assert(SPEED_UPS * dt == 3_400_000 * dt);
    } else {
        assert(fdiv(-(3_400_000 * dt), SCALE as int) == -((3_400_000 * dt) / (SCALE as int)));
        assert(SPEED_UPS * dt == 3_400_000 * dt);
    }
}

} // verus!
