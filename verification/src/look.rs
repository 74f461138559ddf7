//! The look controller: pointer motion turns into yaw and pitch.
//!
//! Yaw rotates about the world-up axis and is kept wrapped to one turn;
//! pitch rotates about the camera's local right axis and is clamped so
//! the view never inverts at the poles.  The composition order is fixed:
//! yaw outer, pitch inner.

use vstd::prelude::*;
use vstd::arithmetic::div_mod::{
    lemma_fundamental_div_mod, lemma_mod_bound, lemma_mod_multiples_vanish, lemma_small_mod,
};
use crate::trig::TURN_URAD;

verus! {

/// Micro-radians of rotation per unit of raw pointer delta
/// (one tenth of a degree).
pub const SENSITIVITY_URAD: i64 = 1745;

/// The pitch clamp: 1.54 radians, just short of straight up or down.
pub const PITCH_LIMIT_URAD: i64 = 1_540_000;

/// Wrapped yaw lives in `[-YAW_WRAP_URAD, YAW_WRAP_URAD]`, one value per
/// direction (the span holds exactly `TURN_URAD` integers).
pub const YAW_WRAP_URAD: i64 = 3_141_592;

/// Camera orientation: yaw then pitch, in micro-radians.
#[derive(Clone, Copy, PartialEq, Eq, Structural, Debug)]
pub struct Orientation {
    pub yaw: i64,
    pub pitch: i64,
}

impl Orientation {
    /// Yaw wrapped to one turn, pitch inside the clamp.
    pub open spec fn wf(self) -> bool {
        &&& -YAW_WRAP_URAD <= self.yaw <= YAW_WRAP_URAD
        &&& -PITCH_LIMIT_URAD <= self.pitch <= PITCH_LIMIT_URAD
    }
}

/// The unique representative of `a` modulo one turn inside
/// `[-YAW_WRAP_URAD, YAW_WRAP_URAD]`.
pub open spec fn wrap_angle(a: int) -> int {
    let m = a % (TURN_URAD as int);
    if m > YAW_WRAP_URAD {
        m - TURN_URAD
    } else {
        m
    }
}

/// Pitch clamped to the legal range.
pub open spec fn clamp_pitch(p: int) -> int {
    if p < -PITCH_LIMIT_URAD {
        -PITCH_LIMIT_URAD as int
    } else if p > PITCH_LIMIT_URAD {
        PITCH_LIMIT_URAD as int
    } else {
        p
    }
}

/// Pitch after one frame of vertical pointer motion `dy`.
pub open spec fn pitch_after(p: int, dy: int) -> int {
    clamp_pitch(p - dy * SENSITIVITY_URAD)
}

/// Yaw after one frame of horizontal pointer motion `dx`.
pub open spec fn yaw_after(y: int, dx: int) -> int {
    wrap_angle(y - dx * SENSITIVITY_URAD)
}

/// `wrap_angle` always lands in the wrapped range.
pub proof fn lemma_wrap_range(a: int)
    ensures
        -YAW_WRAP_URAD <= wrap_angle(a) <= YAW_WRAP_URAD,
{
    lemma_mod_bound(a, TURN_URAD as int);
}

/// `wrap_angle` is the identity on the wrapped range.
pub proof fn lemma_wrap_identity(y: int)
    requires
        -YAW_WRAP_URAD <= y <= YAW_WRAP_URAD,
    ensures
        wrap_angle(y) == y,
{
    let t = TURN_URAD as int;
    if y >= 0 {
        lemma_small_mod(y as nat, t as nat);
    } else {
        lemma_mod_multiples_vanish(1, y, t);
        lemma_small_mod((t + y) as nat, t as nat);
        assert(y % t == t + y);
    }
}

/// `wrap_angle` changes its argument by a whole number of turns.
pub proof fn lemma_wrap_congruent(a: int)
    ensures
        (a - wrap_angle(a)) % (TURN_URAD as int) == 0,
{
    let t = TURN_URAD as int;
    lemma_fundamental_div_mod(a, t);
    let q = a / t;
    if a % t > YAW_WRAP_URAD {
        assert(a - wrap_angle(a) == t * (q + 1));
        lemma_mod_multiples_vanish(q + 1, 0, t);
        lemma_small_mod(0, t as nat);
    } else {
        assert(a - wrap_angle(a) == t * q);
        lemma_mod_multiples_vanish(q, 0, t);
        lemma_small_mod(0, t as nat);
    }
}

/// Wrap a micro-radian angle to `[-YAW_WRAP_URAD, YAW_WRAP_URAD]`.
pub fn wrap_fx(a: i64) -> (r: i64)
    requires
        -4_000_000_000_000 <= a <= 4_000_000_000_000,
    ensures
        r == wrap_angle(a as int),
        -YAW_WRAP_URAD <= r <= YAW_WRAP_URAD,
{
    proof {
        lemma_wrap_range(a as int);
    }
    let t: u64 = 6_283_185;
    if a >= 0 {
        let m: u64 = (a as u64) % t;
        if m > 3_141_592 {
            (m as i64) - TURN_URAD
        } else {
            m as i64
        }
    } else {
        let p: u64 = ((-a) as u64) % t;
        proof {
            let ti = TURN_URAD as int;
            lemma_mod_bound(-a as int, ti);
            lemma_fundamental_div_mod(-a as int, ti);
            let q = (-a as int) / ti;
            if p == 0 {
                assert(a as int == ti * (-q) + 0);
                lemma_mod_multiples_vanish(-q, 0, ti);
                lemma_small_mod(0, ti as nat);
                assert((a as int) % ti == 0);
            } else {
                assert(a as int == ti * (-q - 1) + (ti - p));
                lemma_mod_multiples_vanish(-q - 1, ti - p, ti);
                lemma_small_mod((ti - p) as nat, ti as nat);
                assert((a as int) % ti == ti - p);
            }
        }
        if p == 0 {
            0
        } else {
            let m: u64 = t - p;
            if m > 3_141_592 {
                (m as i64) - TURN_URAD
            } else {
                m as i64
            }
        }
    }
}

/// One frame of the look controller: subtract the scaled pointer deltas,
/// wrap the yaw, clamp the pitch.  Orientation is all it touches.
pub fn look_apply(o: Orientation, dx: i32, dy: i32) -> (r: Orientation)
    requires
        o.wf(),
    ensures
        r.yaw == yaw_after(o.yaw as int, dx as int),
        r.pitch == pitch_after(o.pitch as int, dy as int),
        r.wf(),
{
    let p_raw: i64 = o.pitch - (dy as i64) * SENSITIVITY_URAD;
    let p: i64 = if p_raw < -PITCH_LIMIT_URAD {
        -PITCH_LIMIT_URAD
    } else if p_raw > PITCH_LIMIT_URAD {
        PITCH_LIMIT_URAD
    } else {
        p_raw
    };
    let y_raw: i64 = o.yaw - (dx as i64) * SENSITIVITY_URAD;
    let y: i64 = wrap_fx(y_raw);
    Orientation { yaw: y, pitch: p }
}

/// However far the pointer moves, the resulting pitch stays inside
/// `[-PITCH_LIMIT_URAD, PITCH_LIMIT_URAD]`.
pub proof fn lemma_pitch_stays_clamped(p: int, dy: int)
    ensures
        -PITCH_LIMIT_URAD <= pitch_after(p, dy) <= PITCH_LIMIT_URAD,
{
}

/// A purely horizontal pointer delta changes yaw only: pitch is untouched.
pub proof fn lemma_horizontal_moves_only_yaw(o: Orientation, dx: int)
    requires
        o.wf(),
    ensures
        pitch_after(o.pitch as int, 0) == o.pitch,
        yaw_after(o.yaw as int, dx) == wrap_angle(o.yaw - dx * SENSITIVITY_URAD),
{
}

/// A purely vertical pointer delta changes pitch only: yaw is untouched.
pub proof fn lemma_vertical_moves_only_pitch(o: Orientation, dy: int)
    requires
        o.wf(),
    ensures
        yaw_after(o.yaw as int, 0) == o.yaw,
        pitch_after(o.pitch as int, dy) == clamp_pitch(o.pitch - dy * SENSITIVITY_URAD),
{
    lemma_wrap_identity(o.yaw as int);
}

} // verus!
