//! The jump controller: a scripted parabolic arc, computed as one
//! blocking sequence of samples inside a single frame update.
//!
//! The height at arc time `t` seconds is `2 * (-4.9 * t^2 + 10 * t)`
//! world units; in micro-units and micro-seconds that is
//! `20 * t - 49 * t * t / 5_000_000`.  The controller samples the arc
//! at multiples of the elapsed frame time until a sample rises above
//! the captured origin height.  Two guards keep the blocking loop
//! finite: the elapsed time must be at least one micro-second, and the
//! arc time is capped well past the arc's return to the ground.

use vstd::prelude::*;

verus! {

/// The arc-time cap, in micro-seconds: four seconds, far beyond the
/// whole arc (the parabola is back to zero height before 2.05 s).
pub const ARC_T_CAP_US: u64 = 4_000_000;

/// No arc sample leaves this band of micro-units.
pub const JUMP_HEIGHT_MAX: i64 = 200_000_000;

/// Arc height in micro-units at arc time `t` micro-seconds:
/// the scaled parabola `2 * (-4.9 t^2 + 10 t)`.
pub open spec fn jump_height_at(t: int) -> int {
    20 * t - (49 * t * t) / 5_000_000
}

/// Evaluate the arc parabola at one arc time.
pub fn jump_height(t_us: u64) -> (h: i64)
    requires
        t_us <= ARC_T_CAP_US,
    ensures
        h == jump_height_at(t_us as int),
        -JUMP_HEIGHT_MAX <= h <= JUMP_HEIGHT_MAX,
{
    proof {
        assert(0 <= 49 * t_us * t_us <= 784_000_000_000_000) by (nonlinear_arith)
            requires
                0 <= t_us <= 4_000_000,
        ;
        assert((49 * (t_us as int) * (t_us as int)) / 5_000_000 <= 156_800_000) by {
            crate::fixed::lemma_div_ordered(
                49 * (t_us as int) * (t_us as int),
                784_000_000_000_000,
                5_000_000,
            );
        }
        assert(0 <= (49 * (t_us as int) * (t_us as int)) / 5_000_000) by (nonlinear_arith)
            requires
                0 <= 49 * (t_us as int) * (t_us as int),
        ;
    }
    let sq: u64 = 49 * t_us * t_us;
    let drop: u64 = sq / 5_000_000;
    20 * (t_us as i64) - (drop as i64)
}

/// The blocking arc: starting at arc time zero, sample the parabola at
/// multiples of the elapsed frame time `dt_us`, stopping at the first
/// sample that rises above the origin height `h0`, or at the arc-time
/// cap.  Returns the whole sampled trace; the last sample is where the
/// camera ends up.
///
/// The first sample is always height zero, so an origin below the ground
/// plane ends the arc immediately.
pub fn jump_arc(h0: i64, dt_us: u64) -> (trace: Vec<i64>)
    requires
        1 <= dt_us,
    ensures
        trace@.len() >= 1,
        forall|i: int|
            0 <= i < trace@.len() ==> #[trigger] trace@[i] == jump_height_at(i * dt_us),
        forall|i: int| 0 <= i < trace@.len() - 1 ==> #[trigger] trace@[i] <= h0,
        trace@.last() > h0 || trace@.len() * dt_us > ARC_T_CAP_US,
        trace@[0] == 0,
        forall|i: int|
            0 <= i < trace@.len() ==> -JUMP_HEIGHT_MAX <= #[trigger] trace@[i] <= JUMP_HEIGHT_MAX,
{
    let mut trace: Vec<i64> = Vec::new();
    let mut t: u64 = 0;
    let mut h: i64 = jump_height(0);
    trace.push(h);
    proof {
        assert(0 * dt_us == 0) by (nonlinear_arith);
        assert(trace@[0] == jump_height_at(0));
    }
    while h <= h0 && dt_us <= ARC_T_CAP_US - t
        invariant
            1 <= dt_us,
            trace@.len() >= 1,
            t == (trace@.len() - 1) * dt_us,
            t <= ARC_T_CAP_US,
            h == trace@.last(),
            forall|i: int|
                0 <= i < trace@.len() ==> #[trigger] trace@[i] == jump_height_at(i * dt_us),
            forall|i: int| 0 <= i < trace@.len() - 1 ==> #[trigger] trace@[i] <= h0,
            trace@[0] == 0,
            forall|i: int|
                0 <= i < trace@.len() ==> -JUMP_HEIGHT_MAX <= #[trigger] trace@[i] <= JUMP_HEIGHT_MAX,
        decreases ARC_T_CAP_US - t,
    {
        t = t + dt_us;
        h = jump_height(t);
        trace.push(h);
        proof {
            let l = trace@.len() as int;
            assert((l - 1) * dt_us == (l - 2) * dt_us + dt_us) by (nonlinear_arith);
            assert(trace@[l - 1] == jump_height_at((l - 1) * dt_us));
        }
    }
    proof {
        let l = trace@.len() as int;
        if !(h <= h0) {
        } else {
            assert(t + dt_us > ARC_T_CAP_US);  // from the loop condition
            assert(l * dt_us == (l - 1) * dt_us + dt_us) by (nonlinear_arith);
        }
    }
    trace
}

/// One frame of the jump controller for the camera's vertical position:
/// while the jump key is held the whole arc runs inside the frame and
/// the camera lands on the arc's last sample; otherwise nothing changes.
/// The returned trace holds every sampled height, in order, for the
/// frame's diagnostics.
///
/// A frame that still sees the key held starts a fresh arc from the
/// new height: the jump re-arms every frame until the key is released.
/// That re-triggering is a quirk of the controller's recipe, kept here
/// rather than smoothed over.
pub fn jump_frame(y0: i64, held: bool, dt_us: u64) -> (r: (i64, Vec<i64>))
    requires
        1 <= dt_us,
    ensures
        !held ==> r.0 == y0 && r.1@.len() == 0,
        held ==> r.1@.len() >= 1 && r.0 == r.1@.last(),
        held ==> forall|i: int|
            0 <= i < r.1@.len() ==> #[trigger] r.1@[i] == jump_height_at(i * dt_us),
        held ==> forall|i: int| 0 <= i < r.1@.len() - 1 ==> #[trigger] r.1@[i] <= y0,
        held ==> (r.0 > y0 || r.1@.len() * dt_us > ARC_T_CAP_US),
        held ==> -JUMP_HEIGHT_MAX <= r.0 <= JUMP_HEIGHT_MAX,
{
    if held {
        let trace = jump_arc(y0, dt_us);
        let last = trace[trace.len() - 1];
        (last, trace)
    } else {
        (y0, Vec::new())
    }
}

} // verus!
