//! Checks of the three controllers on plain values.

use walksim::jump::{jump_arc, jump_frame, jump_height};
use walksim::look::{look_apply, Orientation, PITCH_LIMIT_URAD};
use walksim::motion::{move_delta, HeldKeys};

fn level() -> Orientation {
    Orientation { yaw: 0, pitch: 0 }
}

fn keys(forward: bool, back: bool, left: bool, right: bool) -> HeldKeys {
    HeldKeys { forward, back, left, right }
}

#[test]
fn look_pure_horizontal_changes_only_yaw() {
    let o = look_apply(level(), 10, 0);
    assert_eq!(o.yaw, -17_450);
    assert_eq!(o.pitch, 0);
}

#[test]
fn look_pure_vertical_changes_only_pitch() {
    let o = look_apply(level(), 0, 5);
    assert_eq!(o.yaw, 0);
    assert_eq!(o.pitch, -8_725);
}

#[test]
fn look_pitch_clamps_at_both_poles() {
    let down = look_apply(level(), 0, 100_000);
    assert_eq!(down.pitch, -PITCH_LIMIT_URAD);
    assert_eq!(down.yaw, 0);
    let up = look_apply(down, 0, -1_000_000);
    assert_eq!(up.pitch, PITCH_LIMIT_URAD);
    // pitch never leaves the clamp, whatever piles up
    let again = look_apply(up, 0, -100_000);
    assert_eq!(again.pitch, PITCH_LIMIT_URAD);
}

#[test]
fn look_yaw_wraps_around_a_full_turn() {
    // 2000 counts of sensitivity walk past half a turn
    let o = look_apply(Orientation { yaw: -3_000_000, pitch: 0 }, 2000, 0);
    // raw yaw would be -6_490_000; wrapped back into one turn
    assert_eq!(o.yaw, -206_815);
    assert!(o.yaw >= -3_141_592 && o.yaw <= 3_141_592);
}

#[test]
fn move_no_keys_no_motion() {
    let d = move_delta(level(), keys(false, false, false, false), 1_000_000);
    assert_eq!((d.x, d.y, d.z), (0, 0, 0));
}

#[test]
fn move_single_key_full_speed() {
    // one second forward at level orientation: exactly 3.4 units along -z
    let d = move_delta(level(), keys(true, false, false, false), 1_000_000);
    assert_eq!((d.x, d.y, d.z), (0, 0, -3_400_000));
    // half a second
    let h = move_delta(level(), keys(true, false, false, false), 500_000);
    assert_eq!((h.x, h.y, h.z), (0, 0, -1_700_000));
    // backwards mirrors forwards
    let b = move_delta(level(), keys(false, true, false, false), 1_000_000);
    assert_eq!((b.x, b.y, b.z), (0, 0, 3_400_000));
}

#[test]
fn move_vertical_component_always_zero() {
    // a steep pitch must not leak into vertical motion
    let o = Orientation { yaw: 0, pitch: -500_000 };
    let d = move_delta(o, keys(true, false, false, false), 1_000_000);
    assert_eq!(d.y, 0);
    // and the flattened forward axis still moves at full speed
    assert_eq!((d.x, d.z), (0, -3_400_000));
}

#[test]
fn move_diagonal_is_not_faster() {
    let d = move_delta(level(), keys(true, false, false, true), 1_000_000);
    assert_eq!((d.x, d.y, d.z), (2_404_160, 0, -2_404_160));
    // total horizontal speed stays at most 3.4 units per second
    assert!(d.x * d.x + d.z * d.z <= 3_400_000i64 * 3_400_000);
}

#[test]
fn move_follows_a_turned_camera() {
    // an eighth of a turn to the left, half a second forward
    let o = Orientation { yaw: 785_398, pitch: 0 };
    let d = move_delta(o, keys(true, false, false, false), 500_000);
    assert_eq!((d.x, d.y, d.z), (-1_202_083, 0, -1_202_078));
    // still at most 1.7 units of total distance for the half second
    assert!(d.x * d.x + d.z * d.z <= 1_700_000i64 * 1_700_000);
}

#[test]
fn jump_height_follows_the_parabola() {
    assert_eq!(jump_height(0), 0);
    assert_eq!(jump_height(100_000), 1_902_000);
    assert_eq!(jump_height(1_000_000), 10_200_000);
    assert_eq!(jump_height(2_000_000), 800_000);
    // just past the return to the ground the height is negative
    assert_eq!(jump_height(2_040_817), -13);
    assert_eq!(jump_height(4_000_000), -76_800_000);
}

#[test]
fn jump_arc_stops_when_a_sample_clears_the_origin() {
    let trace = jump_arc(0, 100_000);
    assert_eq!(trace, vec![0, 1_902_000]);
}

#[test]
fn jump_arc_from_below_ground_exits_at_once() {
    // the first sample is height zero, already above the origin
    let trace = jump_arc(-1, 100_000);
    assert_eq!(trace, vec![0]);
}

#[test]
fn jump_arc_unreachable_origin_stops_at_the_cap() {
    // an origin above the arc's peak: every sample stays below it
    let trace = jump_arc(10_204_082, 100_000);
    assert_eq!(trace.len(), 41);
    assert_eq!(*trace.last().unwrap(), -76_800_000);
    assert!(trace.iter().all(|h| *h <= 10_204_082));
}

#[test]
fn jump_frame_idle_without_the_key() {
    let (y, trace) = jump_frame(4_500_000, false, 16_000);
    assert_eq!(y, 4_500_000);
    assert!(trace.is_empty());
}

#[test]
fn jump_frame_lands_on_the_last_sample() {
    let (y, trace) = jump_frame(4_500_000, true, 100_000);
    assert_eq!(trace, vec![0, 1_902_000, 3_608_000, 5_118_000]);
    assert_eq!(y, 5_118_000);
}
