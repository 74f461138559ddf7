//! The scene: a small entity list built once at startup, holding the
//! static objects and the single camera, and the per-frame entry points
//! that the host runtime calls.
//!
//! Exactly one camera entity must exist; every controller looks it up
//! first and reports a typed error when it is missing or duplicated,
//! leaving the scene untouched.

use vstd::prelude::*;
use crate::geom::Vec3;
use crate::look::{Orientation, look_apply, pitch_after, yaw_after};
use crate::motion::{HeldKeys, move_delta, move_delta_x, move_delta_z, DT_MAX_US};
use crate::jump::{jump_height_at, ARC_T_CAP_US};
use crate::trig::HALF_PI_URAD;

verus! {

/// Camera positions a frame update accepts, in micro-units; far inside
/// the representable range so one movement step can never overflow.
pub const POS_LIMIT: i64 = 9_000_000_000_000_000_000;

/// A material colour.
#[derive(Clone, Copy, PartialEq, Eq, Structural, Debug)]
pub struct Rgb {
    pub r: u8,
    pub g: u8,
    pub b: u8,
}

/// What an entity is; the shape and role follow from the kind.
#[derive(Clone, Copy, PartialEq, Eq, Structural, Debug)]
pub enum EntityKind {
    /// The large flat ground disk.
    Ground,
    /// The unit cube resting on the ground.
    Cube,
    /// The shadow-casting point light.
    Light,
    /// The controllable viewpoint.
    Camera,
}

/// Position and orientation of one entity.
#[derive(Clone, Copy, PartialEq, Eq, Structural, Debug)]
pub struct Transform {
    pub position: Vec3,
    pub orientation: Orientation,
}

/// One scene entity.
#[derive(Clone, Copy, PartialEq, Eq, Structural, Debug)]
pub struct Entity {
    pub kind: EntityKind,
    pub transform: Transform,
    pub color: Rgb,
}

/// The singleton-camera precondition was violated.
#[derive(Clone, Copy, PartialEq, Eq, Structural, Debug)]
pub enum SceneError {
    /// No camera entity exists.
    CameraMissing,
    /// More than one camera entity exists.
    CameraConflict,
}

/// How many camera entities a sequence holds.
pub open spec fn num_cameras(s: Seq<Entity>) -> int
    decreases s.len(),
{
    if s.len() == 0 {
        0
    } else {
        num_cameras(s.drop_last()) + (if s.last().kind is Camera {
            1int
        } else {
            0int
        })
    }
}

/// Index `i` holds a camera entity.
pub open spec fn camera_at(s: Seq<Entity>, i: int) -> bool {
    0 <= i < s.len() && s[i].kind is Camera
}

/// The index of the camera, meaningful when exactly one exists.
pub open spec fn cam_index(s: Seq<Entity>) -> int {
    choose|i: int| camera_at(s, i)
}

/// The whole scene-graph state.
pub struct Scene {
    pub entities: Vec<Entity>,
}

impl Scene {
    /// Every camera entity carries a well-formed orientation.
    pub open spec fn wf(self) -> bool {
        forall|i: int|
            0 <= i < self.entities@.len() && (#[trigger] self.entities@[i]).kind is Camera
                ==> self.entities@[i].transform.orientation.wf()
    }

    /// Find the single camera entity; report a typed error when zero or
    /// several exist.
    pub fn camera_index(&self) -> (r: Result<usize, SceneError>)
        ensures
            match r {
                Ok(i) => {
                    &&& camera_at(self.entities@, i as int)
                    &&& forall|j: int| camera_at(self.entities@, j) ==> j == i as int
                    &&& num_cameras(self.entities@) == 1
                    &&& cam_index(self.entities@) == i as int
                },
                Err(e) => {
                    &&& e == SceneError::CameraMissing ==> num_cameras(self.entities@) == 0
                    &&& e == SceneError::CameraConflict ==> num_cameras(self.entities@) >= 2
                    &&& num_cameras(self.entities@) != 1
                },
            },
    {
        let n = self.entities.len();
        let mut i: usize = 0;
        let mut cnt: usize = 0;
        let mut idx: usize = 0;
        while i < n
            invariant
                n == self.entities@.len(),
                i <= n,
                cnt <= i,
                cnt == num_cameras(self.entities@.take(i as int)),
                cnt >= 1 ==> idx < i && self.entities@[idx as int].kind is Camera,
                forall|j: int|
                    0 <= j < i && (#[trigger] self.entities@[j]).kind is Camera
                        ==> (cnt >= 1 && (cnt >= 2 || j == idx as int)),
            decreases n - i,
        {
            proof {
                assert(self.entities@.take(i + 1).drop_last() =~= self.entities@.take(i as int));
                assert(self.entities@.take(i + 1).last() == self.entities@[i as int]);
            }
            match self.entities[i].kind {
                EntityKind::Camera => {
                    if cnt == 0 {
                        idx = i;
                    }
                    cnt = cnt + 1;
                },
                _ => {},
            }
            i = i + 1;
        }
        proof {
            assert(self.entities@.take(n as int) =~= self.entities@);
        }
        if cnt == 0 {
            Err(SceneError::CameraMissing)
        } else if cnt > 1 {
            Err(SceneError::CameraConflict)
        } else {
            proof {
                assert(camera_at(self.entities@, idx as int));
                assert(cam_index(self.entities@) == idx as int) by {
                    let c = cam_index(self.entities@);
                    assert(camera_at(self.entities@, c));
                }
            }
            Ok(idx)
        }
    }

    /// One frame of the look controller on the scene: rotate the single
    /// camera by the pointer deltas.  Everything but the camera's
    /// orientation is left as it was; on error nothing changes at all.
    pub fn look_frame(&mut self, dx: i32, dy: i32) -> (r: Result<(), SceneError>)
        requires
            old(self).wf(),
        ensures
            final(self).wf(),
            match r {
                Ok(_) => {
                    &&& num_cameras(old(self).entities@) == 1
                    &&& camera_at(old(self).entities@, cam_index(old(self).entities@))
                    &&& final(self).entities@.len() == old(self).entities@.len()
                    &&& forall|j: int|
                        0 <= j < old(self).entities@.len() && j != cam_index(old(self).entities@)
                            ==> #[trigger] final(self).entities@[j] == old(self).entities@[j]
                    &&& final(self).entities@[cam_index(old(self).entities@)].kind
                        == old(self).entities@[cam_index(old(self).entities@)].kind
                    &&& final(self).entities@[cam_index(old(self).entities@)].color
                        == old(self).entities@[cam_index(old(self).entities@)].color
                    &&& final(self).entities@[cam_index(old(self).entities@)].transform.position
                        == old(self).entities@[cam_index(old(self).entities@)].transform.position
                    &&& final(self).entities@[cam_index(old(self).entities@)].transform.orientation.yaw
                        == yaw_after(
                        old(self).entities@[cam_index(old(self).entities@)].transform.orientation.yaw as int,
                        dx as int,
                    )
                    &&& final(self).entities@[cam_index(old(self).entities@)].transform.orientation.pitch
                        == pitch_after(
                        old(self).entities@[cam_index(old(self).entities@)].transform.orientation.pitch as int,
                        dy as int,
                    )
                },
                Err(e) => {
                    &&& *final(self) == *old(self)
                    &&& e == SceneError::CameraMissing ==> num_cameras(final(self).entities@) == 0
                    &&& e == SceneError::CameraConflict ==> num_cameras(final(self).entities@) >= 2
                    &&& num_cameras(final(self).entities@) != 1
                },
            },
    {
        let i = match self.camera_index() {
            Ok(i) => i,
            Err(e) => {
                return Err(e);
            },
        };
        let ent = self.entities[i];
        let o2 = look_apply(ent.transform.orientation, dx, dy);
        self.entities[i] = Entity {
            kind: ent.kind,
            transform: Transform { position: ent.transform.position, orientation: o2 },
            color: ent.color,
        };
        Ok(())
    }

    /// One frame of the move controller on the scene: push the single
    /// camera along the horizontal plane for the held keys and elapsed
    /// micro-seconds.  The vertical position and the orientation are
    /// untouched; on error nothing changes at all.
    pub fn move_frame(&mut self, keys: HeldKeys, dt_us: u64) -> (r: Result<(), SceneError>)
        requires
            old(self).wf(),
            dt_us <= DT_MAX_US,
            forall|i: int|
                camera_at(old(self).entities@, i)
                    ==> -POS_LIMIT <= (#[trigger] old(self).entities@[i]).transform.position.x
                        <= POS_LIMIT
                    && -POS_LIMIT <= old(self).entities@[i].transform.position.z <= POS_LIMIT,
        ensures
            final(self).wf(),
            match r {
                Ok(_) => {
                    &&& num_cameras(old(self).entities@) == 1
                    &&& camera_at(old(self).entities@, cam_index(old(self).entities@))
                    &&& final(self).entities@.len() == old(self).entities@.len()
                    &&& forall|j: int|
                        0 <= j < old(self).entities@.len() && j != cam_index(old(self).entities@)
                            ==> #[trigger] final(self).entities@[j] == old(self).entities@[j]
                    &&& final(self).entities@[cam_index(old(self).entities@)].kind
                        == old(self).entities@[cam_index(old(self).entities@)].kind
                    &&& final(self).entities@[cam_index(old(self).entities@)].color
                        == old(self).entities@[cam_index(old(self).entities@)].color
                    &&& final(self).entities@[cam_index(old(self).entities@)].transform.orientation
                        == old(self).entities@[cam_index(old(self).entities@)].transform.orientation
                    &&& final(self).entities@[cam_index(old(self).entities@)].transform.position.x
                        == old(self).entities@[cam_index(old(self).entities@)].transform.position.x
                        + move_delta_x(
                        old(self).entities@[cam_index(old(self).entities@)].transform.orientation,
                        keys,
                        dt_us as int,
                    )
                    &&& final(self).entities@[cam_index(old(self).entities@)].transform.position.y
                        == old(self).entities@[cam_index(old(self).entities@)].transform.position.y
                    &&& final(self).entities@[cam_index(old(self).entities@)].transform.position.z
                        == old(self).entities@[cam_index(old(self).entities@)].transform.position.z
                        + move_delta_z(
                        old(self).entities@[cam_index(old(self).entities@)].transform.orientation,
                        keys,
                        dt_us as int,
                    )
                },
                Err(e) => {
                    &&& *final(self) == *old(self)
                    &&& e == SceneError::CameraMissing ==> num_cameras(final(self).entities@) == 0
                    &&& e == SceneError::CameraConflict ==> num_cameras(final(self).entities@) >= 2
                    &&& num_cameras(final(self).entities@) != 1
                },
            },
    {
        let i = match self.camera_index() {
            Ok(i) => i,
            Err(e) => {
                return Err(e);
            },
        };
        let ent = self.entities[i];
        let d = move_delta(ent.transform.orientation, keys, dt_us);
        let p = ent.transform.position;
        let p2 = Vec3 { x: p.x + d.x, y: p.y, z: p.z + d.z };
        self.entities[i] = Entity {
            kind: ent.kind,
            transform: Transform { position: p2, orientation: ent.transform.orientation },
            color: ent.color,
        };
        Ok(())
    }

    /// One frame of the jump controller on the scene: while the jump key
    /// is held, run the whole blocking arc from the camera's vertical
    /// position and land on its last sample.  Returns the sampled trace
    /// for diagnostics; on error nothing changes at all.
    pub fn jump_frame(&mut self, held: bool, dt_us: u64) -> (r: Result<Vec<i64>, SceneError>)
        requires
            old(self).wf(),
            1 <= dt_us,
        ensures
            final(self).wf(),
            match r {
                Ok(trace) => {
                    &&& num_cameras(old(self).entities@) == 1
                    &&& camera_at(old(self).entities@, cam_index(old(self).entities@))
                    &&& final(self).entities@.len() == old(self).entities@.len()
                    &&& forall|j: int|
                        0 <= j < old(self).entities@.len() && j != cam_index(old(self).entities@)
                            ==> #[trigger] final(self).entities@[j] == old(self).entities@[j]
                    &&& final(self).entities@[cam_index(old(self).entities@)].kind
                        == old(self).entities@[cam_index(old(self).entities@)].kind
                    &&& final(self).entities@[cam_index(old(self).entities@)].color
                        == old(self).entities@[cam_index(old(self).entities@)].color
                    &&& final(self).entities@[cam_index(old(self).entities@)].transform.orientation
                        == old(self).entities@[cam_index(old(self).entities@)].transform.orientation
                    &&& final(self).entities@[cam_index(old(self).entities@)].transform.position.x
                        == old(self).entities@[cam_index(old(self).entities@)].transform.position.x
                    &&& final(self).entities@[cam_index(old(self).entities@)].transform.position.z
                        == old(self).entities@[cam_index(old(self).entities@)].transform.position.z
                    &&& !held ==> trace@.len() == 0
                        && final(self).entities@[cam_index(old(self).entities@)].transform.position.y
                        == old(self).entities@[cam_index(old(self).entities@)].transform.position.y
                    &&& held ==> trace@.len() >= 1
                        && final(self).entities@[cam_index(old(self).entities@)].transform.position.y
                        == trace@.last()
                        && trace@[0] == 0
                        && (forall|k: int|
                            0 <= k < trace@.len() ==> #[trigger] trace@[k] == jump_height_at(
                                k * dt_us,
                            ))
                        && (forall|k: int|
                            0 <= k < trace@.len() - 1 ==> #[trigger] trace@[k]
                                <= old(self).entities@[cam_index(old(self).entities@)].transform.position.y)
                        && (trace@.last()
                            > old(self).entities@[cam_index(old(self).entities@)].transform.position.y
                            || trace@.len() * dt_us > ARC_T_CAP_US)
                },
                Err(e) => {
                    &&& *final(self) == *old(self)
                    &&& e == SceneError::CameraMissing ==> num_cameras(final(self).entities@) == 0
                    &&& e == SceneError::CameraConflict ==> num_cameras(final(self).entities@) >= 2
                    &&& num_cameras(final(self).entities@) != 1
                },
            },
    {
        let i = match self.camera_index() {
            Ok(i) => i,
            Err(e) => {
                return Err(e);
            },
        };
        let ent = self.entities[i];
        let p = ent.transform.position;
        let (y2, trace) = crate::jump::jump_frame(p.y, held, dt_us);
        let p2 = Vec3 { x: p.x, y: y2, z: p.z };
        self.entities[i] = Entity {
            kind: ent.kind,
            transform: Transform { position: p2, orientation: ent.transform.orientation },
            color: ent.color,
        };
        Ok(trace)
    }
}

/// Where the camera starts, in micro-units.
pub const CAMERA_START_X: i64 = -2_500_000;

/// Vertical start of the camera.
pub const CAMERA_START_Y: i64 = 4_500_000;

/// Depth start of the camera.
pub const CAMERA_START_Z: i64 = 9_000_000;

/// Yaw that faces the world origin from the camera's start position.
pub const CAMERA_START_YAW_URAD: i64 = -270_947;

/// Pitch that faces the world origin from the camera's start position.
pub const CAMERA_START_PITCH_URAD: i64 = -448_949;

/// Build the initial scene, exactly once, before any frame update: the
/// blue ground disk lying flat, the light-blue unit cube resting on it,
/// the shadow-casting point light, and the single camera at its start
/// position oriented toward the world origin.
pub fn bootstrap_scene() -> (s: Scene)
    ensures
        s.wf(),
        num_cameras(s.entities@) == 1,
        cam_index(s.entities@) == 3,
        s.entities@.len() == 4,
        s.entities@[0] == (Entity {
            kind: EntityKind::Ground,
            transform: Transform {
                position: Vec3 { x: 0, y: 0, z: 0 },
                orientation: Orientation { yaw: 0, pitch: (-HALF_PI_URAD) as i64 },
            },
            color: Rgb { r: 0, g: 0, b: 255 },
        }),
        s.entities@[1] == (Entity {
            kind: EntityKind::Cube,
            transform: Transform {
                position: Vec3 { x: 0, y: 500_000, z: 0 },
                orientation: Orientation { yaw: 0, pitch: 0 },
            },
            color: Rgb { r: 124, g: 144, b: 255 },
        }),
        s.entities@[2] == (Entity {
            kind: EntityKind::Light,
            transform: Transform {
                position: Vec3 { x: 4_000_000, y: 8_000_000, z: 4_000_000 },
                orientation: Orientation { yaw: 0, pitch: 0 },
            },
            color: Rgb { r: 255, g: 255, b: 255 },
        }),
        s.entities@[3] == (Entity {
            kind: EntityKind::Camera,
            transform: Transform {
                position: Vec3 { x: CAMERA_START_X, y: CAMERA_START_Y, z: CAMERA_START_Z },
                orientation: Orientation {
                    yaw: CAMERA_START_YAW_URAD,
                    pitch: CAMERA_START_PITCH_URAD,
                },
            },
            color: Rgb { r: 0, g: 0, b: 0 },
        }),
{
    let ground = Entity {
        kind: EntityKind::Ground,
        transform: Transform {
            position: Vec3 { x: 0, y: 0, z: 0 },
            orientation: Orientation { yaw: 0, pitch: -HALF_PI_URAD },
        },
        color: Rgb { r: 0, g: 0, b: 255 },
    };
    let cube = Entity {
        kind: EntityKind::Cube,
        transform: Transform {
            position: Vec3 { x: 0, y: 500_000, z: 0 },
            orientation: Orientation { yaw: 0, pitch: 0 },
        },
        color: Rgb { r: 124, g: 144, b: 255 },
    };
    let light = Entity {
        kind: EntityKind::Light,
        transform: Transform {
            position: Vec3 { x: 4_000_000, y: 8_000_000, z: 4_000_000 },
            orientation: Orientation { yaw: 0, pitch: 0 },
        },
        color: Rgb { r: 255, g: 255, b: 255 },
    };
    let camera = Entity {
        kind: EntityKind::Camera,
        transform: Transform {
            position: Vec3 { x: CAMERA_START_X, y: CAMERA_START_Y, z: CAMERA_START_Z },
            orientation: Orientation {
                yaw: CAMERA_START_YAW_URAD,
                pitch: CAMERA_START_PITCH_URAD,
            },
        },
        color: Rgb { r: 0, g: 0, b: 0 },
    };
    let mut entities: Vec<Entity> = Vec::new();
    entities.push(ground);
    entities.push(cube);
    entities.push(light);
    entities.push(camera);
    let s = Scene { entities };
    proof {
        let e = s.entities@;
        let e3 = e.drop_last();
        let e2 = e3.drop_last();
        let e1 = e2.drop_last();
        let e0 = e1.drop_last();
        assert(e0.len() == 0);
        assert(num_cameras(e0) == 0);
        assert(e1.last() == ground);
        assert(num_cameras(e1) == 0);
        assert(e2.last() == cube);
        assert(num_cameras(e2) == 0);
        assert(e3.last() == light);
        assert(num_cameras(e3) == 0);
        assert(e.last() == camera);
        assert(num_cameras(e) == 1);
        assert(camera_at(e, 3));
        assert(forall|j: int| camera_at(e, j) ==> j == 3);
        assert(cam_index(e) == 3) by {
            let c = cam_index(e);
            assert(camera_at(e, c));
        }
    }
    s
}

} // verus!
