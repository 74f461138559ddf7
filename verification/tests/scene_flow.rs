//! Checks of scene bootstrap, the singleton-camera lookup and the
//! per-frame entry points end to end.

use walksim::geom::Vec3;
use walksim::look::Orientation;
use walksim::motion::HeldKeys;
use walksim::scene::{
    bootstrap_scene, Entity, EntityKind, Rgb, Scene, SceneError, Transform, CAMERA_START_PITCH_URAD,
    CAMERA_START_X, CAMERA_START_Y, CAMERA_START_YAW_URAD, CAMERA_START_Z,
};

fn camera_entity(scene: &Scene) -> Entity {
    let i = scene.camera_index().unwrap();
    scene.entities[i]
}

fn plain_camera(x: i64, y: i64, z: i64) -> Entity {
    Entity {
        kind: EntityKind::Camera,
        transform: Transform {
            position: Vec3 { x, y, z },
            orientation: Orientation { yaw: 0, pitch: 0 },
        },
        color: Rgb { r: 0, g: 0, b: 0 },
    }
}

#[test]
fn bootstrap_builds_the_whole_scene_once() {
    let s = bootstrap_scene();
    assert_eq!(s.entities.len(), 4);
    assert!(matches!(s.entities[0].kind, EntityKind::Ground));
    assert!(matches!(s.entities[1].kind, EntityKind::Cube));
    assert!(matches!(s.entities[2].kind, EntityKind::Light));
    assert!(matches!(s.entities[3].kind, EntityKind::Camera));
    // ground: blue disk at the origin, lying flat
    assert_eq!(s.entities[0].color, Rgb { r: 0, g: 0, b: 255 });
    assert_eq!(s.entities[0].transform.orientation.pitch, -1_570_796);
    // cube: light blue, resting half a unit up
    assert_eq!(s.entities[1].color, Rgb { r: 124, g: 144, b: 255 });
    assert_eq!(s.entities[1].transform.position, Vec3 { x: 0, y: 500_000, z: 0 });
    // light at its fixed offset
    assert_eq!(
        s.entities[2].transform.position,
        Vec3 { x: 4_000_000, y: 8_000_000, z: 4_000_000 },
    );
}

#[test]
fn bootstrap_camera_position_and_aim() {
    let s = bootstrap_scene();
    assert_eq!(s.camera_index(), Ok(3));
    let cam = camera_entity(&s);
    assert_eq!(
        cam.transform.position,
        Vec3 { x: -2_500_000, y: 4_500_000, z: 9_000_000 },
    );
    assert_eq!(cam.transform.position.x, CAMERA_START_X);
    assert_eq!(cam.transform.position.y, CAMERA_START_Y);
    assert_eq!(cam.transform.position.z, CAMERA_START_Z);
    // oriented toward the world origin
    assert_eq!(cam.transform.orientation.yaw, CAMERA_START_YAW_URAD);
    assert_eq!(cam.transform.orientation.pitch, CAMERA_START_PITCH_URAD);
    assert_eq!(cam.transform.orientation.yaw, -270_947);
    assert_eq!(cam.transform.orientation.pitch, -448_949);
}

#[test]
fn missing_camera_is_a_typed_error() {
    let mut s = Scene { entities: Vec::new() };
    assert_eq!(s.camera_index(), Err(SceneError::CameraMissing));
    assert_eq!(s.look_frame(1, 1), Err(SceneError::CameraMissing));
    assert_eq!(
        s.move_frame(HeldKeys { forward: true, back: false, left: false, right: false }, 16_000),
        Err(SceneError::CameraMissing),
    );
    assert_eq!(s.jump_frame(true, 16_000), Err(SceneError::CameraMissing));
    assert!(s.entities.is_empty());
}

#[test]
fn duplicated_camera_is_a_typed_error() {
    let mut s = Scene { entities: vec![plain_camera(0, 0, 0), plain_camera(1, 1, 1)] };
    assert_eq!(s.camera_index(), Err(SceneError::CameraConflict));
    assert_eq!(s.look_frame(1, 1), Err(SceneError::CameraConflict));
    assert_eq!(s.entities.len(), 2);
    assert_eq!(s.entities[0].transform.position, Vec3 { x: 0, y: 0, z: 0 });
}

#[test]
fn pointer_frame_from_bootstrap() {
    // sensitivity 0.1 degrees per count: dx = 10 turns the camera by
    // exactly one degree of yaw and leaves pitch alone
    let mut s = bootstrap_scene();
    s.look_frame(10, 0).unwrap();
    let cam = camera_entity(&s);
    assert_eq!(cam.transform.orientation.yaw, CAMERA_START_YAW_URAD - 17_450);
    assert_eq!(cam.transform.orientation.pitch, CAMERA_START_PITCH_URAD);
    // the rest of the scene is untouched
    assert_eq!(s.entities[0], bootstrap_scene().entities[0]);
    assert_eq!(s.entities[1], bootstrap_scene().entities[1]);
    assert_eq!(s.entities[2], bootstrap_scene().entities[2]);
}

#[test]
fn movement_frame_from_bootstrap() {
    let mut s = bootstrap_scene();
    s.move_frame(HeldKeys { forward: true, back: false, left: false, right: false }, 1_000_000)
        .unwrap();
    let cam = camera_entity(&s);
    // one second forward from the bootstrap aim, flattened and at
    // exactly 3.4 units per second overall
    assert_eq!(
        cam.transform.position,
        Vec3 { x: -2_500_000 + 909_986, y: 4_500_000, z: 9_000_000 - 3_275_961 },
    );
    assert_eq!(cam.transform.orientation.yaw, CAMERA_START_YAW_URAD);
}

#[test]
fn strafe_frame_from_bootstrap() {
    let mut s = bootstrap_scene();
    s.move_frame(HeldKeys { forward: false, back: false, left: true, right: false }, 250_000)
        .unwrap();
    let cam = camera_entity(&s);
    assert_eq!(
        cam.transform.position,
        Vec3 { x: -2_500_000 - 818_990, y: 4_500_000, z: 9_000_000 - 227_497 },
    );
}

#[test]
fn jump_frame_from_bootstrap() {
    let mut s = bootstrap_scene();
    let trace = s.jump_frame(true, 100_000).unwrap();
    assert_eq!(trace, vec![0, 1_902_000, 3_608_000, 5_118_000]);
    let cam = camera_entity(&s);
    assert_eq!(cam.transform.position.y, 5_118_000);
    assert_eq!(cam.transform.position.x, CAMERA_START_X);
    assert_eq!(cam.transform.position.z, CAMERA_START_Z);
    // without the key nothing moves
    let silent = s.jump_frame(false, 100_000).unwrap();
    assert!(silent.is_empty());
    assert_eq!(camera_entity(&s).transform.position.y, 5_118_000);
}
