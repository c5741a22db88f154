use mesh_render::camera::{clamp_pitch, Camera, CameraConfig, Vec3i};
use mesh_render::input::KeyState;

fn v(x: i64, y: i64, z: i64) -> Vec3i {
    Vec3i { x, y, z }
}

fn looking_down_minus_z() -> Camera {
    Camera::new(v(0, 0, 0), v(0, 0, -1000), v(0, 0, -1000), v(0, 0, -1000), v(0, 1000, 0), 270_000, 0)
}

#[test]
fn forward_for_one_frame_moves_by_speed_along_front() {
    let mut cam = looking_down_minus_z();
    let mut keys = KeyState::new();
    keys.press(13);
    cam.process_input(&keys, &CameraConfig { move_speed: 4000, turn_rate: 0 });
    assert_eq!(cam.position, v(0, 0, -4000));
    assert_eq!(cam.target, v(0, 0, -5000));
    assert_eq!(cam.yaw, 270_000);
    assert_eq!(cam.pitch, 0);
}

#[test]
fn strafe_and_rise_follow_right_and_up() {
    let mut cam = looking_down_minus_z();
    let mut keys = KeyState::new();
    keys.press(2);
    keys.press(49);
    cam.process_input(&keys, &CameraConfig { move_speed: 500, turn_rate: 0 });
    assert_eq!(cam.position, v(500, 500, 0));
    let mut keys = KeyState::new();
    keys.press(13);
    keys.press(1);
    let before = cam.position;
    cam.process_input(&keys, &CameraConfig { move_speed: 500, turn_rate: 0 });
    assert_eq!(cam.position, before);
}

#[test]
fn pitch_stays_within_89_degrees() {
    let mut cam = looking_down_minus_z();
    let mut keys = KeyState::new();
    keys.press(15);
    let cfg = CameraConfig { move_speed: 0, turn_rate: 50_000 };
    cam.process_input(&keys, &cfg);
    assert_eq!(cam.pitch, 50_000);
    cam.process_input(&keys, &cfg);
    assert_eq!(cam.pitch, 89_000);
    let mut keys = KeyState::new();
    keys.press(3);
    let cfg = CameraConfig { move_speed: 0, turn_rate: u32::MAX };
    cam.process_input(&keys, &cfg);
    assert_eq!(cam.pitch, -89_000);
    assert_eq!(clamp_pitch(-89_001), -89_000);
    assert_eq!(clamp_pitch(12_345), 12_345);
}

#[test]
fn yaw_wraps_within_one_turn() {
    let mut cam = looking_down_minus_z();
    let mut keys = KeyState::new();
    keys.press(14);
    cam.process_input(&keys, &CameraConfig { move_speed: 0, turn_rate: 100_000 });
    assert_eq!(cam.yaw, 10_000);
    let mut keys = KeyState::new();
    keys.press(12);
    cam.process_input(&keys, &CameraConfig { move_speed: 0, turn_rate: 30_000 });
    assert_eq!(cam.yaw, 340_000);
}

#[test]
fn new_brings_fields_into_range() {
    let c = Camera::new(
        v(i64::MAX, 0, i64::MIN),
        v(0, 0, 0),
        v(2000, -3000, 5),
        v(0, 0, -1000),
        v(0, 1000, 0),
        -90_000,
        120_000,
    );
    assert_eq!(c.position, v(1_000_000_000_000_000, 0, -1_000_000_000_000_000));
    assert_eq!(c.direction, v(1000, -1000, 5));
    assert_eq!(c.yaw, 270_000);
    assert_eq!(c.pitch, 89_000);
}

#[test]
fn set_orientation_aims_target() {
    let mut cam = looking_down_minus_z();
    cam.set_orientation(v(1000, 0, 0), v(0, 1000, 0));
    assert_eq!(cam.front, v(1000, 0, 0));
    assert_eq!(cam.direction, v(1000, 0, 0));
    assert_eq!(cam.target, v(1000, 0, 0));
}
