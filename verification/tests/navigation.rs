use archgeom::camera::{Camera, CameraError, CameraUniform, Vec4Fx};
use archgeom::controller::{CameraController, NavButton, NavKey, TrigPair, PITCH_LIMIT};
use archgeom::fixed::Vec3Fx;

fn v3(x: i64, y: i64, z: i64) -> Vec3Fx {
    Vec3Fx { x, y, z }
}

#[test]
fn keyboard_flags_follow_press_and_release() {
    let mut c = CameraController::new(10_000, 3000);
    c.process_keyboard(NavKey::Forward, true);
    c.process_keyboard(NavKey::Left, true);
    assert!(c.forward_pressed && c.left_pressed);
    assert!(!c.backward_pressed && !c.right_pressed && !c.up_pressed && !c.down_pressed);
    c.process_keyboard(NavKey::Forward, false);
    assert!(!c.forward_pressed && c.left_pressed);
}

#[test]
fn only_left_button_drives_looking() {
    let mut c = CameraController::new(10_000, 3000);
    c.process_mouse(NavButton::Right, true);
    assert!(!c.mouse_pressed);
    c.process_mouse(NavButton::Left, true);
    assert!(c.mouse_pressed);
    c.process_mouse(NavButton::Left, false);
    assert!(!c.mouse_pressed);
}

#[test]
fn mouse_look_turns_against_the_pointer() {
    let mut c = CameraController::new(10_000, 3000);
    // 2 pointer counts right (in thousandths): yaw turns by -6 millidegree
    // units per count at this sensitivity
    c.process_mouse_motion(2000, 0);
    assert_eq!(c.get_yaw(), -6000);
    c.process_mouse_motion(-1000, 0);
    assert_eq!(c.get_yaw(), -3000);
}

#[test]
fn pitch_clamps_exactly_at_the_limit() {
    let mut c = CameraController::new(10_000, 3000);
    // one huge upward sweep: the raw result would be 300 degrees
    c.process_mouse_motion(0, -100_000);
    assert_eq!(c.get_pitch(), PITCH_LIMIT);
    // pushing further cannot pass or wrap: still exactly 89 degrees
    for _ in 0..50 {
        c.process_mouse_motion(0, -10_000);
        assert_eq!(c.get_pitch(), PITCH_LIMIT);
    }
    // and the same at the bottom
    c.process_mouse_motion(0, 200_000);
    assert_eq!(c.get_pitch(), -PITCH_LIMIT);
    c.process_mouse_motion(0, 10_000);
    assert_eq!(c.get_pitch(), -PITCH_LIMIT);
}

#[test]
fn small_look_steps_sum_to_the_same_clamp() {
    // many small sweeps whose raw sum passes the limit land exactly on it
    let mut c = CameraController::new(10_000, 1000);
    for _ in 0..90 {
        c.process_mouse_motion(0, -1000);
    }
    // raw total would be 90 degrees; the clamp holds it at 89
    assert_eq!(c.get_pitch(), PITCH_LIMIT);
}

#[test]
fn set_yaw_pitch_resets_and_clamps() {
    let mut c = CameraController::new(10_000, 3000);
    c.set_yaw_pitch(45_000, 120_000);
    assert_eq!(c.get_yaw(), 45_000);
    assert_eq!(c.get_pitch(), PITCH_LIMIT);
    c.set_yaw_pitch(-30_000, -10_000);
    assert_eq!(c.get_pitch(), -10_000);
}

#[test]
fn update_camera_walks_forward_from_yaw() {
    let mut c = CameraController::new(2000, 3000);
    c.process_keyboard(NavKey::Forward, true);
    let mut cam = Camera::new(v3(0, 0, 0), v3(0, 0, 1000), 60_000, 1333);
    // yaw 0: forward is +Z; one second at speed 2 moves 2 units
    let yaw = TrigPair { sin: 0, cos: 1000 };
    let pitch = TrigPair { sin: 0, cos: 1000 };
    c.update_camera(&mut cam, 1000, yaw, pitch);
    assert_eq!(cam.position, v3(0, 0, 2000));
    // the target re-aims one unit ahead along the look direction
    assert_eq!(cam.target, v3(0, 0, 3000));
}

#[test]
fn update_camera_normalizes_diagonal_movement() {
    let mut c = CameraController::new(2000, 3000);
    c.process_keyboard(NavKey::Forward, true);
    c.process_keyboard(NavKey::Right, true);
    let mut cam = Camera::new(v3(0, 0, 0), v3(0, 0, 1000), 60_000, 1333);
    let yaw = TrigPair { sin: 0, cos: 1000 };
    let pitch = TrigPair { sin: 0, cos: 1000 };
    c.update_camera(&mut cam, 1000, yaw, pitch);
    // direction (-1, 0, 1) has resolved length 1414: each axis moves
    // 2000 * 1000 / 1414, not the full 2000
    assert_eq!(cam.position, v3(-1414, 0, 1414));
}

#[test]
fn update_camera_without_keys_only_reaims() {
    let c = CameraController::new(2000, 3000);
    let mut cam = Camera::new(v3(100, 200, 300), v3(0, 0, 0), 60_000, 1333);
    // looking 30 degrees up at yaw 90: sin/cos pairs for both angles
    let yaw = TrigPair { sin: 1000, cos: 0 };
    let pitch = TrigPair { sin: 500, cos: 866 };
    c.update_camera(&mut cam, 16, yaw, pitch);
    assert_eq!(cam.position, v3(100, 200, 300));
    assert_eq!(cam.target, v3(100 + 866, 200 + 500, 300));
}

#[test]
fn vertical_movement_uses_world_up() {
    let mut c = CameraController::new(3000, 3000);
    c.process_keyboard(NavKey::Up, true);
    let mut cam = Camera::new(v3(0, 0, 0), v3(0, 0, 1000), 60_000, 1333);
    let yaw = TrigPair { sin: 707, cos: 707 };
    let pitch = TrigPair { sin: 0, cos: 1000 };
    c.update_camera(&mut cam, 500, yaw, pitch);
    // up is world +Y whatever the yaw; speed 3 for half a second
    assert_eq!(cam.position, v3(0, 1500, 0));
}

#[test]
fn camera_from_scene_adopts_aspect() {
    let sc = archgeom::scene::Camera {
        position: v3(0, 1500, -3000),
        target: v3(0, 1500, 0),
        fov: 60_000,
    };
    let cam = Camera::from_scene(&sc, 1778);
    assert_eq!(cam.position, v3(0, 1500, -3000));
    assert_eq!(cam.target, v3(0, 1500, 0));
    assert_eq!(cam.fov, 60_000);
    assert_eq!(cam.aspect, 1778);
}

#[test]
fn uniform_starts_as_identity() {
    let u = CameraUniform::new();
    assert_eq!(u.view_proj.r0.x, 1000);
    assert_eq!(u.view_proj.r1.y, 1000);
    assert_eq!(u.view_proj.r2.z, 1000);
    assert_eq!(u.view_proj.r3.w, 1000);
    assert_eq!(u.view_proj.r0.y, 0);
    assert_eq!(u.camera_pos, Vec4Fx { x: 0, y: 0, z: 0, w: 0 });
}

#[test]
fn view_proj_down_negative_z_at_square_aspect() {
    // eye at the origin looking down -Z, 90-degree field of view
    // (tan of the half angle is 1), square aspect
    let cam = Camera::new(v3(0, 0, 0), v3(0, 0, -1000), 90_000, 1000);
    let mut u = CameraUniform::new();
    u.update_view_proj(&cam, 1000).unwrap();
    assert_eq!(u.view_proj.r0, Vec4Fx { x: 1000, y: 0, z: 0, w: 0 });
    assert_eq!(u.view_proj.r1, Vec4Fx { x: 0, y: 1000, z: 0, w: 0 });
    // depth row: far/(near - far) lands at -1 with a -0.1 translation
    assert_eq!(u.view_proj.r2, Vec4Fx { x: 0, y: 0, z: -1000, w: -100 });
    assert_eq!(u.view_proj.r3, Vec4Fx { x: 0, y: 0, z: -1000, w: 0 });
    assert_eq!(u.camera_pos, Vec4Fx { x: 0, y: 0, z: 0, w: 0 });
}

#[test]
fn view_proj_translation_follows_the_eye() {
    // same view shifted one unit right: the side translation appears
    let cam = Camera::new(v3(1000, 0, 0), v3(1000, 0, -1000), 90_000, 1000);
    let mut u = CameraUniform::new();
    u.update_view_proj(&cam, 1000).unwrap();
    // -dot(s, eye) = -1.0, scaled by the unit focal term
    assert_eq!(u.view_proj.r0, Vec4Fx { x: 1000, y: 0, z: 0, w: -1000 });
    assert_eq!(u.camera_pos, Vec4Fx { x: 1000, y: 0, z: 0, w: 0 });
}

#[test]
fn view_proj_rejects_degenerate_views() {
    let mut u = CameraUniform::new();
    let before = u;
    // the target on the eye
    let cam = Camera::new(v3(0, 0, 0), v3(0, 0, 0), 90_000, 1000);
    assert!(matches!(u.update_view_proj(&cam, 1000), Err(CameraError::DegenerateView)));
    // looking straight up the world axis
    let pole = Camera::new(v3(0, 0, 0), v3(0, 5000, 0), 90_000, 1000);
    assert!(matches!(u.update_view_proj(&pole, 1000), Err(CameraError::DegenerateView)));
    assert_eq!(u.view_proj, before.view_proj);
}
