use mather_engine::camera::{Camera, CAM_FOVY, CAM_SENSITIVITY, CAM_SPEED, DT_CAP};
use mather_engine::fixed::{FX_ONE, TWO_PI};
use mather_engine::input::KeyCode;
use mather_engine::math::Vec3;

fn camera_at_origin() -> Camera {
    Camera::new(Vec3 { x: 0, y: 0, z: 0 }, 0, 0)
}

#[test]
fn new_camera_has_the_documented_defaults() {
    let cam = camera_at_origin();
    assert_eq!(cam.speed, CAM_SPEED);
    assert_eq!(cam.sensitivity, CAM_SENSITIVITY);
    assert_eq!(cam.fovy, CAM_FOVY);
    assert_eq!(cam.yaw, 0);
    assert_eq!(cam.pitch, 0);
    assert_eq!(cam.roll, 0);
    assert!(cam.rotation_origin.is_none());
}

#[test]
fn pitch_stays_within_the_fovy_clamp() {
    let mut cam = camera_at_origin();
    cam.start_rotation((0, 0));
    // Extreme downward drags, cursor reset to the origin between events.
    for _ in 0..50 {
        cam.process_mouse_move((0, 900_000_000_000), true);
        assert!(-cam.fovy <= cam.pitch && cam.pitch <= cam.fovy);
    }
    assert_eq!(cam.pitch, -CAM_FOVY);
    // Extreme upward drags.
    for _ in 0..100 {
        cam.process_mouse_move((0, -900_000_000_000), true);
        assert!(-cam.fovy <= cam.pitch && cam.pitch <= cam.fovy);
    }
    assert_eq!(cam.pitch, CAM_FOVY);
    // Frame updates keep the clamp too.
    cam.update(DT_CAP);
    assert!(-cam.fovy <= cam.pitch && cam.pitch <= cam.fovy);
}

#[test]
fn drag_deltas_accumulate_from_the_origin_anchor() {
    let mut cam = camera_at_origin();
    let origin = (400_000_000i64, 300_000_000i64);
    cam.set_rotation_origin(origin);
    cam.start_rotation(origin);
    // One pixel is one fixed unit; contribution = dx * sensitivity.
    let dx = 10_000_000i64;
    let contrib = 10_000_000i64 / FX_ONE * CAM_SENSITIVITY;
    let yaw0 = cam.yaw;
    // The same delta twice, with the cursor reset to the origin in
    // between (the engine re-anchors its baseline itself), must yield
    // double the rotation, not zero.
    let moved1 = cam.process_mouse_move((origin.0 + dx, origin.1), true);
    assert!(moved1);
    assert_eq!(cam.last_mouse_pos, Some(origin));
    let moved2 = cam.process_mouse_move((origin.0 + dx, origin.1), true);
    assert!(moved2);
    assert_eq!(cam.yaw, (yaw0 + 2 * contrib) % TWO_PI);
    // A zero delta changes nothing and asks for no cursor reset.
    let moved3 = cam.process_mouse_move((origin.0, origin.1), true);
    assert!(!moved3);
}

#[test]
fn releasing_the_button_clears_the_tracking_state() {
    let mut cam = camera_at_origin();
    cam.start_rotation((5, 5));
    assert_eq!(cam.last_mouse_pos, Some((5, 5)));
    assert_eq!(cam.get_rotation_origin(), Some((5, 5)));
    cam.end_rotation();
    assert!(cam.last_mouse_pos.is_none());
    assert!(cam.get_rotation_origin().is_none());
    // A move while the button is up only drops the baseline.
    let moved = cam.process_mouse_move((9, 9), false);
    assert!(!moved);
    assert!(cam.last_mouse_pos.is_none());
    // The first move while pressed only sets the baseline.
    let first = cam.process_mouse_move((9, 9), true);
    assert!(!first);
    assert_eq!(cam.last_mouse_pos, Some((9, 9)));
}

#[test]
fn movement_keys_drive_the_held_flags() {
    let mut cam = camera_at_origin();
    assert!(cam.process_keyboard(KeyCode::W, true));
    assert!(cam.is_forward_pressed);
    assert!(cam.process_keyboard(KeyCode::Up, false));
    assert!(!cam.is_forward_pressed);
    assert!(cam.process_keyboard(KeyCode::Q, true));
    assert!(cam.is_down_pressed);
    assert!(cam.process_keyboard(KeyCode::Scroll, true));
    assert!(cam.is_roll_right_pressed);
    assert!(!cam.process_keyboard(KeyCode::I, true));
    assert!(!cam.process_keyboard(KeyCode::Other(42), true));
}

#[test]
fn update_reports_change_only_when_keys_are_held() {
    let mut cam = camera_at_origin();
    assert!(!cam.update(16_000));
    cam.process_keyboard(KeyCode::W, true);
    assert!(cam.update(16_000));
    let moved_position = cam.position;
    assert_ne!(moved_position, Vec3 { x: 0, y: 0, z: 0 });
}

#[test]
fn diagonal_movement_is_not_faster() {
    // One key held: the displacement of one update at the capped frame
    // time.
    let mut axial = camera_at_origin();
    axial.process_keyboard(KeyCode::W, true);
    axial.update(DT_CAP);
    let a = axial.position;
    let a_mag2 = a.x * a.x + a.y * a.y + a.z * a.z;

    // Two keys held: the normalized diagonal displacement.
    let mut diagonal = camera_at_origin();
    diagonal.process_keyboard(KeyCode::W, true);
    diagonal.process_keyboard(KeyCode::D, true);
    diagonal.update(DT_CAP);
    let d = diagonal.position;
    let d_mag2 = d.x * d.x + d.y * d.y + d.z * d.z;

    // Both displacements have magnitude speed * dt = 0.3 units, up to
    // fixed-point rounding of the normalization: within one percent.
    let expected = 300_000i64 * 300_000i64;
    assert!((a_mag2 - expected).abs() * 100 <= expected);
    assert!((d_mag2 - expected).abs() * 100 <= expected);
}

#[test]
fn resize_recomputes_the_aspect_ratio() {
    let mut cam = camera_at_origin();
    cam.set_aspect_ratio(800, 600);
    // 800 / 600 = 4 / 3 in fixed point, rounded toward zero.
    assert_eq!(cam.aspect_ratio, 1_333_333);
    cam.set_aspect_ratio(100, 400);
    assert_eq!(cam.aspect_ratio, 250_000);
}

#[test]
fn update_caps_the_frame_time() {
    // A lag spike of ten seconds moves the camera no further than the
    // fifty-millisecond cap does.
    let mut spiked = camera_at_origin();
    spiked.process_keyboard(KeyCode::W, true);
    spiked.update(10_000_000);
    let mut capped = camera_at_origin();
    capped.process_keyboard(KeyCode::W, true);
    capped.update(DT_CAP);
    assert_eq!(spiked.position, capped.position);
}
