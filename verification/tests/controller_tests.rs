use orbit_camera::camera::{Camera, CameraController, CameraUniform, INITIAL_RADIUS_FX};
use orbit_camera::events::InputEvent;
use orbit_camera::matrix::Vec3;

const S: i64 = 1_000_000;

fn test_camera() -> Camera {
    Camera {
        eye: Vec3 { x: 0, y: 0, z: 0 },
        target: Vec3 { x: 0, y: 0, z: 0 },
        up: Vec3 { x: 0, y: S, z: 0 },
        aspect: S,
        fovy: 45 * S,
        znear: S / 10,
        zfar: 100 * S,
    }
}

fn press() -> InputEvent {
    InputEvent::Button { button: 3, pressed: true }
}

fn release() -> InputEvent {
    InputEvent::Button { button: 3, pressed: false }
}

#[test]
fn new_controller_defaults() {
    let c = CameraController::new(0);
    assert_eq!(c.yaw(), 0);
    assert_eq!(c.pitch(), 0);
    assert_eq!(c.radius(), INITIAL_RADIUS_FX);
}

#[test]
fn resting_update_places_eye_one_radius_south() {
    let mut c = CameraController::new(0);
    let mut cam = test_camera();
    c.update_camera(&mut cam);
    assert_eq!(cam.eye, Vec3 { x: 0, y: 0, z: 4 * S });
}

#[test]
fn resting_update_respects_target_offset() {
    let mut c = CameraController::new(0);
    let mut cam = test_camera();
    cam.target = Vec3 { x: 7 * S, y: -2 * S, z: S };
    c.update_camera(&mut cam);
    assert_eq!(cam.eye, Vec3 { x: 7 * S, y: -2 * S, z: 5 * S });
}

#[test]
fn ungated_motion_leaves_eye_unchanged() {
    let mut with_motion = CameraController::new(0);
    let mut without_motion = CameraController::new(0);
    let mut cam_a = test_camera();
    let mut cam_b = test_camera();
    for _ in 0..3 {
        let recognized =
            with_motion.process_events(&InputEvent::MouseMotion { dx: 10 * S, dy: 5 * S });
        assert!(recognized);
    }
    with_motion.update_camera(&mut cam_a);
    without_motion.update_camera(&mut cam_b);
    assert_eq!(cam_a.eye, cam_b.eye);
    assert_eq!(with_motion.yaw(), 0);
    assert_eq!(with_motion.pitch(), 0);
}

#[test]
fn drag_scenario_applies_sensitivity_and_zoom() {
    let mut c = CameraController::new(0);
    let mut cam = test_camera();

    // motion before any press: recognized, but no effect on the update
    assert!(c.process_events(&InputEvent::MouseMotion { dx: 10 * S, dy: 5 * S }));
    c.update_camera(&mut cam);
    assert_eq!(cam.eye, Vec3 { x: 0, y: 0, z: 4 * S });

    // press the orbit button, drag horizontally
    assert!(c.process_events(&press()));
    assert!(c.process_events(&InputEvent::MouseMotion { dx: 10 * S, dy: 0 }));
    c.update_camera(&mut cam);
    // yaw moved by -10 * 0.05 = -0.5; pitch untouched
    assert_eq!(c.yaw(), -500_000);
    assert_eq!(c.pitch(), 0);

    // scroll two lines: the radius grows by 0.02 at once, with no update call
    assert!(c.process_events(&InputEvent::MouseWheel { dy: 2 * S }));
    assert_eq!(c.radius(), 4 * S + 20_000);
}

#[test]
fn release_resets_pending_delta() {
    let mut c = CameraController::new(0);
    let mut cam = test_camera();
    assert!(c.process_events(&press()));
    assert!(c.process_events(&InputEvent::MouseMotion { dx: 7 * S, dy: 3 * S }));
    assert!(c.process_events(&release()));
    c.update_camera(&mut cam);
    assert_eq!(c.yaw(), 0);
    assert_eq!(c.pitch(), 0);
}

#[test]
fn pitch_clamps_at_both_poles() {
    let mut c = CameraController::new(0);
    let mut cam = test_camera();
    c.process_events(&press());
    c.process_events(&InputEvent::MouseMotion { dx: 0, dy: 1_000_000_000_000_000 });
    c.update_camera(&mut cam);
    assert_eq!(c.pitch(), 1_570_796);

    c.process_events(&InputEvent::MouseMotion { dx: 0, dy: -1_000_000_000_000_000 });
    c.update_camera(&mut cam);
    c.process_events(&InputEvent::MouseMotion { dx: 0, dy: -1_000_000_000_000_000 });
    c.update_camera(&mut cam);
    assert_eq!(c.pitch(), -1_570_796);
}

#[test]
fn update_twice_is_a_no_op_the_second_time() {
    let mut c = CameraController::new(0);
    let mut cam = test_camera();
    c.process_events(&press());
    c.process_events(&InputEvent::MouseMotion { dx: 4 * S, dy: -2 * S });
    c.update_camera(&mut cam);
    let yaw = c.yaw();
    let pitch = c.pitch();
    let eye = cam.eye;
    c.update_camera(&mut cam);
    assert_eq!(c.yaw(), yaw);
    assert_eq!(c.pitch(), pitch);
    assert_eq!(cam.eye, eye);
}

#[test]
fn unrecognized_event_is_a_no_op() {
    let mut c = CameraController::new(0);
    assert!(!c.process_events(&InputEvent::Other));
    assert_eq!(c.yaw(), 0);
    assert_eq!(c.pitch(), 0);
    assert_eq!(c.radius(), INITIAL_RADIUS_FX);
}

#[test]
fn other_buttons_do_not_gate_the_drag() {
    let mut c = CameraController::new(0);
    let mut cam = test_camera();
    assert!(c.process_events(&InputEvent::Button { button: 1, pressed: true }));
    assert!(c.process_events(&InputEvent::MouseMotion { dx: 10 * S, dy: 0 }));
    c.update_camera(&mut cam);
    assert_eq!(c.yaw(), 0);
}

#[test]
fn scroll_down_shrinks_the_radius() {
    let mut c = CameraController::new(0);
    assert!(c.process_events(&InputEvent::MouseWheel { dy: -3 * S }));
    assert_eq!(c.radius(), 4 * S - 30_000);
}

#[test]
fn uniform_starts_as_identity() {
    let u = CameraUniform::new();
    let m = u.view_proj;
    assert_eq!(m.m00, S);
    assert_eq!(m.m11, S);
    assert_eq!(m.m22, S);
    assert_eq!(m.m33, S);
    assert_eq!(m.m01, 0);
    assert_eq!(m.m23, 0);
    assert_eq!(m.m30, 0);
}

#[test]
fn uniform_update_matches_build() {
    let mut c = CameraController::new(0);
    let mut cam = test_camera();
    c.update_camera(&mut cam);
    let mut u = CameraUniform::new();
    u.update_view_proj(&cam);
    assert_eq!(u.view_proj, cam.build_view_projection_matrix());
}
