//! The orbit camera: accumulated input deltas, persistent orbit state, and
//! the per-frame update and view-projection steps.

use vstd::prelude::*;

use crate::events::InputEvent;
use crate::fx::{fx_add, fx_clamp, fx_mul, fx_sub, spec_fx_add, spec_fx_clamp, spec_fx_mul,
    spec_fx_sub, FX_MAX, SCALE};
use crate::matrix::{correction, look_at_rh, mat_mul, perspective, identity, spec_correction,
    spec_identity, spec_look_at, spec_mat_mul, spec_perspective, Mat4, Vec3};
use crate::trig::{cos_fp, lemma_trig_zero, sin_fp, spec_cos, spec_sin, HALF_PI_FX};

verus! {

/// Orbit sensitivity: radians of orbit per unit of pointer motion.
pub const SENSITIVITY_FX: i64 = 50_000;

/// Radius change per line of scroll.
pub const ZOOM_STEP_FX: i64 = 10_000;

/// Orbit radius at construction.
pub const INITIAL_RADIUS_FX: i64 = 4_000_000;

/// The button that gates orbit dragging.
pub const ORBIT_BUTTON: u32 = 3;

/// Logical camera parameters. `eye` is recomputed each frame by
/// `CameraController::update_camera`; the rest is host configuration.
pub struct Camera {
    pub eye: Vec3,
    pub target: Vec3,
    pub up: Vec3,
    pub aspect: i64,
    pub fovy: i64,
    pub znear: i64,
    pub zfar: i64,
}

/// The view-projection transform for a camera: correction * projection * view.
pub open spec fn spec_view_proj(cam: Camera) -> Mat4 {
    spec_mat_mul(
        spec_correction(),
        spec_mat_mul(
            spec_perspective(cam.fovy, cam.aspect, cam.znear, cam.zfar),
            spec_look_at(cam.eye, cam.target, cam.up),
        ),
    )
}

impl Camera {
    /// The matrix a shader uses to take world-space points to clip space.
    pub fn build_view_projection_matrix(&self) -> (m: Mat4)
        ensures
            m == spec_view_proj(*self),
    {
        let view = look_at_rh(self.eye, self.target, self.up);
        let proj = perspective(self.fovy, self.aspect, self.znear, self.zfar);
        let pv = mat_mul(&proj, &view);
        let corr = correction();
        mat_mul(&corr, &pv)
    }
}

/// The view-projection matrix in the exact shape a GPU uniform buffer takes.
pub struct CameraUniform {
    pub view_proj: Mat4,
}

impl CameraUniform {
    /// Starts as the identity transform.
    pub fn new() -> (u: CameraUniform)
        ensures
            u.view_proj == spec_identity(),
    {
        CameraUniform { view_proj: identity() }
    }

    /// Rebuild the stored matrix from the camera's current parameters.
    pub fn update_view_proj(&mut self, camera: &Camera)
        ensures
            final(self).view_proj == spec_view_proj(*camera),
    {
        self.view_proj = camera.build_view_projection_matrix();
    }
}

/// Orbit state plus the deltas accumulated since the last frame.
pub struct CameraController {
    pub last_mouse_x: i64,
    pub last_mouse_y: i64,
    pub delta_mouse_x: i64,
    pub delta_mouse_y: i64,
    pub radius: i64,
    pub yaw: i64,
    pub pitch: i64,
    pub right_click: bool,
    pub was_right_click: bool,
}

/// Every reachable controller state keeps its numeric fields inside the
/// saturation range, and pitch inside the clamp range.
pub open spec fn wf(c: CameraController) -> bool {
    &&& -FX_MAX <= c.delta_mouse_x <= FX_MAX
    &&& -FX_MAX <= c.delta_mouse_y <= FX_MAX
    &&& -FX_MAX <= c.radius <= FX_MAX
    &&& -FX_MAX <= c.yaw <= FX_MAX
    &&& -HALF_PI_FX <= c.pitch <= HALF_PI_FX
}

/// Whether an event is recognized: everything but `Other`.
pub open spec fn spec_recognized(e: InputEvent) -> bool {
    !(e is Other)
}

/// The state after one raw event.
///
/// Pointer motion accumulates into the pending delta (horizontal component
/// negated for the target handedness) only while the orbit button is held;
/// releasing the orbit button clears the drag flag, the pending delta and
/// the last-known position; scroll adjusts the radius immediately.
pub open spec fn spec_process_events(c: CameraController, e: InputEvent) -> CameraController {
    match e {
        InputEvent::MouseMotion { dx, dy } => {
            if c.right_click {
                CameraController {
                    delta_mouse_x: spec_fx_sub(c.delta_mouse_x, dx),
                    delta_mouse_y: spec_fx_add(c.delta_mouse_y, dy),
                    was_right_click: true,
                    ..c
                }
            } else {
                c
            }
        },
        InputEvent::Button { button, pressed } => {
            if button == ORBIT_BUTTON {
                if pressed {
                    CameraController { right_click: true, ..c }
                } else {
                    CameraController {
                        right_click: false,
                        delta_mouse_x: 0,
                        delta_mouse_y: 0,
                        last_mouse_x: 0,
                        last_mouse_y: 0,
                        ..c
                    }
                }
            } else {
                c
            }
        },
        InputEvent::MouseWheel { dy } => {
            CameraController {
                radius: spec_fx_add(c.radius, spec_fx_mul(dy, ZOOM_STEP_FX)),
                ..c
            }
        },
        InputEvent::Other => c,
    }
}

/// The controller and camera after one frame update: deltas are applied with
/// the sensitivity factor, pitch is clamped, the eye is placed on the sphere
/// of the current radius around the target, and the pending delta is reset.
pub open spec fn spec_update_camera(c: CameraController, cam: Camera) -> (CameraController, Camera) {
    let yaw2 = spec_fx_add(c.yaw, spec_fx_mul(c.delta_mouse_x, SENSITIVITY_FX));
    let pitch2 = spec_fx_clamp(
        spec_fx_add(c.pitch, spec_fx_mul(c.delta_mouse_y, SENSITIVITY_FX)),
        (-HALF_PI_FX) as i64,
        HALF_PI_FX,
    );
    let sy = spec_sin(yaw2);
    let cy = spec_cos(yaw2);
    let sp = spec_sin(pitch2);
    let cp = spec_cos(pitch2);
    let eye = Vec3 {
        x: spec_fx_add(cam.target.x, spec_fx_mul(c.radius, spec_fx_mul(sy, cp))),
        y: spec_fx_add(cam.target.y, spec_fx_mul(c.radius, sp)),
        z: spec_fx_add(cam.target.z, spec_fx_mul(c.radius, spec_fx_mul(cy, cp))),
    };
    (
        CameraController { yaw: yaw2, pitch: pitch2, delta_mouse_x: 0, delta_mouse_y: 0, ..c },
        Camera { eye, ..cam },
    )
}

impl CameraController {
    /// A fresh controller: default radius, angles at zero, gate released.
    pub fn new(speed: i64) -> (c: CameraController)
        ensures
            c.last_mouse_x == 0,
            c.last_mouse_y == 0,
            c.delta_mouse_x == 0,
            c.delta_mouse_y == 0,
            c.radius == INITIAL_RADIUS_FX,
            c.yaw == 0,
            c.pitch == 0,
            !c.right_click,
            !c.was_right_click,
            wf(c),
    {
        let _ = speed;
        CameraController {
            last_mouse_x: 0,
            last_mouse_y: 0,
            delta_mouse_x: 0,
            delta_mouse_y: 0,
            radius: INITIAL_RADIUS_FX,
            yaw: 0,
            pitch: 0,
            right_click: false,
            was_right_click: false,
        }
    }

    /// Feed one raw event; the result says whether it was recognized.
    /// Unrecognized events have no effect.
    pub fn process_events(&mut self, event: &InputEvent) -> (recognized: bool)
        ensures
            *final(self) == spec_process_events(*old(self), *event),
            recognized == spec_recognized(*event),
    {
        match event {
            InputEvent::MouseMotion { dx, dy } => {
                if self.right_click {
                    self.delta_mouse_x = fx_sub(self.delta_mouse_x, *dx);
                    self.delta_mouse_y = fx_add(self.delta_mouse_y, *dy);
                    self.was_right_click = true;
                }
                true
            },
            InputEvent::Button { button, pressed } => {
                if *button == ORBIT_BUTTON {
                    if *pressed {
                        self.right_click = true;
                    } else {
                        self.right_click = false;
                        self.delta_mouse_x = 0;
                        self.delta_mouse_y = 0;
                        self.last_mouse_x = 0;
                        self.last_mouse_y = 0;
                    }
                }
                true
            },
            InputEvent::MouseWheel { dy } => {
                self.radius = fx_add(self.radius, fx_mul(*dy, ZOOM_STEP_FX));
                true
            },
            InputEvent::Other => false,
        }
    }

    /// Apply the pending deltas, clamp pitch to its hard poles, recompute the
    /// eye on the orbit sphere, and reset the pending delta.
    pub fn update_camera(&mut self, camera: &mut Camera)
        ensures
            (*final(self), *final(camera)) == spec_update_camera(*old(self), *old(camera)),
            -HALF_PI_FX <= final(self).pitch <= HALF_PI_FX,
            final(self).delta_mouse_x == 0,
            final(self).delta_mouse_y == 0,
    {
        self.yaw = fx_add(self.yaw, fx_mul(self.delta_mouse_x, SENSITIVITY_FX));
        let pitch_raw = fx_add(self.pitch, fx_mul(self.delta_mouse_y, SENSITIVITY_FX));
        self.pitch = fx_clamp(pitch_raw, -HALF_PI_FX, HALF_PI_FX);
        let sy = sin_fp(self.yaw);
        let cy = cos_fp(self.yaw);
        let sp = sin_fp(self.pitch);
        let cp = cos_fp(self.pitch);
        camera.eye = Vec3 {
            x: fx_add(camera.target.x, fx_mul(self.radius, fx_mul(sy, cp))),
            y: fx_add(camera.target.y, fx_mul(self.radius, sp)),
            z: fx_add(camera.target.z, fx_mul(self.radius, fx_mul(cy, cp))),
        };
        self.delta_mouse_x = 0;
        self.delta_mouse_y = 0;
    }

    /// Current yaw angle, fixed-point radians.
    pub fn yaw(&self) -> (r: i64)
        ensures
            r == self.yaw,
    {
        self.yaw
    }

    /// Current pitch angle, fixed-point radians.
    pub fn pitch(&self) -> (r: i64)
        ensures
            r == self.pitch,
    {
        self.pitch
    }

    /// Current orbit radius, fixed-point.
    pub fn radius(&self) -> (r: i64)
        ensures
            r == self.radius,
    {
        self.radius
    }
}

/// The state after a whole sequence of raw events, oldest first.
pub open spec fn spec_process_seq(c: CameraController, evs: Seq<InputEvent>) -> CameraController
    decreases evs.len(),
{
    if evs.len() == 0 {
        c
    } else {
        spec_process_seq(spec_process_events(c, evs[0]), evs.drop_first())
    }
}

/// Feeding events keeps the controller well-formed.
pub proof fn lemma_process_preserves_wf(c: CameraController, e: InputEvent)
    requires
        wf(c),
    ensures
        wf(spec_process_events(c, e)),
{
}

/// A frame update keeps the controller well-formed.
pub proof fn lemma_update_preserves_wf(c: CameraController, cam: Camera)
    requires
        wf(c),
    ensures
        wf(spec_update_camera(c, cam).0),
{
}

/// While the orbit button is up, any sequence of pointer-motion events
/// leaves the controller untouched, so the frame update that follows yields
/// the same state and the same eye position as if they had never arrived.
pub proof fn lemma_ungated_motion_ignored(c: CameraController, evs: Seq<InputEvent>, cam: Camera)
    requires
        !c.right_click,
        forall|i: int| 0 <= i < evs.len() ==> (evs[i] is MouseMotion),
    ensures
        spec_process_seq(c, evs) == c,
        spec_update_camera(spec_process_seq(c, evs), cam) == spec_update_camera(c, cam),
    decreases evs.len(),
{
    if evs.len() != 0 {
        assert(evs[0] is MouseMotion);
        assert(spec_process_events(c, evs[0]) == c);
        assert forall|i: int| 0 <= i < evs.drop_first().len() implies (evs.drop_first()[i]
            is MouseMotion) by {
            assert(evs.drop_first()[i] == evs[i + 1]);
        }
        lemma_ungated_motion_ignored(c, evs.drop_first(), cam);
    }
}

/// Releasing the orbit button resets the pending delta, so a motion followed
/// at once by the release, followed by a frame update, leaves yaw and pitch
/// exactly where they were before the motion.
pub proof fn lemma_release_resets_pending(c: CameraController, dx: i64, dy: i64, cam: Camera)
    requires
        wf(c),
    ensures
        ({
            let c1 = spec_process_events(c, InputEvent::MouseMotion { dx, dy });
            let c2 = spec_process_events(
                c1,
                InputEvent::Button { button: ORBIT_BUTTON, pressed: false },
            );
            let c3 = spec_update_camera(c2, cam).0;
            &&& c2.delta_mouse_x == 0
            &&& c2.delta_mouse_y == 0
            &&& c3.yaw == c.yaw
            &&& c3.pitch == c.pitch
        }),
{
    assert(spec_fx_mul(0, SENSITIVITY_FX) == 0);
}

/// With no pending deltas and the resting pose (yaw and pitch both zero),
/// a frame update places the eye exactly one radius along the positive z
/// axis from the target.
pub proof fn lemma_resting_pose_eye(c: CameraController, cam: Camera)
    requires
        c.yaw == 0,
        c.pitch == 0,
        c.delta_mouse_x == 0,
        c.delta_mouse_y == 0,
        -FX_MAX <= c.radius <= FX_MAX,
        -FX_MAX <= cam.target.x <= FX_MAX,
        -FX_MAX <= cam.target.y <= FX_MAX,
        -FX_MAX <= cam.target.z + c.radius <= FX_MAX,
    ensures
        ({
            let cam1 = spec_update_camera(c, cam).1;
            &&& cam1.eye.x == cam.target.x
            &&& cam1.eye.y == cam.target.y
            &&& cam1.eye.z == cam.target.z + c.radius
        }),
{
    lemma_trig_zero();
    assert(spec_fx_mul(0, SENSITIVITY_FX) == 0);
    assert(spec_fx_clamp(0, (-HALF_PI_FX) as i64, HALF_PI_FX) == 0);
    assert(spec_fx_mul(0, SCALE) == 0);
    assert(spec_fx_mul(c.radius, 0) == 0);
    assert(spec_fx_mul(SCALE, SCALE) == SCALE);
    let r = c.radius as int;
    assert(crate::fx::abs_int(r * 1_000_000) == crate::fx::abs_int(r) * 1_000_000);
    vstd::arithmetic::div_mod::lemma_div_by_multiple(crate::fx::abs_int(r), 1_000_000);
    assert(crate::fx::tdiv(r * 1_000_000, 1_000_000) == r);
    assert(spec_fx_mul(c.radius, SCALE) == c.radius);
}

/// A frame update with no events in between is a no-op the second time:
/// updating twice from any state gives the same controller and camera as
/// updating once.
pub proof fn lemma_update_idempotent(c: CameraController, cam: Camera)
    ensures
        ({
            let (c1, cam1) = spec_update_camera(c, cam);
            let (c2, cam2) = spec_update_camera(c1, cam1);
            &&& c2 == c1
            &&& cam2 == cam1
        }),
{
    assert(spec_fx_mul(0, SENSITIVITY_FX) == 0);
}

} // verus!
