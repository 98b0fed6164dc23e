//! The first-person camera: view state, keyboard-driven motion and the
//! mouse-drag rotation protocol.
//!
//! The camera is a state machine with two rotation states: idle (no right
//! button held) and rotating. While rotating, every cursor movement is
//! interpreted relative to a fixed anchor — the rotation origin — and the
//! caller is expected to move the cursor back to that anchor after each
//! update, so deltas keep accumulating from a stable reference.
//!
//! Pitch is clamped to `[-fovy, fovy]` — a design choice tying the maximum
//! look angle to the field of view — after every rotation and every frame
//! update.

use vstd::prelude::*;
use crate::fixed::FX_ONE;
use crate::fixed::FX_LIMIT;
use crate::fixed::TWO_PI;
use crate::fixed::abs_int;
use crate::fixed::spec_clamp;
use crate::fixed::spec_fx_mul;
use crate::fixed::spec_fx_div;
use crate::fixed::spec_wrap;
use crate::fixed::spec_sin_fx;
use crate::fixed::spec_cos_fx;
use crate::fixed::fx_clamp;
use crate::fixed::fx_mul;
use crate::fixed::fx_div;
use crate::fixed::wrap_two_pi;
use crate::fixed::sin_fx;
use crate::fixed::cos_fx;
use crate::math::Vec3;
use crate::math::Mat4;
use crate::math::Vec4;
use crate::math::vec3_bounded;
use crate::math::spec_norm_sq;
use crate::math::spec_normalize3;
use crate::math::spec_cross3;
use crate::math::spec_add3;
use crate::math::spec_sub3;
use crate::math::spec_scale3;
use crate::math::spec_fxdot3;
use crate::math::mat4_bounded;
use crate::math::norm_sq3;
use crate::math::normalize3;
use crate::math::cross3;
use crate::math::add3;
use crate::math::sub3;
use crate::math::scale3;
use crate::math::fxdot3;
use crate::math::spec_mat_mul;
use crate::math::mat_mul;
use crate::input::KeyCode;
use crate::input::coord_ok;

verus! {

/// Default movement speed: six units per second.
pub const CAM_SPEED: i64 = 6_000_000;

/// Default rotation sensitivity: 0.005 radians per pixel.
pub const CAM_SENSITIVITY: i64 = 5_000;

/// Default vertical field of view: 70 degrees, in fixed-point radians.
pub const CAM_FOVY: i64 = 1_221_730;

/// Default near plane: 0.001 units.
pub const CAM_ZNEAR: i64 = 1_000;

/// Default far plane: 300 units.
pub const CAM_ZFAR: i64 = 300_000_000;

/// Frame times are capped at 50 ms so a lag spike cannot teleport the
/// camera.
pub const DT_CAP: i64 = 50_000;

/// Roll turns at two radians per second while a roll key is held.
pub const ROLL_RATE: i64 = 2_000_000;

/// The world box the camera position is kept inside (an eighth of
/// `FX_LIMIT`).
pub const POS_CAP: i64 = 137_438_953_472;

/// Bound on the speed a well-formed camera may have: 50 units per second.
pub const SPEED_CAP: i64 = 50_000_000;

/// Half of `FX_LIMIT`.
pub const HALF_LIMIT: i64 = 549_755_813_888;

/// A first-person camera.
#[derive(Clone, Copy, Debug)]
pub struct Camera {
    pub position: Vec3,
    /// Heading, wrapped into `[0, TWO_PI)`.
    pub yaw: i64,
    /// Look elevation, clamped into `[-fovy, fovy]`.
    pub pitch: i64,
    /// Tilt around the view axis, wrapped into `[0, TWO_PI)`.
    pub roll: i64,
    pub speed: i64,
    pub sensitivity: i64,
    pub is_forward_pressed: bool,
    pub is_backward_pressed: bool,
    pub is_left_pressed: bool,
    pub is_right_pressed: bool,
    pub is_up_pressed: bool,
    pub is_down_pressed: bool,
    pub is_roll_left_pressed: bool,
    pub is_roll_right_pressed: bool,
    /// The tracking baseline the next cursor delta is measured from.
    pub last_mouse_pos: Option<(i64, i64)>,
    /// Where the cursor was when the drag began.
    pub initial_mouse_pos: Option<(i64, i64)>,
    /// The anchor the caller returns the cursor to while rotating.
    pub rotation_origin: Option<(i64, i64)>,
    pub aspect_ratio: i64,
    pub fovy: i64,
    pub znear: i64,
    pub zfar: i64,
}

/// A stored cursor position is within the coordinate range.
pub open spec fn mouse_pos_ok(p: Option<(i64, i64)>) -> bool {
    match p {
        Some(q) => coord_ok(q.0 as int) && coord_ok(q.1 as int),
        None => true,
    }
}

impl Camera {
    /// Well-formedness: angles in their canonical ranges, pitch within the
    /// field-of-view clamp, parameters within the fixed-point ranges the
    /// arithmetic accepts, the position inside the world box, and stored
    /// cursor positions within the coordinate range.
    pub open spec fn wf(&self) -> bool {
        &&& 0 <= self.yaw < TWO_PI
        &&& 0 <= self.roll < TWO_PI
        &&& 0 < self.fovy <= crate::fixed::HALF_PI
        &&& -self.fovy <= self.pitch <= self.fovy
        &&& 0 <= self.sensitivity <= FX_ONE
        &&& 0 <= self.speed <= SPEED_CAP
        &&& vec3_bounded(self.position, POS_CAP as int)
        &&& mouse_pos_ok(self.last_mouse_pos)
        &&& mouse_pos_ok(self.initial_mouse_pos)
        &&& mouse_pos_ok(self.rotation_origin)
        &&& 0 < self.znear < self.zfar <= FX_LIMIT / 2
    }

    /// A new camera at `position` looking along the wrapped `yaw` and
    /// clamped `pitch`, with the default speed, sensitivity, field of view
    /// and clip planes, no keys held and no drag in progress.
    pub fn new(position: Vec3, yaw: i64, pitch: i64) -> (r: Camera)
        requires
            vec3_bounded(position, POS_CAP as int),
            abs_int(yaw as int) <= 0x0100_0000_0000_0000,
            abs_int(pitch as int) <= 0x0100_0000_0000_0000,
        ensures
            r.wf(),
            r.position == position,
            r.yaw == spec_wrap(yaw as int),
            r.pitch == spec_clamp(pitch as int, -CAM_FOVY as int, CAM_FOVY as int),
            r.roll == 0,
            r.speed == CAM_SPEED,
            r.sensitivity == CAM_SENSITIVITY,
            !r.is_forward_pressed && !r.is_backward_pressed && !r.is_left_pressed
                && !r.is_right_pressed && !r.is_up_pressed && !r.is_down_pressed
                && !r.is_roll_left_pressed && !r.is_roll_right_pressed,
            r.last_mouse_pos is None,
            r.initial_mouse_pos is None,
            r.rotation_origin is None,
            r.aspect_ratio == FX_ONE,
            r.fovy == CAM_FOVY,
            r.znear == CAM_ZNEAR,
            r.zfar == CAM_ZFAR,
    {
        Camera {
            position,
            yaw: wrap_two_pi(yaw),
            pitch: fx_clamp(pitch, -CAM_FOVY, CAM_FOVY),
            roll: 0,
            speed: CAM_SPEED,
            sensitivity: CAM_SENSITIVITY,
            is_forward_pressed: false,
            is_backward_pressed: false,
            is_left_pressed: false,
            is_right_pressed: false,
            is_up_pressed: false,
            is_down_pressed: false,
            is_roll_left_pressed: false,
            is_roll_right_pressed: false,
            last_mouse_pos: None,
            initial_mouse_pos: None,
            rotation_origin: None,
            aspect_ratio: FX_ONE,
            fovy: CAM_FOVY,
            znear: CAM_ZNEAR,
            zfar: CAM_ZFAR,
        }
    }
}

/// Whether the camera reacts to this key.
pub open spec fn spec_keyboard_handled(key: KeyCode) -> bool {
    match key {
        KeyCode::W | KeyCode::Up => true,
        KeyCode::S | KeyCode::Down => true,
        KeyCode::A | KeyCode::Left => true,
        KeyCode::D | KeyCode::Right => true,
        KeyCode::E => true,
        KeyCode::Scroll => true,
        KeyCode::Q => true,
        _ => false,
    }
}

/// The camera after a key press or release: the matching held-key flag
/// takes the new state; an unhandled key changes nothing.
pub open spec fn spec_process_keyboard(cam: Camera, key: KeyCode, pressed: bool) -> Camera {
    match key {
        KeyCode::W | KeyCode::Up => Camera { is_forward_pressed: pressed, ..cam },
        KeyCode::S | KeyCode::Down => Camera { is_backward_pressed: pressed, ..cam },
        KeyCode::A | KeyCode::Left => Camera { is_left_pressed: pressed, ..cam },
        KeyCode::D | KeyCode::Right => Camera { is_right_pressed: pressed, ..cam },
        KeyCode::E => Camera { is_up_pressed: pressed, ..cam },
        KeyCode::Scroll => Camera { is_roll_right_pressed: pressed, ..cam },
        KeyCode::Q => Camera { is_down_pressed: pressed, ..cam },
        _ => cam,
    }
}

/// The camera after a cursor movement while the right button is held
/// (`pressed`):
/// - not rotating (`pressed` false): the tracking baseline is dropped;
/// - rotating without a baseline: the position becomes the baseline;
/// - rotating with a baseline and a zero delta: nothing changes;
/// - rotating with a nonzero delta: yaw advances by `dx * sensitivity`,
///   pitch retreats by `dy * sensitivity` and is clamped to
///   `[-fovy, fovy]`, and the baseline is reset to the rotation origin —
///   not to the raw position — because the caller moves the cursor back
///   to the origin.
pub open spec fn spec_process_mouse_move(cam: Camera, position: (i64, i64), pressed: bool) -> (
    Camera,
    bool,
) {
    if pressed {
        match cam.last_mouse_pos {
            Some(last) => {
                let dx = position.0 - last.0;
                let dy = position.1 - last.1;
                if dx != 0 || dy != 0 {
                    let yaw2 = spec_wrap(cam.yaw + spec_fx_mul(dx, cam.sensitivity as int));
                    let pitch2 = spec_clamp(
                        cam.pitch - spec_fx_mul(dy, cam.sensitivity as int),
                        -cam.fovy as int,
                        cam.fovy as int,
                    );
                    let last2 = if cam.rotation_origin is Some {
                        cam.rotation_origin
                    } else {
                        cam.last_mouse_pos
                    };
                    (
                        Camera {
                            yaw: yaw2 as i64,
                            pitch: pitch2 as i64,
                            last_mouse_pos: last2,
                            ..cam
                        },
                        true,
                    )
                } else {
                    (cam, false)
                }
            },
            None => (Camera { last_mouse_pos: Some(position), ..cam }, false),
        }
    } else {
        (Camera { last_mouse_pos: None, ..cam }, false)
    }
}

impl Camera {
    /// React to a key press or release; returns whether the key was one of
    /// the camera's movement or roll keys.
    pub fn process_keyboard(&mut self, key: KeyCode, pressed: bool) -> (r: bool)
        requires
            old(self).wf(),
        ensures
            final(self).wf(),
            *final(self) == spec_process_keyboard(*old(self), key, pressed),
            r == spec_keyboard_handled(key),
    {
        match key {
            KeyCode::W | KeyCode::Up => {
                self.is_forward_pressed = pressed;
                true
            },
            KeyCode::S | KeyCode::Down => {
                self.is_backward_pressed = pressed;
                true
            },
            KeyCode::A | KeyCode::Left => {
                self.is_left_pressed = pressed;
                true
            },
            KeyCode::D | KeyCode::Right => {
                self.is_right_pressed = pressed;
                true
            },
            KeyCode::E => {
                self.is_up_pressed = pressed;
                true
            },
            KeyCode::Scroll => {
                self.is_roll_right_pressed = pressed;
                true
            },
            KeyCode::Q => {
                self.is_down_pressed = pressed;
                true
            },
            _ => false,
        }
    }

    /// Record the anchor the cursor is returned to while rotating.
    pub fn set_rotation_origin(&mut self, position: (i64, i64))
        requires
            old(self).wf(),
            coord_ok(position.0 as int),
            coord_ok(position.1 as int),
        ensures
            final(self).wf(),
            *final(self) == (Camera { rotation_origin: Some(position), ..*old(self) }),
    {
        self.rotation_origin = Some(position);
    }

    /// The anchor the cursor is returned to while rotating, if any.
    pub fn get_rotation_origin(&self) -> (r: Option<(i64, i64)>)
        ensures
            r == self.rotation_origin,
    {
        self.rotation_origin
    }

    /// Enter the rotating state: the position becomes the tracking
    /// baseline, and the rotation origin if none was set yet.
    pub fn start_rotation(&mut self, position: (i64, i64)) -> (r: bool)
        requires
            old(self).wf(),
            coord_ok(position.0 as int),
            coord_ok(position.1 as int),
        ensures
            final(self).wf(),
            final(self).last_mouse_pos == Some(position),
            final(self).rotation_origin == if old(self).rotation_origin is Some {
                old(self).rotation_origin
            } else {
                Some(position)
            },
            *final(self) == (Camera {
                last_mouse_pos: Some(position),
                rotation_origin: final(self).rotation_origin,
                ..*old(self)
            }),
            r,
    {
        self.last_mouse_pos = Some(position);
        if self.rotation_origin.is_none() {
            self.rotation_origin = Some(position);
        }
        true
    }

    /// Leave the rotating state: the baseline and the origin are cleared,
    /// so the next drag starts from a fresh anchor.
    pub fn end_rotation(&mut self) -> (r: bool)
        requires
            old(self).wf(),
        ensures
            final(self).wf(),
            *final(self) == (Camera {
                last_mouse_pos: None,
                rotation_origin: None,
                ..*old(self)
            }),
            r,
    {
        self.last_mouse_pos = None;
        self.rotation_origin = None;
        true
    }

    /// React to a cursor movement; see [`spec_process_mouse_move`] for the
    /// four cases. Returns whether the camera rotated, in which case the
    /// caller must move the cursor back to the rotation origin.
    pub fn process_mouse_move(&mut self, position: (i64, i64), mouse_pressed: bool) -> (r: bool)
        requires
            old(self).wf(),
            coord_ok(position.0 as int),
            coord_ok(position.1 as int),
        ensures
            final(self).wf(),
            (*final(self), r) == spec_process_mouse_move(*old(self), position, mouse_pressed),
    {
        if mouse_pressed {
            match self.last_mouse_pos {
                Some(last) => {
                    let dx = position.0 - last.0;
                    let dy = position.1 - last.1;
                    if dx != 0 || dy != 0 {
                        let yaw_step = fx_mul(dx, self.sensitivity);
                        let pitch_step = fx_mul(dy, self.sensitivity);
                        proof {
                            crate::math::lemma_fx_mul_abs_le(
                                dx as int,
                                self.sensitivity as int,
                                FX_LIMIT as int,
                                FX_ONE as int,
                            );
                            crate::math::lemma_fx_mul_abs_le(
                                dy as int,
                                self.sensitivity as int,
                                FX_LIMIT as int,
                                FX_ONE as int,
                            );
                        }
                        self.yaw = wrap_two_pi(self.yaw + yaw_step);
                        self.pitch = fx_clamp(self.pitch - pitch_step, -self.fovy, self.fovy);
                        if self.rotation_origin.is_some() {
                            self.last_mouse_pos = self.rotation_origin;
                        }
                        true
                    } else {
                        false
                    }
                },
                None => {
                    self.last_mouse_pos = Some(position);
                    false
                },
            }
        } else {
            self.last_mouse_pos = None;
            false
        }
    }

    /// Recompute the aspect ratio from the drawable size, as on every
    /// window resize.
    pub fn set_aspect_ratio(&mut self, width: u32, height: u32)
        requires
            old(self).wf(),
            height >= 1,
        ensures
            final(self).wf(),
            *final(self) == (Camera {
                aspect_ratio: spec_fx_div(width as int, height as int) as i64,
                ..*old(self)
            }),
    {
        self.aspect_ratio = fx_div(width as i64, height as i64);
    }
}

} // verus!

verus! {

/// The frame time, capped at [`DT_CAP`].
pub open spec fn spec_dt_capped(dt: int) -> int {
    if dt > DT_CAP as int {
        DT_CAP as int
    } else {
        dt
    }
}

/// Roll after one frame: advanced while the left roll key is held,
/// retarded while the right one is, wrapped into `[0, TWO_PI)`.
pub open spec fn spec_step_roll(roll: int, left: bool, right: bool, dtc: int) -> int {
    let step = spec_fx_mul(ROLL_RATE as int, dtc);
    let r1 = if left {
        spec_wrap(roll + step)
    } else {
        roll
    };
    if right {
        spec_wrap(r1 - step)
    } else {
        r1
    }
}

/// The view basis derived from yaw and pitch: the normalized forward
/// direction, the normalized right direction (forward crossed with world
/// up), and the up direction (right crossed with forward, normalized).
#[verifier::opaque]
pub open spec fn spec_basis(yaw: int, pitch: int) -> (Vec3, Vec3, Vec3) {
    let fwd_raw = Vec3 {
        x: spec_fx_mul(spec_cos_fx(yaw), spec_cos_fx(pitch)) as i64,
        y: spec_sin_fx(pitch) as i64,
        z: spec_fx_mul(spec_sin_fx(yaw), spec_cos_fx(pitch)) as i64,
    };
    let forward = spec_normalize3(fwd_raw);
    let right = spec_normalize3(spec_cross3(forward, Vec3 { x: 0, y: FX_ONE, z: 0 }));
    let up = spec_normalize3(spec_cross3(right, forward));
    (forward, right, up)
}

/// Right and up tilted around the forward axis by `roll`.
#[verifier::opaque]
pub open spec fn spec_rolled(right: Vec3, up: Vec3, roll: int) -> (Vec3, Vec3) {
    let cr = spec_cos_fx(roll);
    let sr = spec_sin_fx(roll);
    (
        spec_add3(spec_scale3(right, cr), spec_scale3(up, sr)),
        spec_sub3(spec_scale3(up, cr), spec_scale3(right, sr)),
    )
}

/// The coefficient a pair of opposing keys contributes: one key held
/// gives its sign, both or neither cancel to zero.
pub open spec fn spec_axis_coeff(plus: bool, minus: bool) -> int {
    (if plus { 1int } else { 0int }) - (if minus { 1int } else { 0int })
}

/// The movement vector accumulated from the held keys: the forward
/// coefficient along the forward direction, the strafe coefficient along
/// the rolled right direction, the vertical coefficient along the rolled
/// up direction. Opposite keys cancel.
pub open spec fn spec_movement(cam: Camera, forward: Vec3, rright: Vec3, rup: Vec3) -> Vec3 {
    let a = spec_axis_coeff(cam.is_forward_pressed, cam.is_backward_pressed);
    let b = spec_axis_coeff(cam.is_right_pressed, cam.is_left_pressed);
    let c = spec_axis_coeff(cam.is_up_pressed, cam.is_down_pressed);
    spec_add3(
        spec_add3(crate::math::spec_iscale3(forward, a), crate::math::spec_iscale3(rright, b)),
        crate::math::spec_iscale3(rup, c),
    )
}

/// The position after one frame: if any movement accumulated, advance
/// along the normalized movement direction by `speed * dt`, clamped into
/// the world box; otherwise stay.
pub open spec fn spec_step_position(pos: Vec3, movement: Vec3, speed: int, dtc: int) -> Vec3 {
    if spec_norm_sq(movement) > 0 {
        let nm = spec_normalize3(movement);
        let disp = spec_scale3(spec_scale3(nm, speed), dtc);
        Vec3 {
            x: spec_clamp(pos.x + disp.x, -POS_CAP as int, POS_CAP as int) as i64,
            y: spec_clamp(pos.y + disp.y, -POS_CAP as int, POS_CAP as int) as i64,
            z: spec_clamp(pos.z + disp.z, -POS_CAP as int, POS_CAP as int) as i64,
        }
    } else {
        pos
    }
}

/// The movement vector of one frame: the basis derived from the camera's
/// yaw and pitch, tilted by its roll, combined over its held keys.
pub open spec fn spec_frame_movement(cam: Camera) -> Vec3 {
    let basis = spec_basis(cam.yaw as int, cam.pitch as int);
    let rolled = spec_rolled(basis.1, basis.2, cam.roll as int);
    spec_movement(cam, basis.0, rolled.0, rolled.1)
}

/// The camera between the rotation step and the movement step of a frame:
/// roll integrated, pitch re-clamped.
pub open spec fn spec_mid_update(cam: Camera, dtc: int) -> Camera {
    Camera {
        roll: spec_step_roll(
            cam.roll as int,
            cam.is_roll_left_pressed,
            cam.is_roll_right_pressed,
            dtc,
        ) as i64,
        pitch: spec_clamp(cam.pitch as int, -cam.fovy as int, cam.fovy as int) as i64,
        ..cam
    }
}

/// The camera after one frame update of `dt` fixed-point seconds.
pub open spec fn spec_camera_updated(cam: Camera, dt: int) -> Camera {
    let dtc = spec_dt_capped(dt);
    let mid = spec_mid_update(cam, dtc);
    let mov = spec_frame_movement(mid);
    Camera { position: spec_step_position(mid.position, mov, mid.speed as int, dtc), ..mid }
}

/// Whether the frame update reports a change: any movement or roll key is
/// held.
pub open spec fn spec_update_changed(cam: Camera) -> bool {
    cam.is_forward_pressed || cam.is_backward_pressed || cam.is_left_pressed
        || cam.is_right_pressed || cam.is_up_pressed || cam.is_down_pressed
        || cam.is_roll_left_pressed || cam.is_roll_right_pressed
}

/// Combine the coefficient-scaled basis directions into the movement
/// vector.
fn combine_movement(a: i64, b: i64, c: i64, forward: Vec3, rright: Vec3, rup: Vec3) -> (r: Vec3)
    requires
        -1 <= a <= 1,
        -1 <= b <= 1,
        -1 <= c <= 1,
        vec3_bounded(forward, FX_ONE as int),
        vec3_bounded(rright, 6 * FX_ONE as int),
        vec3_bounded(rup, 6 * FX_ONE as int),
    ensures
        r == spec_add3(
            spec_add3(
                crate::math::spec_iscale3(forward, a as int),
                crate::math::spec_iscale3(rright, b as int),
            ),
            crate::math::spec_iscale3(rup, c as int),
        ),
        vec3_bounded(r, 32 * FX_ONE as int),
{
    let mf = crate::math::iscale3(forward, a);
    let mr = crate::math::iscale3(rright, b);
    let mu = crate::math::iscale3(rup, c);
    add3(add3(mf, mr), mu)
}

/// The coefficient a pair of opposing keys contributes.
fn axis_coeff(plus: bool, minus: bool) -> (r: i64)
    ensures
        r as int == spec_axis_coeff(plus, minus),
        -1 <= r <= 1,
{
    let p: i64 = if plus {
        1
    } else {
        0
    };
    let m: i64 = if minus {
        1
    } else {
        0
    };
    p - m
}

impl Camera {
    /// The rotation half of a frame: integrate roll from the roll keys and
    /// re-clamp pitch.
    fn step_roll_pitch(&mut self, dtc: i64)
        requires
            old(self).wf(),
            0 <= dtc <= DT_CAP,
        ensures
            final(self).wf(),
            *final(self) == spec_mid_update(*old(self), dtc as int),
    {
        let step = fx_mul(ROLL_RATE, dtc);
        proof {
            crate::math::lemma_fx_mul_abs_le(
                ROLL_RATE as int,
                dtc as int,
                ROLL_RATE as int,
                DT_CAP as int,
            );
        }
        if self.is_roll_left_pressed {
            self.roll = wrap_two_pi(self.roll + step);
        }
        if self.is_roll_right_pressed {
            self.roll = wrap_two_pi(self.roll - step);
        }
        self.pitch = fx_clamp(self.pitch, -self.fovy, self.fovy);
    }

    /// The view basis of the current yaw and pitch: forward, right, up.
    fn view_basis(&self) -> (r: (Vec3, Vec3, Vec3))
        requires
            self.wf(),
        ensures
            r == spec_basis(self.yaw as int, self.pitch as int),
            vec3_bounded(r.0, FX_ONE as int),
            vec3_bounded(r.1, 2 * FX_ONE as int),
            vec3_bounded(r.2, 4 * FX_ONE as int),
    {
        proof {
            reveal(spec_basis);
        }
        let cos_yaw = cos_fx(self.yaw);
        let sin_yaw = sin_fx(self.yaw);
        let cos_pitch = cos_fx(self.pitch);
        let sin_pitch = sin_fx(self.pitch);
        proof {
            crate::math::lemma_fx_mul_abs_le(
                cos_yaw as int,
                cos_pitch as int,
                FX_ONE as int,
                FX_ONE as int,
            );
            crate::math::lemma_fx_mul_abs_le(
                sin_yaw as int,
                cos_pitch as int,
                FX_ONE as int,
                FX_ONE as int,
            );
        }
        let fwd_raw = Vec3 {
            x: fx_mul(cos_yaw, cos_pitch),
            y: sin_pitch,
            z: fx_mul(sin_yaw, cos_pitch),
        };
        let forward = normalize3(fwd_raw);
        let right_raw = cross3(forward, Vec3 { x: 0, y: FX_ONE, z: 0 });
        proof {
            crate::math::lemma_cross3_bounded(
                forward,
                Vec3 { x: 0, y: FX_ONE, z: 0 },
                FX_ONE as int,
                FX_ONE as int,
            );
        }
        let right = normalize3(right_raw);
        let up_raw = cross3(right, forward);
        proof {
            crate::math::lemma_cross3_bounded(right, forward, 2 * FX_ONE as int, FX_ONE as int);
        }
        let up = normalize3(up_raw);
        (forward, right, up)
    }

    /// The right and up directions tilted around the forward axis by the
    /// current roll.
    fn rolled_axes(&self, right: Vec3, up: Vec3) -> (r: (Vec3, Vec3))
        requires
            self.wf(),
            vec3_bounded(right, 2 * FX_ONE as int),
            vec3_bounded(up, 4 * FX_ONE as int),
        ensures
            r == spec_rolled(right, up, self.roll as int),
            vec3_bounded(r.0, 6 * FX_ONE as int),
            vec3_bounded(r.1, 6 * FX_ONE as int),
    {
        proof {
            reveal(spec_rolled);
        }
        let cos_roll = cos_fx(self.roll);
        let sin_roll = sin_fx(self.roll);
        let rc = scale3(right, cos_roll);
        let us = scale3(up, sin_roll);
        let uc = scale3(up, cos_roll);
        let rs = scale3(right, sin_roll);
        proof {
            crate::math::lemma_scale3_bounded(
                right,
                cos_roll as int,
                2 * FX_ONE as int,
                FX_ONE as int,
            );
            crate::math::lemma_scale3_bounded(up, sin_roll as int, 4 * FX_ONE as int, FX_ONE as int);
            crate::math::lemma_scale3_bounded(up, cos_roll as int, 4 * FX_ONE as int, FX_ONE as int);
            crate::math::lemma_scale3_bounded(
                right,
                sin_roll as int,
                2 * FX_ONE as int,
                FX_ONE as int,
            );
        }
        (add3(rc, us), sub3(uc, rs))
    }

    /// The movement vector of this frame, accumulated from the held keys
    /// over the current view basis.
    #[verifier::rlimit(100)]
    fn frame_movement(&self) -> (r: Vec3)
        requires
            self.wf(),
        ensures
            r == spec_frame_movement(*self),
            vec3_bounded(r, 32 * FX_ONE as int),
    {
        let basis = self.view_basis();
        let rolled = self.rolled_axes(basis.1, basis.2);
        let a = axis_coeff(self.is_forward_pressed, self.is_backward_pressed);
        let b = axis_coeff(self.is_right_pressed, self.is_left_pressed);
        let c = axis_coeff(self.is_up_pressed, self.is_down_pressed);
        combine_movement(a, b, c, basis.0, rolled.0, rolled.1)
    }

    /// The movement half of a frame: if any movement accumulated, advance
    /// the position along the normalized movement by `speed * dt`, clamped
    /// into the world box.
    fn step_position(&mut self, movement: Vec3, dtc: i64)
        requires
            old(self).wf(),
            vec3_bounded(movement, 32 * FX_ONE as int),
            0 <= dtc <= DT_CAP,
        ensures
            final(self).wf(),
            *final(self) == (Camera {
                position: spec_step_position(
                    old(self).position,
                    movement,
                    old(self).speed as int,
                    dtc as int,
                ),
                ..*old(self)
            }),
    {
        let mag2 = norm_sq3(movement);
        if mag2 > 0 {
            let nm = normalize3(movement);
            proof {
                assert(vec3_bounded(nm, FX_ONE as int));
            }
            let d1 = scale3(nm, self.speed);
            proof {
                crate::math::lemma_scale3_bounded(
                    nm,
                    self.speed as int,
                    FX_ONE as int,
                    SPEED_CAP as int,
                );
            }
            let disp = scale3(d1, dtc);
            proof {
                crate::math::lemma_scale3_bounded(d1, dtc as int, SPEED_CAP as int, DT_CAP as int);
            }
            self.position = Vec3 {
                x: fx_clamp(self.position.x + disp.x, -POS_CAP, POS_CAP),
                y: fx_clamp(self.position.y + disp.y, -POS_CAP, POS_CAP),
                z: fx_clamp(self.position.z + disp.z, -POS_CAP, POS_CAP),
            };
        }
    }

    /// Advance the camera by `dt` fixed-point seconds (capped at 50 ms):
    /// integrate roll from the roll keys, re-clamp pitch, derive the view
    /// basis from yaw and pitch, tilt it by roll, accumulate the movement
    /// vector from the held keys, normalize it so diagonal movement is not
    /// faster, and advance the position by `movement * speed * dt`.
    /// Returns whether anything changed, so the caller knows whether
    /// dependent uniforms must be re-uploaded.
    pub fn update(&mut self, dt: i64) -> (r: bool)
        requires
            old(self).wf(),
            dt >= 0,
        ensures
            final(self).wf(),
            *final(self) == spec_camera_updated(*old(self), dt as int),
            r == spec_update_changed(*old(self)),
    {
        let dtc: i64 = if dt > DT_CAP {
            DT_CAP
        } else {
            dt
        };
        let changed = self.is_forward_pressed || self.is_backward_pressed || self.is_left_pressed
            || self.is_right_pressed || self.is_up_pressed || self.is_down_pressed
            || self.is_roll_left_pressed || self.is_roll_right_pressed;
        self.step_roll_pitch(dtc);
        let movement = self.frame_movement();
        self.step_position(movement, dtc);
        changed
    }
}

} // verus!

verus! {

/// The view matrix of an eye position, a forward direction and an up
/// direction, right-handed: the orthonormalized axes as rows and the
/// negated eye projections as the translation column; translation entries
/// saturate at the fixed-point range.
pub open spec fn spec_look_at(eye: Vec3, forward: Vec3, up: Vec3) -> Mat4 {
    let f = spec_normalize3(forward);
    let s = spec_normalize3(spec_cross3(f, up));
    let u = spec_cross3(s, f);
    Mat4 {
        c0: Vec4 { x: s.x, y: u.x, z: (-f.x) as i64, w: 0 },
        c1: Vec4 { x: s.y, y: u.y, z: (-f.y) as i64, w: 0 },
        c2: Vec4 { x: s.z, y: u.z, z: (-f.z) as i64, w: 0 },
        c3: Vec4 {
            x: spec_clamp(-spec_fxdot3(s, eye), -FX_LIMIT as int, FX_LIMIT as int) as i64,
            y: spec_clamp(-spec_fxdot3(u, eye), -FX_LIMIT as int, FX_LIMIT as int) as i64,
            z: spec_clamp(spec_fxdot3(f, eye), -FX_LIMIT as int, FX_LIMIT as int) as i64,
            w: FX_ONE,
        },
    }
}

/// The camera's view matrix: look from its position along its view basis,
/// tilted by its roll.
pub open spec fn spec_view_matrix(cam: Camera) -> Mat4 {
    let basis = spec_basis(cam.yaw as int, cam.pitch as int);
    let rolled = spec_rolled(basis.1, basis.2, cam.roll as int);
    spec_look_at(cam.position, basis.0, rolled.1)
}

/// The camera's perspective projection matrix: focal scale from the half
/// field of view, divided by the aspect ratio in the first column, and the
/// standard depth mapping of the near and far planes. Entries saturate at
/// the fixed-point range.
pub open spec fn spec_projection_matrix(fovy: int, aspect: int, znear: int, zfar: int) -> Mat4 {
    let half = fovy / 2;
    let sh = spec_sin_fx(half);
    let ch = spec_cos_fx(half);
    let f = if sh > 0 {
        spec_fx_div(ch, sh)
    } else {
        FX_ONE as int
    };
    let c00 = if aspect > 0 {
        spec_clamp(spec_fx_div(f, aspect), -FX_LIMIT as int, FX_LIMIT as int)
    } else {
        f
    };
    let c22 = spec_clamp(
        -spec_fx_div(zfar + znear, zfar - znear),
        -FX_LIMIT as int,
        FX_LIMIT as int,
    );
    let t = spec_clamp(spec_fx_mul(zfar, znear), -FX_LIMIT as int, FX_LIMIT as int);
    let u = spec_clamp(spec_fx_div(t, zfar - znear), -HALF_LIMIT as int, HALF_LIMIT as int);
    Mat4 {
        c0: Vec4 { x: c00 as i64, y: 0, z: 0, w: 0 },
        c1: Vec4 { x: 0, y: f as i64, z: 0, w: 0 },
        c2: Vec4 { x: 0, y: 0, z: c22 as i64, w: (-FX_ONE) as i64 },
        c3: Vec4 { x: 0, y: 0, z: (-2 * u) as i64, w: 0 },
    }
}

impl Camera {
    /// The view matrix for rendering, derived from the current position,
    /// yaw, pitch and roll.
    pub fn get_view_matrix(&self) -> (r: Mat4)
        requires
            self.wf(),
        ensures
            r == spec_view_matrix(*self),
            mat4_bounded(r, FX_LIMIT as int),
    {
        let basis = self.view_basis();
        let rolled = self.rolled_axes(basis.1, basis.2);
        let f = normalize3(basis.0);
        let fu_cross = cross3(f, rolled.1);
        proof {
            crate::math::lemma_cross3_bounded(f, rolled.1, FX_ONE as int, 6 * FX_ONE as int);
        }
        let s = normalize3(fu_cross);
        proof {
            assert(vec3_bounded(s, 12 * FX_ONE as int));
        }
        let u = cross3(s, f);
        proof {
            crate::math::lemma_cross3_bounded(s, f, 12 * FX_ONE as int, FX_ONE as int);
        }
        proof {
            assert(POS_CAP == FX_LIMIT / 8);
        }
        let tx = fx_clamp(-fxdot3(s, self.position), -FX_LIMIT, FX_LIMIT);
        let ty = fx_clamp(-fxdot3(u, self.position), -FX_LIMIT, FX_LIMIT);
        let tz = fx_clamp(fxdot3(f, self.position), -FX_LIMIT, FX_LIMIT);
        Mat4 {
            c0: Vec4 { x: s.x, y: u.x, z: -f.x, w: 0 },
            c1: Vec4 { x: s.y, y: u.y, z: -f.y, w: 0 },
            c2: Vec4 { x: s.z, y: u.z, z: -f.z, w: 0 },
            c3: Vec4 { x: tx, y: ty, z: tz, w: FX_ONE },
        }
    }

    /// The projection matrix for rendering, derived from the field of
    /// view, aspect ratio and clip planes.
    pub fn get_projection_matrix(&self) -> (r: Mat4)
        requires
            self.wf(),
        ensures
            r == spec_projection_matrix(
                self.fovy as int,
                self.aspect_ratio as int,
                self.znear as int,
                self.zfar as int,
            ),
            mat4_bounded(r, FX_LIMIT as int),
    {
        let half = ((self.fovy as u64) / 2) as i64;
        let sh = sin_fx(half);
        let ch = cos_fx(half);
        let f = if sh > 0 {
            fx_div(ch, sh)
        } else {
            FX_ONE
        };
        proof {
            if sh > 0 {
                lemma_div_le_num(ch as int, sh as int);
            }
        }
        let c00 = if self.aspect_ratio > 0 {
            fx_clamp(fx_div(f, self.aspect_ratio), -FX_LIMIT, FX_LIMIT)
        } else {
            f
        };
        let c22 = fx_clamp(-fx_div(self.zfar + self.znear, self.zfar - self.znear), -FX_LIMIT, FX_LIMIT);
        let t = fx_clamp(fx_mul(self.zfar, self.znear), -FX_LIMIT, FX_LIMIT);
        let u = fx_clamp(fx_div(t, self.zfar - self.znear), -HALF_LIMIT, HALF_LIMIT);
        proof {
            assert(-HALF_LIMIT <= u <= HALF_LIMIT);
        }
        let c32 = -2 * u;
        Mat4 {
            c0: Vec4 { x: c00, y: 0, z: 0, w: 0 },
            c1: Vec4 { x: 0, y: f, z: 0, w: 0 },
            c2: Vec4 { x: 0, y: 0, z: c22, w: -FX_ONE },
            c3: Vec4 { x: 0, y: 0, z: c32, w: 0 },
        }
    }

    /// The combined view-projection matrix: the projection applied after
    /// the view.
    pub fn get_view_projection_matrix(&self) -> (r: Mat4)
        requires
            self.wf(),
        ensures
            r == spec_mat_mul(
                spec_projection_matrix(
                    self.fovy as int,
                    self.aspect_ratio as int,
                    self.znear as int,
                    self.zfar as int,
                ),
                spec_view_matrix(*self),
            ),
    {
        let proj = self.get_projection_matrix();
        let view = self.get_view_matrix();
        mat_mul(&proj, &view)
    }
}

/// A positive quotient of fixed-point values stays within range when the
/// numerator is one unit at most.
proof fn lemma_div_le_num(ch: int, sh: int)
    requires
        abs_int(ch) <= FX_ONE as int,
        sh >= 1,
    ensures
        abs_int(spec_fx_div(ch, sh)) <= (FX_ONE as int) * (FX_ONE as int),
{
    assert(abs_int(ch * (FX_ONE as int)) == abs_int(ch) * (FX_ONE as int)) by (nonlinear_arith);
    assert(abs_int(ch) * (FX_ONE as int) <= (FX_ONE as int) * (FX_ONE as int)) by (nonlinear_arith)
        requires
            abs_int(ch) <= FX_ONE as int,
    ;
    vstd::arithmetic::div_mod::lemma_div_is_ordered(
        abs_int(ch) * (FX_ONE as int),
        (FX_ONE as int) * (FX_ONE as int),
        sh,
    );
    vstd::arithmetic::div_mod::lemma_div_is_ordered_by_denominator(
        (FX_ONE as int) * (FX_ONE as int),
        1,
        sh,
    );
    vstd::arithmetic::div_mod::lemma_div_basics((FX_ONE as int) * (FX_ONE as int));
    vstd::arithmetic::div_mod::lemma_div_pos_is_pos(abs_int(ch) * (FX_ONE as int), sh);
}

} // verus!

verus! {

/// The summed yaw contributions of a delta sequence: `dx * sensitivity`
/// for each delta.
pub open spec fn spec_yaw_contrib_sum(deltas: Seq<(i64, i64)>, sens: int) -> int
    decreases deltas.len(),
{
    if deltas.len() == 0 {
        0
    } else {
        spec_fx_mul(deltas.first().0 as int, sens) + spec_yaw_contrib_sum(
            deltas.drop_first(),
            sens,
        )
    }
}

/// The summed pitch contributions of a delta sequence: `dy * sensitivity`
/// for each delta.
pub open spec fn spec_pitch_contrib_sum(deltas: Seq<(i64, i64)>, sens: int) -> int
    decreases deltas.len(),
{
    if deltas.len() == 0 {
        0
    } else {
        spec_fx_mul(deltas.first().1 as int, sens) + spec_pitch_contrib_sum(
            deltas.drop_first(),
            sens,
        )
    }
}

/// The camera after a drag session over the given cursor deltas: before
/// each event the caller has moved the cursor back to the rotation
/// origin, so each event arrives at `origin + delta`.
pub open spec fn spec_drag_session(cam: Camera, deltas: Seq<(i64, i64)>) -> Camera
    decreases deltas.len(),
{
    if deltas.len() == 0 {
        cam
    } else {
        let o = cam.rotation_origin->0;
        let d = deltas.first();
        let stepped = spec_process_mouse_move(
            cam,
            ((o.0 + d.0) as i64, (o.1 + d.1) as i64),
            true,
        ).0;
        spec_drag_session(stepped, deltas.drop_first())
    }
}

/// A delta the session arithmetic accepts.
pub open spec fn small_delta(d: (i64, i64)) -> bool {
    abs_int(d.0 as int) <= (FX_LIMIT / 2) as int && abs_int(d.1 as int) <= (FX_LIMIT / 2) as int
}

/// Rotation deltas accumulate: after a drag session over any nonzero
/// deltas — the cursor returned to the rotation origin between events —
/// the final yaw equals the initial yaw plus the sum of all per-delta
/// contributions (wrapped into one turn), and, as long as no intermediate
/// pitch hits the field-of-view clamp, the final pitch equals the initial
/// pitch minus the sum of all per-delta contributions. Feeding the same
/// delta twice therefore yields double the rotation, not zero: the
/// baseline reset to the origin, not to the raw cursor position, keeps
/// every delta counted.
pub proof fn lemma_drag_accumulates(cam: Camera, deltas: Seq<(i64, i64)>)
    requires
        cam.wf(),
        cam.rotation_origin is Some,
        cam.last_mouse_pos == cam.rotation_origin,
        forall|i: int|
            0 <= i < deltas.len() ==> ((#[trigger] deltas[i]).0 != 0 || deltas[i].1 != 0),
        forall|i: int| 0 <= i < deltas.len() ==> small_delta(#[trigger] deltas[i]),
    ensures
        spec_drag_session(cam, deltas).yaw == spec_wrap(
            cam.yaw + spec_yaw_contrib_sum(deltas, cam.sensitivity as int),
        ),
        (forall|k: int|
            1 <= k <= deltas.len() ==> {
                let p = cam.pitch - spec_pitch_contrib_sum(
                    #[trigger] deltas.take(k),
                    cam.sensitivity as int,
                );
                -cam.fovy <= p <= cam.fovy
            }) ==> spec_drag_session(cam, deltas).pitch == cam.pitch - spec_pitch_contrib_sum(
            deltas,
            cam.sensitivity as int,
        ),
    decreases deltas.len(),
{
    let m = TWO_PI as int;
    if deltas.len() == 0 {
        vstd::arithmetic::div_mod::lemma_small_mod(cam.yaw as nat, TWO_PI as nat);
    } else {
        let o = cam.rotation_origin->0;
        let d = deltas.first();
        let pos = ((o.0 + d.0) as i64, (o.1 + d.1) as i64);
        let sens = cam.sensitivity as int;
        let cy = spec_fx_mul(d.0 as int, sens);
        let cp = spec_fx_mul(d.1 as int, sens);
        let step = spec_process_mouse_move(cam, pos, true);
        let cam1 = step.0;
        // The event's delta against the origin baseline is exactly `d`.
        assert(pos.0 as int - o.0 as int == d.0 as int);
        assert(pos.1 as int - o.1 as int == d.1 as int);
        assert(cam1.yaw == spec_wrap(cam.yaw + cy));
        assert(cam1.pitch == spec_clamp(cam.pitch - cp, -cam.fovy as int, cam.fovy as int));
        assert(cam1.rotation_origin == cam.rotation_origin);
        assert(cam1.last_mouse_pos == cam.rotation_origin);
        assert(cam1.sensitivity == cam.sensitivity);
        assert(cam1.fovy == cam.fovy);
        vstd::arithmetic::div_mod::lemma_mod_bound(cam.yaw + cy, m);
        assert(cam1.wf());
        lemma_drag_accumulates(cam1, deltas.drop_first());
        // Yaw: fold the wrap of the first step into the total sum.
        let rest_y = spec_yaw_contrib_sum(deltas.drop_first(), sens);
        assert(spec_drag_session(cam, deltas) == spec_drag_session(cam1, deltas.drop_first()));
        assert(spec_drag_session(cam1, deltas.drop_first()).yaw == spec_wrap(
            cam1.yaw + rest_y,
        ));
        vstd::arithmetic::div_mod::lemma_add_mod_noop_right(rest_y, cam.yaw + cy, m);
        assert(spec_wrap(spec_wrap(cam.yaw + cy) + rest_y) == spec_wrap(cam.yaw + cy + rest_y));
        assert(spec_yaw_contrib_sum(deltas, sens) == cy + rest_y);
        // Pitch: under the no-clamp hypothesis each partial sum stays in
        // range, so the first clamp is a no-op and the rest follows by
        // induction.
        if forall|k: int|
            1 <= k <= deltas.len() ==> {
                let p = cam.pitch - spec_pitch_contrib_sum(
                    #[trigger] deltas.take(k),
                    cam.sensitivity as int,
                );
                -cam.fovy <= p <= cam.fovy
            } {
            assert(deltas.take(1).drop_first() =~= Seq::<(i64, i64)>::empty());
            assert(deltas.take(1).first() == d);
            assert(spec_pitch_contrib_sum(Seq::<(i64, i64)>::empty(), sens) == 0);
            assert(spec_pitch_contrib_sum(deltas.take(1), sens) == cp);
            assert(-cam.fovy <= cam.pitch - cp <= cam.fovy);
            assert(cam1.pitch == cam.pitch - cp);
            assert forall|k: int| 1 <= k <= deltas.drop_first().len() implies {
                let p = cam1.pitch - spec_pitch_contrib_sum(
                    #[trigger] deltas.drop_first().take(k),
                    cam1.sensitivity as int,
                );
                -cam1.fovy <= p <= cam1.fovy
            } by {
                assert(deltas.take(k + 1).drop_first() =~= deltas.drop_first().take(k));
                assert(deltas.take(k + 1).first() == d);
                assert(spec_pitch_contrib_sum(deltas.take(k + 1), sens) == cp
                    + spec_pitch_contrib_sum(deltas.drop_first().take(k), sens));
            }
            assert(deltas.drop_first().take(deltas.drop_first().len() as int) =~= deltas.drop_first());
            assert(spec_pitch_contrib_sum(deltas, sens) == cp + spec_pitch_contrib_sum(
                deltas.drop_first(),
                sens,
            ));
        }
    }
}

} // verus!
