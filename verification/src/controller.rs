//! First-person navigation: continuous per-frame integration over boolean
//! movement flags, with yaw/pitch mouse look.
//!
//! Angles are millidegrees. The controller's own arithmetic is exact
//! fixed-point; the sines and cosines it steers by are irrational, so the
//! per-frame update takes them as arguments and states exactly what it does
//! with whatever values it is handed.

use vstd::prelude::*;
use crate::camera::Camera;
use crate::fixed::{
    clamp_i64, clamp_spec, div_trunc, floor_sqrt, fx_mul, is_floor_sqrt, isqrt_u64,
    lemma_div_trunc_mono_bound, lemma_mul_bound, mul_div, mul_fx, vec3_in_range, Vec2Fx, Vec3Fx,
    SCALE,
};

verus! {

/// The pitch clamp, a hair under a quarter turn (89 degrees in
/// millidegrees), keeping the look direction away from the poles.
pub const PITCH_LIMIT: i64 = 89_000;

/// Largest yaw magnitude the controller accumulates to; callers keep the
/// angle inside this (it is hundreds of thousands of full turns).
pub const YAW_ACCUM_LIMIT: i64 = 1_000_000_000_000;

/// A movement key the controller reacts to.
#[derive(Clone, Copy, PartialEq, Eq, Structural, Debug)]
pub enum NavKey {
    Forward,
    Backward,
    Left,
    Right,
    Up,
    Down,
}

/// A mouse button; only the left one drives the looking flag.
#[derive(Clone, Copy, PartialEq, Eq, Structural, Debug)]
pub enum NavButton {
    Left,
    Right,
    Middle,
    Other,
}

/// A sine/cosine pair in fixed point, supplied by the caller.
#[derive(Clone, Copy, PartialEq, Eq, Structural, Debug)]
pub struct TrigPair {
    pub sin: i64,
    pub cos: i64,
}

impl TrigPair {
    /// Both components stay within one fixed-point unit.
    pub open spec fn bounded(self) -> bool {
        -SCALE <= self.sin <= SCALE && -SCALE <= self.cos <= SCALE
    }
}

/// Process-local navigation state: six movement-key flags, the mouse-look
/// flag, the last raw pointer position, and the look angles.
pub struct CameraController {
    pub speed: i64,
    pub sensitivity: i64,
    pub forward_pressed: bool,
    pub backward_pressed: bool,
    pub left_pressed: bool,
    pub right_pressed: bool,
    pub up_pressed: bool,
    pub down_pressed: bool,
    pub mouse_pressed: bool,
    pub last_mouse_pos: Vec2Fx,
    pub yaw: i64,
    pub pitch: i64,
}

/// The unnormalized movement direction the pressed flags combine to, over
/// the yaw basis `forward = (sin, 0, cos)`, `right = (-cos, 0, sin)`,
/// vertical on world Y. Pitch plays no part: classic ground-walk movement.
pub open spec fn move_dir_x(c: CameraController, yaw_trig: TrigPair) -> int {
    (if c.forward_pressed {
        yaw_trig.sin as int
    } else {
        0
    }) - (if c.backward_pressed {
        yaw_trig.sin as int
    } else {
        0
    }) + (if c.right_pressed {
        -(yaw_trig.cos as int)
    } else {
        0
    }) - (if c.left_pressed {
        -(yaw_trig.cos as int)
    } else {
        0
    })
}

pub open spec fn move_dir_y(c: CameraController) -> int {
    (if c.up_pressed {
        SCALE as int
    } else {
        0
    }) - (if c.down_pressed {
        SCALE as int
    } else {
        0
    })
}

pub open spec fn move_dir_z(c: CameraController, yaw_trig: TrigPair) -> int {
    (if c.forward_pressed {
        yaw_trig.cos as int
    } else {
        0
    }) - (if c.backward_pressed {
        yaw_trig.cos as int
    } else {
        0
    }) + (if c.right_pressed {
        yaw_trig.sin as int
    } else {
        0
    }) - (if c.left_pressed {
        yaw_trig.sin as int
    } else {
        0
    })
}

impl CameraController {
    /// Angles in range, rates within the bounds the update arithmetic needs.
    pub open spec fn inv(self) -> bool {
        &&& -PITCH_LIMIT <= self.pitch <= PITCH_LIMIT
        &&& -YAW_ACCUM_LIMIT <= self.yaw <= YAW_ACCUM_LIMIT
        &&& 0 <= self.speed <= 1_000_000_000
        &&& 0 <= self.sensitivity <= 1_000_000
    }

    pub fn new(speed: i64, sensitivity: i64) -> (c: CameraController)
        requires
            0 <= speed <= 1_000_000_000,
            0 <= sensitivity <= 1_000_000,
        ensures
            c.inv(),
            c.speed == speed,
            c.sensitivity == sensitivity,
            !c.forward_pressed && !c.backward_pressed && !c.left_pressed && !c.right_pressed
                && !c.up_pressed && !c.down_pressed && !c.mouse_pressed,
            c.yaw == 0 && c.pitch == 0,
            c.last_mouse_pos == (Vec2Fx { x: 0, y: 0 }),
    {
        CameraController {
            speed,
            sensitivity,
            forward_pressed: false,
            backward_pressed: false,
            left_pressed: false,
            right_pressed: false,
            up_pressed: false,
            down_pressed: false,
            mouse_pressed: false,
            last_mouse_pos: Vec2Fx { x: 0, y: 0 },
            yaw: 0,
            pitch: 0,
        }
    }

    /// Sets the flag for the pressed or released movement key; all other
    /// state is untouched.
    pub fn process_keyboard(&mut self, key: NavKey, pressed: bool)
        ensures
            final(self).forward_pressed == (if key == NavKey::Forward {
                pressed
            } else {
                old(self).forward_pressed
            }),
            final(self).backward_pressed == (if key == NavKey::Backward {
                pressed
            } else {
                old(self).backward_pressed
            }),
            final(self).left_pressed == (if key == NavKey::Left {
                pressed
            } else {
                old(self).left_pressed
            }),
            final(self).right_pressed == (if key == NavKey::Right {
                pressed
            } else {
                old(self).right_pressed
            }),
            final(self).up_pressed == (if key == NavKey::Up {
                pressed
            } else {
                old(self).up_pressed
            }),
            final(self).down_pressed == (if key == NavKey::Down {
                pressed
            } else {
                old(self).down_pressed
            }),
            final(self).mouse_pressed == old(self).mouse_pressed,
            final(self).yaw == old(self).yaw,
            final(self).pitch == old(self).pitch,
            final(self).speed == old(self).speed,
            final(self).sensitivity == old(self).sensitivity,
            final(self).last_mouse_pos == old(self).last_mouse_pos,
    {
        match key {
            NavKey::Forward => self.forward_pressed = pressed,
            NavKey::Backward => self.backward_pressed = pressed,
            NavKey::Left => self.left_pressed = pressed,
            NavKey::Right => self.right_pressed = pressed,
            NavKey::Up => self.up_pressed = pressed,
            NavKey::Down => self.down_pressed = pressed,
        }
    }

    /// The left button toggles the looking flag; other buttons do nothing.
    pub fn process_mouse(&mut self, button: NavButton, pressed: bool)
        ensures
            final(self).mouse_pressed == (if button == NavButton::Left {
                pressed
            } else {
                old(self).mouse_pressed
            }),
            final(self).yaw == old(self).yaw,
            final(self).pitch == old(self).pitch,
            final(self).forward_pressed == old(self).forward_pressed,
            final(self).backward_pressed == old(self).backward_pressed,
            final(self).left_pressed == old(self).left_pressed,
            final(self).right_pressed == old(self).right_pressed,
            final(self).up_pressed == old(self).up_pressed,
            final(self).down_pressed == old(self).down_pressed,
            final(self).speed == old(self).speed,
            final(self).sensitivity == old(self).sensitivity,
            final(self).last_mouse_pos == old(self).last_mouse_pos,
    {
        if button == NavButton::Left {
            self.mouse_pressed = pressed;
        }
    }

    /// Mouse look, processed unconditionally (not gated on the button —
    /// first-person "always look"): the yaw and pitch turn against the
    /// pointer delta scaled by the sensitivity, and the pitch is clamped to
    /// the limit so the view never flips over the poles. Deltas are in
    /// thousandths of a pointer count.
    pub fn process_mouse_motion(&mut self, delta_x: i64, delta_y: i64)
        requires
            old(self).inv(),
            -1_000_000 <= delta_x <= 1_000_000,
            -1_000_000 <= delta_y <= 1_000_000,
            -YAW_ACCUM_LIMIT + 1_000_000_000 <= old(self).yaw <= YAW_ACCUM_LIMIT - 1_000_000_000,
        ensures
            final(self).inv(),
            final(self).yaw == old(self).yaw - fx_mul(
                delta_x as int,
                old(self).sensitivity as int,
            ),
            final(self).pitch == clamp_spec(
                old(self).pitch - fx_mul(delta_y as int, old(self).sensitivity as int),
                -PITCH_LIMIT as int,
                PITCH_LIMIT as int,
            ),
            -PITCH_LIMIT <= final(self).pitch <= PITCH_LIMIT,
            final(self).forward_pressed == old(self).forward_pressed,
            final(self).backward_pressed == old(self).backward_pressed,
            final(self).left_pressed == old(self).left_pressed,
            final(self).right_pressed == old(self).right_pressed,
            final(self).up_pressed == old(self).up_pressed,
            final(self).down_pressed == old(self).down_pressed,
            final(self).mouse_pressed == old(self).mouse_pressed,
            final(self).speed == old(self).speed,
            final(self).sensitivity == old(self).sensitivity,
            final(self).last_mouse_pos == old(self).last_mouse_pos,
    {
        proof {
            lemma_mul_bound(delta_x as int, self.sensitivity as int, 1_000_000, 1_000_000);
            lemma_mul_bound(delta_y as int, self.sensitivity as int, 1_000_000, 1_000_000);
        }
        let dyaw = mul_fx(delta_x, self.sensitivity);
        let dpitch = mul_fx(delta_y, self.sensitivity);
        self.yaw = self.yaw - dyaw;
        self.pitch = clamp_i64(self.pitch - dpitch, -PITCH_LIMIT, PITCH_LIMIT);
    }

    /// Resets the look angles directly (scene load, restored viewpoint);
    /// the pitch lands clamped so the invariant holds.
    pub fn set_yaw_pitch(&mut self, yaw: i64, pitch: i64)
        requires
            old(self).inv(),
            -YAW_ACCUM_LIMIT <= yaw <= YAW_ACCUM_LIMIT,
        ensures
            final(self).inv(),
            final(self).yaw == yaw,
            final(self).pitch == clamp_spec(pitch as int, -PITCH_LIMIT as int, PITCH_LIMIT as int),
            final(self).forward_pressed == old(self).forward_pressed,
            final(self).backward_pressed == old(self).backward_pressed,
            final(self).left_pressed == old(self).left_pressed,
            final(self).right_pressed == old(self).right_pressed,
            final(self).up_pressed == old(self).up_pressed,
            final(self).down_pressed == old(self).down_pressed,
            final(self).mouse_pressed == old(self).mouse_pressed,
            final(self).speed == old(self).speed,
            final(self).sensitivity == old(self).sensitivity,
            final(self).last_mouse_pos == old(self).last_mouse_pos,
    {
        self.yaw = yaw;
        self.pitch = clamp_i64(pitch, -PITCH_LIMIT, PITCH_LIMIT);
    }

    pub fn get_yaw(&self) -> (r: i64)
        ensures
            r == self.yaw,
    {
        self.yaw
    }

    pub fn get_pitch(&self) -> (r: i64)
        ensures
            r == self.pitch,
    {
        self.pitch
    }

    /// One frame of navigation. The caller hands in the sine/cosine of the
    /// controller's yaw and pitch; the update then moves the position along
    /// the flag-combined direction (normalized, scaled by speed and `dt`
    /// in fixed-point seconds) and re-aims the target from yaw and pitch
    /// regardless of movement.
    pub fn update_camera(&self, camera: &mut Camera, dt: i64, yaw_trig: TrigPair, pitch_trig: TrigPair)
        requires
            self.inv(),
            yaw_trig.bounded(),
            pitch_trig.bounded(),
            0 <= dt <= 3_600_000,
            vec3_in_range(old(camera).position),
        ensures
            ({
                let vx = move_dir_x(*self, yaw_trig);
                let vy = move_dir_y(*self);
                let vz = move_dir_z(*self, yaw_trig);
                let scale = fx_mul(self.speed as int, dt as int);
                if vx == 0 && vy == 0 && vz == 0 {
                    final(camera).position == old(camera).position
                } else {
                    let norm = floor_sqrt(vx * vx + vy * vy + vz * vz);
                    &&& final(camera).position.x as int == old(camera).position.x + div_trunc(
                        vx * scale,
                        norm,
                    )
                    &&& final(camera).position.y as int == old(camera).position.y + div_trunc(
                        vy * scale,
                        norm,
                    )
                    &&& final(camera).position.z as int == old(camera).position.z + div_trunc(
                        vz * scale,
                        norm,
                    )
                }
            }),
            final(camera).target.x as int == final(camera).position.x + fx_mul(
                pitch_trig.cos as int,
                yaw_trig.sin as int,
            ),
            final(camera).target.y as int == final(camera).position.y + pitch_trig.sin,
            final(camera).target.z as int == final(camera).position.z + fx_mul(
                pitch_trig.cos as int,
                yaw_trig.cos as int,
            ),
            final(camera).fov == old(camera).fov,
            final(camera).aspect == old(camera).aspect,
    {
        let mut vx: i64 = 0;
        let mut vy: i64 = 0;
        let mut vz: i64 = 0;
        if self.forward_pressed {
            vx = vx + yaw_trig.sin;
            vz = vz + yaw_trig.cos;
        }
        if self.backward_pressed {
            vx = vx - yaw_trig.sin;
            vz = vz - yaw_trig.cos;
        }
        if self.right_pressed {
            vx = vx - yaw_trig.cos;
            vz = vz + yaw_trig.sin;
        }
        if self.left_pressed {
            vx = vx + yaw_trig.cos;
            vz = vz - yaw_trig.sin;
        }
        if self.up_pressed {
            vy = vy + SCALE;
        }
        if self.down_pressed {
            vy = vy - SCALE;
        }
        proof {
            assert(vx as int == move_dir_x(*self, yaw_trig));
            assert(vy as int == move_dir_y(*self));
            assert(vz as int == move_dir_z(*self, yaw_trig));
        }
        if !(vx == 0 && vy == 0 && vz == 0) {
            proof {
                lemma_mul_bound(vx as int, vx as int, 3000, 3000);
                lemma_mul_bound(vy as int, vy as int, 3000, 3000);
                lemma_mul_bound(vz as int, vz as int, 3000, 3000);
                assert(vx * vx >= 0 && vy * vy >= 0 && vz * vz >= 0) by (nonlinear_arith);
                assert(vx != 0 ==> vx * vx >= 1) by (nonlinear_arith);
                assert(vy != 0 ==> vy * vy >= 1) by (nonlinear_arith);
                assert(vz != 0 ==> vz * vz >= 1) by (nonlinear_arith);
            }
            let sq = vx * vx + vy * vy + vz * vz;
            let norm64 = isqrt_u64(sq as u64);
            proof {
                assert(1 <= norm64 as int <= 6000) by (nonlinear_arith)
                    requires
                        is_floor_sqrt(sq as int, norm64 as int),
                        1 <= sq as int <= 27_000_000,
                ;
                lemma_mul_bound(self.speed as int, dt as int, 1_000_000_000, 3_600_000);
                lemma_div_trunc_mono_bound(
                    self.speed as int * dt as int,
                    SCALE as int,
                    3_600_000_000_000_000,
                );
            }
            let norm = norm64 as i64;
            let scale = mul_fx(self.speed, dt);
            proof {
                lemma_mul_bound(vx as int, scale as int, 3000, 3_600_000_000_000);
                lemma_mul_bound(vy as int, scale as int, 3000, 3_600_000_000_000);
                lemma_mul_bound(vz as int, scale as int, 3000, 3_600_000_000_000);
            }
            let dx = mul_div(vx, scale, norm);
            let dy = mul_div(vy, scale, norm);
            let dz = mul_div(vz, scale, norm);
            camera.position = Vec3Fx {
                x: camera.position.x + dx,
                y: camera.position.y + dy,
                z: camera.position.z + dz,
            };
        }
        proof {
            lemma_mul_bound(pitch_trig.cos as int, yaw_trig.sin as int, SCALE as int, SCALE as int);
            lemma_mul_bound(pitch_trig.cos as int, yaw_trig.cos as int, SCALE as int, SCALE as int);
        }
        let lx = mul_fx(pitch_trig.cos, yaw_trig.sin);
        let lz = mul_fx(pitch_trig.cos, yaw_trig.cos);
        camera.target = Vec3Fx {
            x: camera.position.x + lx,
            y: camera.position.y + pitch_trig.sin,
            z: camera.position.z + lz,
        };
    }
}

/// Mouse look cannot push the pitch past the clamp: a turn whose raw
/// result would reach or pass the limit lands exactly on the limit, never
/// beyond it and never wrapped.
pub proof fn lemma_pitch_clamped(before: int, delta: int)
    ensures
        before - delta >= PITCH_LIMIT ==> clamp_spec(
            before - delta,
            -PITCH_LIMIT as int,
            PITCH_LIMIT as int,
        ) == PITCH_LIMIT,
        before - delta <= -PITCH_LIMIT ==> clamp_spec(
            before - delta,
            -PITCH_LIMIT as int,
            PITCH_LIMIT as int,
        ) == -PITCH_LIMIT,
        -PITCH_LIMIT <= clamp_spec(before - delta, -PITCH_LIMIT as int, PITCH_LIMIT as int)
            <= PITCH_LIMIT,
{
}

} // verus!
