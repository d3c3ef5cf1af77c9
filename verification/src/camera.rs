//! The render camera and the uniform handed to the renderer each frame: a
//! view-projection matrix and the camera's world position padded to four
//! components, all in fixed point.

use vstd::prelude::*;
use crate::fixed::{
    div_trunc, div_trunc_i64, floor_sqrt, fx_mul, is_floor_sqrt, isqrt_u64,
    lemma_div_trunc_mono_bound, lemma_mul_bound, lemma_normalized_component, lemma_sqrt_dominates,
    mul_div, mul_fx, vec3_in_range, Vec3Fx, SCALE,
};
use crate::compositor::segment_length;

verus! {

/// Why a camera uniform could not be built.
#[derive(Clone, Copy, PartialEq, Eq, Structural, Debug)]
pub enum CameraError {
    /// The look direction degenerates in the fixed-point model: the target
    /// coincides with the position, or the view is so close to the +Y pole
    /// that the in-plane basis vanishes.
    DegenerateView,
}

/// The camera the navigation controller drives: position, look-at target,
/// vertical field of view in fixed-point degrees, aspect ratio in fixed
/// point.
#[derive(Clone, Copy, PartialEq, Eq, Structural, Debug)]
pub struct Camera {
    pub position: Vec3Fx,
    pub target: Vec3Fx,
    pub fov: i64,
    pub aspect: i64,
}

impl Camera {
    pub fn new(position: Vec3Fx, target: Vec3Fx, fov: i64, aspect: i64) -> (c: Camera)
        ensures
            c == (Camera { position, target, fov, aspect }),
    {
        Camera { position, target, fov, aspect }
    }

    /// The authored scene camera, adopted at the given aspect ratio.
    pub fn from_scene(scene_camera: &crate::scene::Camera, aspect: i64) -> (c: Camera)
        ensures
            c.position == scene_camera.position,
            c.target == scene_camera.target,
            c.fov == scene_camera.fov,
            c.aspect == aspect,
    {
        Camera {
            position: scene_camera.position,
            target: scene_camera.target,
            fov: scene_camera.fov,
            aspect,
        }
    }
}

/// A fixed-point 4-vector (one matrix row, or a padded position).
#[derive(Clone, Copy, PartialEq, Eq, Structural, Debug)]
pub struct Vec4Fx {
    pub x: i64,
    pub y: i64,
    pub z: i64,
    pub w: i64,
}

/// A fixed-point 4x4 matrix, by rows.
#[derive(Clone, Copy, PartialEq, Eq, Structural, Debug)]
pub struct Mat4Fx {
    pub r0: Vec4Fx,
    pub r1: Vec4Fx,
    pub r2: Vec4Fx,
    pub r3: Vec4Fx,
}

/// The identity at this fixed-point scale.
pub open spec fn mat4_identity() -> Mat4Fx {
    Mat4Fx {
        r0: Vec4Fx { x: SCALE, y: 0, z: 0, w: 0 },
        r1: Vec4Fx { x: 0, y: SCALE, z: 0, w: 0 },
        r2: Vec4Fx { x: 0, y: 0, z: SCALE, w: 0 },
        r3: Vec4Fx { x: 0, y: 0, z: 0, w: SCALE },
    }
}

/// What the renderer reads each frame.
#[derive(Clone, Copy, PartialEq, Eq, Structural, Debug)]
pub struct CameraUniform {
    pub view_proj: Mat4Fx,
    pub camera_pos: Vec4Fx,
}

/// Near and far clip distances, in sub-units (0.1 and 1000 world units).
pub const NEAR_CLIP: i64 = 100;

pub const FAR_CLIP: i64 = 1_000_000;

/// The look direction before normalization.
pub open spec fn look_dx(c: Camera) -> int {
    c.target.x - c.position.x
}

pub open spec fn look_dy(c: Camera) -> int {
    c.target.y - c.position.y
}

pub open spec fn look_dz(c: Camera) -> int {
    c.target.z - c.position.z
}

/// The look direction's resolved length.
pub open spec fn look_norm(c: Camera) -> int {
    floor_sqrt(
        look_dx(c) * look_dx(c) + look_dy(c) * look_dy(c) + look_dz(c) * look_dz(c),
    )
}

/// The normalized look direction (`f`), one fixed-point unit long.
pub open spec fn look_fx(c: Camera) -> int {
    div_trunc(look_dx(c) * (SCALE as int), look_norm(c))
}

pub open spec fn look_fy(c: Camera) -> int {
    div_trunc(look_dy(c) * (SCALE as int), look_norm(c))
}

pub open spec fn look_fz(c: Camera) -> int {
    div_trunc(look_dz(c) * (SCALE as int), look_norm(c))
}

/// `f x world-up` is `(-f.z, 0, f.x)`; its length normalizes the side
/// vector `s`.
pub open spec fn side_norm(c: Camera) -> int {
    floor_sqrt(look_fx(c) * look_fx(c) + look_fz(c) * look_fz(c))
}

pub open spec fn side_x(c: Camera) -> int {
    div_trunc(-look_fz(c) * (SCALE as int), side_norm(c))
}

pub open spec fn side_z(c: Camera) -> int {
    div_trunc(look_fx(c) * (SCALE as int), side_norm(c))
}

/// The view-space up vector `u = s x f` (the side vector's Y component is
/// zero, which shortens the cross product).
pub open spec fn view_up_x(c: Camera) -> int {
    fx_mul(-side_z(c), look_fy(c))
}

pub open spec fn view_up_y(c: Camera) -> int {
    div_trunc(side_z(c) * look_fx(c) - side_x(c) * look_fz(c), SCALE as int)
}

pub open spec fn view_up_z(c: Camera) -> int {
    fx_mul(side_x(c), look_fy(c))
}

/// Translation terms: the basis vectors dotted with the eye position.
pub open spec fn dot_side_eye(c: Camera) -> int {
    div_trunc(side_x(c) * c.position.x + side_z(c) * c.position.z, SCALE as int)
}

pub open spec fn dot_up_eye(c: Camera) -> int {
    div_trunc(
        view_up_x(c) * c.position.x + view_up_y(c) * c.position.y + view_up_z(c) * c.position.z,
        SCALE as int,
    )
}

pub open spec fn dot_look_eye(c: Camera) -> int {
    div_trunc(
        look_fx(c) * c.position.x + look_fy(c) * c.position.y + look_fz(c) * c.position.z,
        SCALE as int,
    )
}

/// The projection's depth coefficient `far / (near - far)`: negative, so
/// it is computed as the negated quotient over the positive denominator.
pub open spec fn proj_r() -> int {
    -div_trunc((FAR_CLIP as int) * (SCALE as int), (FAR_CLIP as int) - (NEAR_CLIP as int))
}

/// The projection's depth translation `near · far / (near - far)`.
pub open spec fn proj_rzn() -> int {
    fx_mul(proj_r(), NEAR_CLIP as int)
}

/// The vertical focal scale `1 / tan(fov/2)`.
pub open spec fn proj_h(tan_half_fov: i64) -> int {
    div_trunc((SCALE as int) * (SCALE as int), tan_half_fov as int)
}

/// The horizontal focal scale, the vertical one over the aspect ratio.
pub open spec fn proj_w(tan_half_fov: i64, aspect: i64) -> int {
    div_trunc(proj_h(tan_half_fov) * (SCALE as int), aspect as int)
}

/// The fixed-point look direction cannot be normalized: the target sits on
/// the position, or the normalized direction has no X/Z extent (a view at
/// the pole).
pub open spec fn view_degenerate(c: Camera) -> bool {
    look_norm(c) == 0 || side_norm(c) == 0
}

/// The whole frame transform `projection · view`, row by row: the
/// right-handed look-at view (world up +Y) composed with the perspective
/// projection at the fixed near and far planes.
pub open spec fn view_proj_matrix(c: Camera, tan_half_fov: i64) -> Mat4Fx {
    let w = proj_w(tan_half_fov, c.aspect);
    let h = proj_h(tan_half_fov);
    let r = proj_r();
    Mat4Fx {
        r0: Vec4Fx {
            x: fx_mul(w, side_x(c)) as i64,
            y: 0,
            z: fx_mul(w, side_z(c)) as i64,
            w: fx_mul(w, -dot_side_eye(c)) as i64,
        },
        r1: Vec4Fx {
            x: fx_mul(h, view_up_x(c)) as i64,
            y: fx_mul(h, view_up_y(c)) as i64,
            z: fx_mul(h, view_up_z(c)) as i64,
            w: fx_mul(h, -dot_up_eye(c)) as i64,
        },
        r2: Vec4Fx {
            x: fx_mul(r, -look_fx(c)) as i64,
            y: fx_mul(r, -look_fy(c)) as i64,
            z: fx_mul(r, -look_fz(c)) as i64,
            w: (fx_mul(r, dot_look_eye(c)) + proj_rzn()) as i64,
        },
        r3: Vec4Fx {
            x: look_fx(c) as i64,
            y: look_fy(c) as i64,
            z: look_fz(c) as i64,
            w: (-dot_look_eye(c)) as i64,
        },
    }
}

impl CameraUniform {
    pub fn new() -> (u: CameraUniform)
        ensures
            u.view_proj == mat4_identity(),
            u.camera_pos == (Vec4Fx { x: 0, y: 0, z: 0, w: 0 }),
    {
        CameraUniform {
            view_proj: Mat4Fx {
                r0: Vec4Fx { x: SCALE, y: 0, z: 0, w: 0 },
                r1: Vec4Fx { x: 0, y: SCALE, z: 0, w: 0 },
                r2: Vec4Fx { x: 0, y: 0, z: SCALE, w: 0 },
                r3: Vec4Fx { x: 0, y: 0, z: 0, w: SCALE },
            },
            camera_pos: Vec4Fx { x: 0, y: 0, z: 0, w: 0 },
        }
    }

    /// Recomputes the uniform from the camera: `projection · view` per
    /// `view_proj_matrix`, and the camera position padded to four
    /// components. The caller supplies `tan(fov/2)` in fixed point, the one
    /// irrational quantity of the projection. Nothing changes on a
    /// degenerate view.
    pub fn update_view_proj(&mut self, camera: &Camera, tan_half_fov: i64) -> (r: Result<
        (),
        CameraError,
    >)
        requires
            vec3_in_range(camera.position),
            vec3_in_range(camera.target),
            1 <= tan_half_fov <= 1_000_000,
            100 <= camera.aspect <= 100_000,
        ensures
            r is Ok <==> !view_degenerate(*camera),
            r is Ok ==> final(self).view_proj == view_proj_matrix(*camera, tan_half_fov),
            r is Ok ==> final(self).camera_pos == (Vec4Fx {
                x: camera.position.x,
                y: camera.position.y,
                z: camera.position.z,
                w: 0,
            }),
            r is Err ==> *final(self) == *old(self) && r->Err_0 == CameraError::DegenerateView,
    {
        let n = segment_length(camera.position, camera.target);
        if n == 0 {
            return Err(CameraError::DegenerateView);
        }
        proof {
            let c = *camera;
            assert(look_dx(c) * look_dx(c) >= 0 && look_dy(c) * look_dy(c) >= 0 && look_dz(c)
                * look_dz(c) >= 0) by (nonlinear_arith);
            lemma_sqrt_dominates(
                look_dx(c) * look_dx(c) + look_dy(c) * look_dy(c) + look_dz(c) * look_dz(c),
                n as int,
                look_dx(c),
            );
            lemma_sqrt_dominates(
                look_dx(c) * look_dx(c) + look_dy(c) * look_dy(c) + look_dz(c) * look_dz(c),
                n as int,
                look_dy(c),
            );
            lemma_sqrt_dominates(
                look_dx(c) * look_dx(c) + look_dy(c) * look_dy(c) + look_dz(c) * look_dz(c),
                n as int,
                look_dz(c),
            );
            lemma_normalized_component(look_dx(c), n as int);
            lemma_normalized_component(look_dy(c), n as int);
            lemma_normalized_component(look_dz(c), n as int);
        }
        let fx = mul_div(camera.target.x - camera.position.x, SCALE, n);
        let fy = mul_div(camera.target.y - camera.position.y, SCALE, n);
        let fz = mul_div(camera.target.z - camera.position.z, SCALE, n);
        proof {
            assert(fx * fx >= 0 && fz * fz >= 0 && fx * fx <= 1_000_000 && fz * fz <= 1_000_000)
                by (nonlinear_arith)
                requires
                    -1000 <= fx <= 1000,
                    -1000 <= fz <= 1000,
            ;
        }
        let side_sq = fx * fx + fz * fz;
        let ns64 = isqrt_u64(side_sq as u64);
        proof {
            assert(ns64 as int <= 2000) by (nonlinear_arith)
                requires
                    is_floor_sqrt(side_sq as int, ns64 as int),
                    0 <= side_sq <= 2_000_000,
            ;
        }
        let ns = ns64 as i64;
        if ns == 0 {
            return Err(CameraError::DegenerateView);
        }
        proof {
            let c = *camera;
            assert(ns as int == side_norm(c));
            lemma_sqrt_dominates(side_sq as int, ns as int, fx as int);
            lemma_sqrt_dominates(side_sq as int, ns as int, fz as int);
            lemma_normalized_component(-(fz as int), ns as int);
            lemma_normalized_component(fx as int, ns as int);
        }
        let sx = mul_div(-fz, SCALE, ns);
        let sz = mul_div(fx, SCALE, ns);
        proof {
            lemma_mul_bound(-(sz as int), fy as int, 1000, 1000);
            lemma_mul_bound(sx as int, fy as int, 1000, 1000);
            lemma_mul_bound(sz as int, fx as int, 1000, 1000);
            lemma_mul_bound(sx as int, fz as int, 1000, 1000);
            lemma_div_trunc_mono_bound(-(sz as int) * (fy as int), SCALE as int, 1_000_000);
            lemma_div_trunc_mono_bound(sx as int * (fy as int), SCALE as int, 1_000_000);
            lemma_div_trunc_mono_bound(
                sz as int * (fx as int) - sx as int * (fz as int),
                SCALE as int,
                2_000_000,
            );
        }
        let ux = mul_fx(-sz, fy);
        let uy = div_trunc_i64(sz * fx - sx * fz, SCALE);
        let uz = mul_fx(sx, fy);
        proof {
            lemma_mul_bound(sx as int, camera.position.x as int, 1000, 1_000_000_000);
            lemma_mul_bound(sz as int, camera.position.z as int, 1000, 1_000_000_000);
            lemma_mul_bound(ux as int, camera.position.x as int, 2000, 1_000_000_000);
            lemma_mul_bound(uy as int, camera.position.y as int, 2000, 1_000_000_000);
            lemma_mul_bound(uz as int, camera.position.z as int, 2000, 1_000_000_000);
            lemma_mul_bound(fx as int, camera.position.x as int, 1000, 1_000_000_000);
            lemma_mul_bound(fy as int, camera.position.y as int, 1000, 1_000_000_000);
            lemma_mul_bound(fz as int, camera.position.z as int, 1000, 1_000_000_000);
        }
        proof {
            lemma_div_trunc_mono_bound(
                sx as int * camera.position.x + sz as int * camera.position.z,
                SCALE as int,
                2_000_000_000_000,
            );
            lemma_div_trunc_mono_bound(
                ux as int * camera.position.x + uy as int * camera.position.y + uz as int
                    * camera.position.z,
                SCALE as int,
                6_000_000_000_000,
            );
            lemma_div_trunc_mono_bound(
                fx as int * camera.position.x + fy as int * camera.position.y + fz as int
                    * camera.position.z,
                SCALE as int,
                3_000_000_000_000,
            );
            lemma_div_trunc_mono_bound(
                (FAR_CLIP as int) * (SCALE as int),
                (FAR_CLIP as int) - (NEAR_CLIP as int),
                1_000_000_000,
            );
        }
        let se = div_trunc_i64(sx * camera.position.x + sz * camera.position.z, SCALE);
        let ue = div_trunc_i64(
            ux * camera.position.x + uy * camera.position.y + uz * camera.position.z,
            SCALE,
        );
        let fe = div_trunc_i64(
            fx * camera.position.x + fy * camera.position.y + fz * camera.position.z,
            SCALE,
        );
        let h = div_trunc_i64(SCALE * SCALE, tan_half_fov);
        let w = div_trunc_i64(h * SCALE, camera.aspect);
        let r = -div_trunc_i64(FAR_CLIP * SCALE, FAR_CLIP - NEAR_CLIP);
        proof {
            lemma_mul_bound(r as int, NEAR_CLIP as int, 1001, NEAR_CLIP as int);
        }
        let rzn = mul_fx(r, NEAR_CLIP);
        proof {
            lemma_mul_bound(w as int, sx as int, 1_000_000_000, 1000);
            lemma_mul_bound(w as int, sz as int, 1_000_000_000, 1000);
            lemma_mul_bound(w as int, -(se as int), 1_000_000_000, 2_000_000_000);
            lemma_mul_bound(h as int, ux as int, 1_000_000, 2000);
            lemma_mul_bound(h as int, uy as int, 1_000_000, 2000);
            lemma_mul_bound(h as int, uz as int, 1_000_000, 2000);
            lemma_mul_bound(h as int, -(ue as int), 1_000_000, 6_000_000_000);
            lemma_mul_bound(r as int, -(fx as int), 1001, 1000);
            lemma_mul_bound(r as int, -(fy as int), 1001, 1000);
            lemma_mul_bound(r as int, -(fz as int), 1001, 1000);
            lemma_mul_bound(r as int, fe as int, 1001, 3_000_000_000);
        }
        let m = Mat4Fx {
            r0: Vec4Fx { x: mul_fx(w, sx), y: 0, z: mul_fx(w, sz), w: mul_fx(w, -se) },
            r1: Vec4Fx { x: mul_fx(h, ux), y: mul_fx(h, uy), z: mul_fx(h, uz), w: mul_fx(h, -ue) },
            r2: Vec4Fx {
                x: mul_fx(r, -fx),
                y: mul_fx(r, -fy),
                z: mul_fx(r, -fz),
                w: mul_fx(r, fe) + rzn,
            },
            r3: Vec4Fx { x: fx, y: fy, z: fz, w: -fe },
        };
        self.view_proj = m;
        self.camera_pos = Vec4Fx {
            x: camera.position.x,
            y: camera.position.y,
            z: camera.position.z,
            w: 0,
        };
        proof {
            assert(self.view_proj == view_proj_matrix(*camera, tan_half_fov));
        }
        Ok(())
    }
}

} // verus!
