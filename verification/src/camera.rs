//! Camera tracking system: a smoothed third-person chase camera. Each tick
//! it moves the camera towards a point a fixed distance behind and above the
//! tracked transform with first-order exponential smoothing, then looks a
//! fixed distance ahead of the target along its forward axis.

use vstd::prelude::*;

use crate::car::spec_forward;
use crate::math::{
    Mat4, ONE_BITS, Vec3, ZERO_BITS, clamp_scalar, f32_mul, look_at, look_at_bits, mat4_col2,
    mul_bits, spec_add3, spec_clamp, spec_scale3, spec_sub3, spec_up_axis, up_axis, vec3_add,
    vec3_neg, vec3_scale, vec3_sub,
};
use crate::transform::Transform;

verus! {

/// The smoothing rate of the chase camera, `5.0` per second, as `f32` bits.
pub const CAMERA_LERP_RATE_BITS: u32 = 0x40A0_0000;
/// The backwards offset factor applied to the forward axis, `-5.0`: the
/// camera sits five units behind the target.
pub const CAMERA_BACK_OFFSET_BITS: u32 = 0xC0A0_0000;
/// The vertical offset of the camera, `-3.0`, in this scene's convention.
pub const CAMERA_UP_OFFSET_Y_BITS: u32 = 0xC040_0000;
/// How far ahead of the target the camera looks, `5.0` units.
pub const CAMERA_LOOK_AHEAD_BITS: u32 = 0x40A0_0000;

/// The camera: its view matrix, its position, and a flag telling the
/// renderer that the view matrix changed and must be re-uploaded.
#[derive(Clone, Copy, Debug)]
pub struct Camera {
    pub view: Mat4,
    pub camera_pos: Vec3,
    pub requires_update: bool,
}

/// The camera position after one tick of smoothing towards the pose behind
/// and above the tracked transform. The interpolation factor `lerp_rate * dt`
/// is clamped to `[0, 1]` so that a large `dt` cannot overshoot the target
/// and destabilize the lag.
pub open spec fn spec_camera_pos(cam_pos: Vec3, tr: Transform, dt: u32) -> Vec3 {
    let fwd = spec_forward(tr.rotation@);
    let offset_back = spec_scale3(fwd, CAMERA_BACK_OFFSET_BITS);
    let offset_up = Vec3 { x: ZERO_BITS, y: CAMERA_UP_OFFSET_Y_BITS, z: ZERO_BITS };
    let desired = spec_add3(spec_add3(tr.position, offset_back), offset_up);
    let lerp = spec_clamp(mul_bits(CAMERA_LERP_RATE_BITS, dt), ZERO_BITS, ONE_BITS);
    spec_add3(cam_pos, spec_scale3(spec_sub3(desired, cam_pos), lerp))
}

/// The view matrix of a camera at `new_pos` looking a fixed distance ahead
/// of the tracked transform along its forward axis, with the world up axis.
pub open spec fn spec_camera_view(new_pos: Vec3, tr: Transform) -> Seq<u32> {
    let fwd = spec_forward(tr.rotation@);
    let target = spec_add3(tr.position, spec_scale3(fwd, CAMERA_LOOK_AHEAD_BITS));
    look_at_bits(new_pos, target, spec_up_axis())
}

/// One tick of the chase camera following the given transform: smooth the
/// position, recompute the view matrix, and flag the renderer.
pub fn camera_follow(camera: &mut Camera, tr: &Transform, dt: u32)
    ensures
        final(camera).camera_pos == spec_camera_pos(old(camera).camera_pos, *tr, dt),
        final(camera).view@ == spec_camera_view(
            spec_camera_pos(old(camera).camera_pos, *tr, dt),
            *tr,
        ),
        final(camera).requires_update,
{
    let fwd = vec3_neg(mat4_col2(&tr.rotation));
    let offset_back = vec3_scale(fwd, CAMERA_BACK_OFFSET_BITS);
    let offset_up = Vec3 { x: ZERO_BITS, y: CAMERA_UP_OFFSET_Y_BITS, z: ZERO_BITS };
    let desired = vec3_add(vec3_add(tr.position, offset_back), offset_up);
    let lerp = clamp_scalar(f32_mul(CAMERA_LERP_RATE_BITS, dt), ZERO_BITS, ONE_BITS);
    let new_pos = vec3_add(camera.camera_pos, vec3_scale(vec3_sub(desired, camera.camera_pos), lerp));
    let target = vec3_add(tr.position, vec3_scale(fwd, CAMERA_LOOK_AHEAD_BITS));
    let view = look_at(new_pos, target, up_axis());
    camera.camera_pos = new_pos;
    camera.view = view;
    camera.requires_update = true;
}

} // verus!
