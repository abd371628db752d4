//! Scalar and linear-algebra layer.
//!
//! Every scalar of the engine is an IEEE-754 single-precision value carried as
//! its raw bit pattern in a `u32`; vectors and matrices are plain records of
//! such bits. Arithmetic on them is done by the `nalgebra-glm` crate and by
//! the machine's own float operations, reached through trusted wrappers whose
//! results are named by uninterpreted spec functions, so that every
//! computation in the engine has an exact, if opaque, description.

use vstd::prelude::*;

verus! {

/// Bit pattern of `0.0f32`.
pub const ZERO_BITS: u32 = 0x0000_0000;
/// Bit pattern of `1.0f32`.
pub const ONE_BITS: u32 = 0x3F80_0000;
/// Bit pattern of `-1.0f32`.
pub const NEG_ONE_BITS: u32 = 0xBF80_0000;
/// Bit pattern of `pi` as an `f32`.
pub const PI_BITS: u32 = 0x4049_0FDB;

/// A 3-component vector of `f32` bit patterns.
#[derive(Clone, Copy, PartialEq, Eq, Structural, Debug)]
pub struct Vec3 {
    pub x: u32,
    pub y: u32,
    pub z: u32,
}

/// A 4x4 matrix of `f32` bit patterns, column-major as in `nalgebra`:
/// element `(row, col)` sits at index `col * 4 + row`.
#[derive(Clone, Copy, Debug)]
pub struct Mat4 {
    pub m: [u32; 16],
}

impl View for Mat4 {
    type V = Seq<u32>;

    open spec fn view(&self) -> Seq<u32> {
        self.m@
    }
}

/// What `f32` addition returns, on bit patterns.
pub uninterp spec fn add_bits(a: u32, b: u32) -> u32;

/// What `f32` subtraction returns, on bit patterns.
pub uninterp spec fn sub_bits(a: u32, b: u32) -> u32;

/// What `f32` multiplication returns, on bit patterns.
pub uninterp spec fn mul_bits(a: u32, b: u32) -> u32;

/// What the `f32` `<` comparison returns, on bit patterns.
pub uninterp spec fn lt_bits(a: u32, b: u32) -> bool;

/// Relies on `core::ops::Add` for `f32`: IEEE-754 addition of the two values
/// whose bit patterns are given; the result depends on the bits alone.
#[verifier::external_body]
pub(crate) fn f32_add(a: u32, b: u32) -> (r: u32)
    ensures
        r == add_bits(a, b),
{
    let v: nalgebra_glm::Vec2 = nalgebra_glm::make_vec2(bytemuck::cast_slice(&[a, b]));
    (v.x + v.y).to_bits()
}

/// Relies on `core::ops::Sub` for `f32`: IEEE-754 subtraction of the two
/// values whose bit patterns are given; the result depends on the bits alone.
#[verifier::external_body]
pub(crate) fn f32_sub(a: u32, b: u32) -> (r: u32)
    ensures
        r == sub_bits(a, b),
{
    let v: nalgebra_glm::Vec2 = nalgebra_glm::make_vec2(bytemuck::cast_slice(&[a, b]));
    (v.x - v.y).to_bits()
}

/// Relies on `core::ops::Mul` for `f32`: IEEE-754 multiplication of the two
/// values whose bit patterns are given; the result depends on the bits alone.
#[verifier::external_body]
pub(crate) fn f32_mul(a: u32, b: u32) -> (r: u32)
    ensures
        r == mul_bits(a, b),
{
    let v: nalgebra_glm::Vec2 = nalgebra_glm::make_vec2(bytemuck::cast_slice(&[a, b]));
    (v.x * v.y).to_bits()
}

/// Relies on `PartialOrd` for `f32`: the IEEE-754 `<` comparison of the two
/// values whose bit patterns are given; the result depends on the bits alone.
#[verifier::external_body]
pub(crate) fn f32_lt(a: u32, b: u32) -> (r: bool)
    ensures
        r == lt_bits(a, b),
{
    let v: nalgebra_glm::Vec2 = nalgebra_glm::make_vec2(bytemuck::cast_slice(&[a, b]));
    v.x < v.y
}

/// IEEE-754 negation: the sign bit is flipped, all other bits are kept.
pub open spec fn neg_bits(a: u32) -> u32 {
    a ^ 0x8000_0000
}

/// Negation of an `f32` carried as bits; flipping the sign bit is exactly
/// what the machine's float negation does, so no outside call is needed.
pub fn f32_neg(a: u32) -> (r: u32)
    ensures
        r == neg_bits(a),
{
    a ^ 0x8000_0000
}

/// The identity matrix, as bit patterns.
pub open spec fn identity_seq() -> Seq<u32> {
    seq![
        ONE_BITS, ZERO_BITS, ZERO_BITS, ZERO_BITS,
        ZERO_BITS, ONE_BITS, ZERO_BITS, ZERO_BITS,
        ZERO_BITS, ZERO_BITS, ONE_BITS, ZERO_BITS,
        ZERO_BITS, ZERO_BITS, ZERO_BITS, ONE_BITS,
    ]
}

/// The homogeneous translation matrix by `v`: the identity with `v` as the
/// fourth column, exactly as `nalgebra`'s `new_translation` lays it out.
pub open spec fn translation_seq(v: Vec3) -> Seq<u32> {
    seq![
        ONE_BITS, ZERO_BITS, ZERO_BITS, ZERO_BITS,
        ZERO_BITS, ONE_BITS, ZERO_BITS, ZERO_BITS,
        ZERO_BITS, ZERO_BITS, ONE_BITS, ZERO_BITS,
        v.x, v.y, v.z, ONE_BITS,
    ]
}

/// The homogeneous scale matrix by `v`: the diagonal `(v.x, v.y, v.z, 1)`,
/// exactly as `nalgebra`'s `new_nonuniform_scaling` lays it out.
pub open spec fn scaling_seq(v: Vec3) -> Seq<u32> {
    seq![
        v.x, ZERO_BITS, ZERO_BITS, ZERO_BITS,
        ZERO_BITS, v.y, ZERO_BITS, ZERO_BITS,
        ZERO_BITS, ZERO_BITS, v.z, ZERO_BITS,
        ZERO_BITS, ZERO_BITS, ZERO_BITS, ONE_BITS,
    ]
}

/// The identity matrix.
pub fn identity_matrix() -> (r: Mat4)
    ensures
        r@ == identity_seq(),
{
    let r = Mat4 {
        m: [
            ONE_BITS, ZERO_BITS, ZERO_BITS, ZERO_BITS,
            ZERO_BITS, ONE_BITS, ZERO_BITS, ZERO_BITS,
            ZERO_BITS, ZERO_BITS, ONE_BITS, ZERO_BITS,
            ZERO_BITS, ZERO_BITS, ZERO_BITS, ONE_BITS,
        ],
    };
    proof {
        assert(r.m@ =~= identity_seq());
    }
    r
}

/// The translation matrix by `v`.
pub fn translation_matrix(v: Vec3) -> (r: Mat4)
    ensures
        r@ == translation_seq(v),
{
    let r = Mat4 {
        m: [
            ONE_BITS, ZERO_BITS, ZERO_BITS, ZERO_BITS,
            ZERO_BITS, ONE_BITS, ZERO_BITS, ZERO_BITS,
            ZERO_BITS, ZERO_BITS, ONE_BITS, ZERO_BITS,
            v.x, v.y, v.z, ONE_BITS,
        ],
    };
    proof {
        assert(r.m@ =~= translation_seq(v));
    }
    r
}

/// The scale matrix by `v`.
pub fn scaling_matrix(v: Vec3) -> (r: Mat4)
    ensures
        r@ == scaling_seq(v),
{
    let r = Mat4 {
        m: [
            v.x, ZERO_BITS, ZERO_BITS, ZERO_BITS,
            ZERO_BITS, v.y, ZERO_BITS, ZERO_BITS,
            ZERO_BITS, ZERO_BITS, v.z, ZERO_BITS,
            ZERO_BITS, ZERO_BITS, ZERO_BITS, ONE_BITS,
        ],
    };
    proof {
        assert(r.m@ =~= scaling_seq(v));
    }
    r
}

/// What the `nalgebra` matrix product of two 4x4 float matrices returns,
/// on column-major bit patterns.
pub uninterp spec fn mat4_mul_bits(a: Seq<u32>, b: Seq<u32>) -> Seq<u32>;

/// What `nalgebra_glm::rotate_normalized_axis` returns: the input matrix
/// multiplied on the right by the rotation of `angle` radians about the
/// normalized `axis`.
pub uninterp spec fn rotate_axis_bits(m: Seq<u32>, angle: u32, axis: Vec3) -> Seq<u32>;

/// What `nalgebra_glm::rotation` returns: the homogeneous rotation of
/// `angle` radians about `axis`.
pub uninterp spec fn rotation_bits(angle: u32, axis: Vec3) -> Seq<u32>;

/// What `nalgebra_glm::inverse_transpose` returns on a 4x4 float matrix.
pub uninterp spec fn inverse_transpose_bits(m: Seq<u32>) -> Seq<u32>;

/// What `nalgebra_glm::look_at` returns: the right-handed view matrix for a
/// camera at `eye` looking at `center` with up vector `up`.
pub uninterp spec fn look_at_bits(eye: Vec3, center: Vec3, up: Vec3) -> Seq<u32>;

/// Relies on `core::ops::Mul` for `nalgebra`'s 4x4 float matrices: the
/// standard matrix product; the result depends on the entries alone.
#[verifier::external_body]
pub(crate) fn mat4_mul(a: &Mat4, b: &Mat4) -> (r: Mat4)
    ensures
        r@ == mat4_mul_bits(a@, b@),
{
    let ga: nalgebra_glm::Mat4 = nalgebra_glm::make_mat4(bytemuck::cast_slice(&a.m));
    let gb: nalgebra_glm::Mat4 = nalgebra_glm::make_mat4(bytemuck::cast_slice(&b.m));
    let p = ga * gb;
    let mut m = [0u32; 16];
    m.copy_from_slice(bytemuck::cast_slice(p.as_slice()));
    Mat4 { m }
}

/// Relies on `nalgebra_glm::rotate_normalized_axis`: multiplies `m` by the
/// rotation of `angle` radians about the normalized `axis`; the result
/// depends on the arguments alone.
#[verifier::external_body]
pub(crate) fn rotate_normalized_axis(m: &Mat4, angle: u32, axis: Vec3) -> (r: Mat4)
    ensures
        r@ == rotate_axis_bits(m@, angle, axis),
{
    let gm: nalgebra_glm::Mat4 = nalgebra_glm::make_mat4(bytemuck::cast_slice(&m.m));
    let ga: nalgebra_glm::Vec3 = nalgebra_glm::make_vec3(bytemuck::cast_slice(&[axis.x, axis.y, axis.z]));
    let s: nalgebra_glm::Vec2 = nalgebra_glm::make_vec2(bytemuck::cast_slice(&[angle, angle]));
    let p = nalgebra_glm::rotate_normalized_axis(&gm, s.x, &ga);
    let mut out = [0u32; 16];
    out.copy_from_slice(bytemuck::cast_slice(p.as_slice()));
    Mat4 { m: out }
}


/// Relies on `nalgebra_glm::rotation`: the homogeneous rotation matrix of
/// `angle` radians about `axis`; the result depends on the arguments alone.
#[verifier::external_body]
pub(crate) fn rotation_matrix(angle: u32, axis: Vec3) -> (r: Mat4)
    ensures
        r@ == rotation_bits(angle, axis),
{
    let ga: nalgebra_glm::Vec3 = nalgebra_glm::make_vec3(bytemuck::cast_slice(&[axis.x, axis.y, axis.z]));
    let s: nalgebra_glm::Vec2 = nalgebra_glm::make_vec2(bytemuck::cast_slice(&[angle, angle]));
    let p = nalgebra_glm::rotation(s.x, &ga);
    let mut out = [0u32; 16];
    out.copy_from_slice(bytemuck::cast_slice(p.as_slice()));
    Mat4 { m: out }
}

/// Relies on `nalgebra_glm::inverse_transpose`: the transpose of the inverse
/// of the matrix (the zero matrix if it is singular); the result depends on
/// the entries alone.
#[verifier::external_body]
pub(crate) fn inverse_transpose(m: &Mat4) -> (r: Mat4)
    ensures
        r@ == inverse_transpose_bits(m@),
{
    let gm: nalgebra_glm::Mat4 = nalgebra_glm::make_mat4(bytemuck::cast_slice(&m.m));
    let p = nalgebra_glm::inverse_transpose(gm);
    let mut out = [0u32; 16];
    out.copy_from_slice(bytemuck::cast_slice(p.as_slice()));
    Mat4 { m: out }
}

/// Relies on `nalgebra_glm::look_at`: the right-handed view matrix of a
/// camera at `eye` looking towards `center` with the given up vector; the
/// result depends on the arguments alone.
#[verifier::external_body]
pub(crate) fn look_at(eye: Vec3, center: Vec3, up: Vec3) -> (r: Mat4)
    ensures
        r@ == look_at_bits(eye, center, up),
{
    let ge: nalgebra_glm::Vec3 = nalgebra_glm::make_vec3(bytemuck::cast_slice(&[eye.x, eye.y, eye.z]));
    let gc: nalgebra_glm::Vec3 = nalgebra_glm::make_vec3(bytemuck::cast_slice(&[center.x, center.y, center.z]));
    let gu: nalgebra_glm::Vec3 = nalgebra_glm::make_vec3(bytemuck::cast_slice(&[up.x, up.y, up.z]));
    let p = nalgebra_glm::look_at(&ge, &gc, &gu);
    let mut out = [0u32; 16];
    out.copy_from_slice(bytemuck::cast_slice(p.as_slice()));
    Mat4 { m: out }
}


/// Componentwise vector sum, on bit patterns.
pub open spec fn spec_add3(a: Vec3, b: Vec3) -> Vec3 {
    Vec3 { x: add_bits(a.x, b.x), y: add_bits(a.y, b.y), z: add_bits(a.z, b.z) }
}

/// Componentwise vector difference, on bit patterns.
pub open spec fn spec_sub3(a: Vec3, b: Vec3) -> Vec3 {
    Vec3 { x: sub_bits(a.x, b.x), y: sub_bits(a.y, b.y), z: sub_bits(a.z, b.z) }
}

/// Vector scaled by a scalar, on bit patterns.
pub open spec fn spec_scale3(v: Vec3, s: u32) -> Vec3 {
    Vec3 { x: mul_bits(v.x, s), y: mul_bits(v.y, s), z: mul_bits(v.z, s) }
}

/// Componentwise vector negation.
pub open spec fn spec_neg3(v: Vec3) -> Vec3 {
    Vec3 { x: neg_bits(v.x), y: neg_bits(v.y), z: neg_bits(v.z) }
}

/// The dot product, summed left to right, on bit patterns.
pub open spec fn spec_dot3(a: Vec3, b: Vec3) -> u32 {
    add_bits(add_bits(mul_bits(a.x, b.x), mul_bits(a.y, b.y)), mul_bits(a.z, b.z))
}

/// The third column of a column-major 4x4 matrix, truncated to three
/// components: for a pure rotation this is the image of the world Z axis.
pub open spec fn spec_col2(m: Seq<u32>) -> Vec3 {
    Vec3 { x: m[8], y: m[9], z: m[10] }
}

/// `x` clamped to `[lo, hi]` in the float order: `lo` when `x < lo`, else
/// `hi` when `hi < x`, else `x` itself.
pub open spec fn spec_clamp(x: u32, lo: u32, hi: u32) -> u32 {
    if lt_bits(x, lo) {
        lo
    } else if lt_bits(hi, x) {
        hi
    } else {
        x
    }
}

/// Componentwise vector sum.
pub fn vec3_add(a: Vec3, b: Vec3) -> (r: Vec3)
    ensures
        r == spec_add3(a, b),
{
    Vec3 { x: f32_add(a.x, b.x), y: f32_add(a.y, b.y), z: f32_add(a.z, b.z) }
}

/// Componentwise vector difference.
pub fn vec3_sub(a: Vec3, b: Vec3) -> (r: Vec3)
    ensures
        r == spec_sub3(a, b),
{
    Vec3 { x: f32_sub(a.x, b.x), y: f32_sub(a.y, b.y), z: f32_sub(a.z, b.z) }
}

/// The vector scaled by a scalar.
pub fn vec3_scale(v: Vec3, s: u32) -> (r: Vec3)
    ensures
        r == spec_scale3(v, s),
{
    Vec3 { x: f32_mul(v.x, s), y: f32_mul(v.y, s), z: f32_mul(v.z, s) }
}

/// Componentwise vector negation.
pub fn vec3_neg(v: Vec3) -> (r: Vec3)
    ensures
        r == spec_neg3(v),
{
    Vec3 { x: f32_neg(v.x), y: f32_neg(v.y), z: f32_neg(v.z) }
}

/// The dot product of two vectors, summed left to right.
pub fn vec3_dot(a: Vec3, b: Vec3) -> (r: u32)
    ensures
        r == spec_dot3(a, b),
{
    f32_add(f32_add(f32_mul(a.x, b.x), f32_mul(a.y, b.y)), f32_mul(a.z, b.z))
}

/// The third column of the matrix, truncated to three components.
pub fn mat4_col2(m: &Mat4) -> (r: Vec3)
    ensures
        r == spec_col2(m@),
{
    Vec3 { x: m.m[8], y: m.m[9], z: m.m[10] }
}

/// `x` clamped to `[lo, hi]` in the float order. Unlike `f32`'s own clamp
/// this is total: when the bounds are out of order it returns `hi`.
pub fn clamp_scalar(x: u32, lo: u32, hi: u32) -> (r: u32)
    ensures
        r == spec_clamp(x, lo, hi),
{
    if f32_lt(x, lo) {
        lo
    } else if f32_lt(hi, x) {
        hi
    } else {
        x
    }
}


/// The `f32` bit pattern of a drive direction in `{-1, 0, +1}`: the exact
/// value a float accumulation of `+1.0`/`-1.0` key intents lands on.
pub open spec fn int_dir_bits(i: int) -> u32 {
    if i == 1 {
        ONE_BITS
    } else if i == -1 {
        NEG_ONE_BITS
    } else {
        ZERO_BITS
    }
}

/// The world up axis, `(0, 1, 0)`.
pub open spec fn spec_up_axis() -> Vec3 {
    Vec3 { x: ZERO_BITS, y: ONE_BITS, z: ZERO_BITS }
}

/// The world up axis, `(0, 1, 0)`.
pub fn up_axis() -> (r: Vec3)
    ensures
        r == spec_up_axis(),
{
    Vec3 { x: ZERO_BITS, y: ONE_BITS, z: ZERO_BITS }
}


/// The world Z axis, `(0, 0, 1)`.
pub open spec fn spec_z_axis() -> Vec3 {
    Vec3 { x: ZERO_BITS, y: ZERO_BITS, z: ONE_BITS }
}

/// The world Z axis, `(0, 0, 1)`.
pub fn z_axis() -> (r: Vec3)
    ensures
        r == spec_z_axis(),
{
    Vec3 { x: ZERO_BITS, y: ZERO_BITS, z: ONE_BITS }
}

/// The unit scale, `(1, 1, 1)`.
pub open spec fn spec_unit_scale() -> Vec3 {
    Vec3 { x: ONE_BITS, y: ONE_BITS, z: ONE_BITS }
}

/// The zero vector.
pub open spec fn spec_zero3() -> Vec3 {
    Vec3 { x: ZERO_BITS, y: ZERO_BITS, z: ZERO_BITS }
}

} // verus!
