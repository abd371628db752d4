//! The bit-pattern layer against the real float operations: every constant,
//! constructor and wrapper is held to what `f32` and `nalgebra-glm` compute.

use simcore::math::{
    Mat4, NEG_ONE_BITS, ONE_BITS, PI_BITS, Vec3, ZERO_BITS, identity_matrix, mat4_col2,
    scaling_matrix, translation_matrix, up_axis, vec3_add, vec3_dot, vec3_neg, vec3_scale,
    vec3_sub, z_axis,
};

fn v(x: f32, y: f32, z: f32) -> Vec3 {
    Vec3 { x: x.to_bits(), y: y.to_bits(), z: z.to_bits() }
}

fn glm_of(m: &Mat4) -> nalgebra_glm::Mat4 {
    nalgebra_glm::make_mat4(&m.m.map(f32::from_bits))
}

fn bits_of(m: &nalgebra_glm::Mat4) -> [u32; 16] {
    let mut out = [0u32; 16];
    for (i, e) in m.as_slice().iter().enumerate() {
        out[i] = e.to_bits();
    }
    out
}

#[test]
fn scalar_constants_are_the_f32_bit_patterns() {
    assert_eq!(ZERO_BITS, 0.0f32.to_bits());
    assert_eq!(ONE_BITS, 1.0f32.to_bits());
    assert_eq!(NEG_ONE_BITS, (-1.0f32).to_bits());
    assert_eq!(PI_BITS, std::f32::consts::PI.to_bits());
}

#[test]
fn axes_are_the_unit_vectors() {
    assert_eq!(up_axis(), v(0.0, 1.0, 0.0));
    assert_eq!(z_axis(), v(0.0, 0.0, 1.0));
}

#[test]
fn identity_matrix_matches_glm() {
    let ours = identity_matrix();
    let glm: nalgebra_glm::Mat4 = nalgebra_glm::identity();
    assert_eq!(ours.m, bits_of(&glm));
}

#[test]
fn translation_matrix_matches_glm() {
    let ours = translation_matrix(v(1.5, -2.25, 3.75));
    let glm = nalgebra_glm::translation(&nalgebra_glm::vec3(1.5f32, -2.25, 3.75));
    assert_eq!(ours.m, bits_of(&glm));
}

#[test]
fn scaling_matrix_matches_glm() {
    let ours = scaling_matrix(v(0.5, 2.0, -3.0));
    let glm = nalgebra_glm::scaling(&nalgebra_glm::vec3(0.5f32, 2.0, -3.0));
    assert_eq!(ours.m, bits_of(&glm));
}

#[test]
fn vector_arithmetic_matches_f32() {
    let a = v(1.25, -0.5, 3.1);
    let b = v(0.3, 2.75, -1.6);
    assert_eq!(vec3_add(a, b), v(1.25 + 0.3, -0.5 + 2.75, 3.1 + -1.6));
    assert_eq!(vec3_sub(a, b), v(1.25 - 0.3, -0.5 - 2.75, 3.1 - -1.6));
    assert_eq!(vec3_scale(a, 2.5f32.to_bits()), v(1.25 * 2.5, -0.5 * 2.5, 3.1 * 2.5));
    assert_eq!(vec3_neg(a), v(-1.25, 0.5, -3.1));
    // Negation is an exact sign-bit flip, also on zero.
    assert_eq!(vec3_neg(v(0.0, -0.0, 1.0)), v(-0.0, 0.0, -1.0));
}

#[test]
fn dot_product_matches_glm() {
    let a = v(1.25, -0.5, 3.1);
    let b = v(0.3, 2.75, -1.6);
    let ga = nalgebra_glm::vec3(1.25f32, -0.5, 3.1);
    let gb = nalgebra_glm::vec3(0.3f32, 2.75, -1.6);
    assert_eq!(f32::from_bits(vec3_dot(a, b)), nalgebra_glm::dot(&ga, &gb));
}

#[test]
fn third_column_is_extracted() {
    let t = translation_matrix(v(7.0, 8.0, 9.0));
    assert_eq!(mat4_col2(&t), v(0.0, 0.0, 1.0));
    let s = scaling_matrix(v(2.0, 3.0, 4.0));
    assert_eq!(mat4_col2(&s), v(0.0, 0.0, 4.0));
    let _ = glm_of(&t);
}
