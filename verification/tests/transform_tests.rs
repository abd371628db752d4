//! The transform store against glTF-style matrix math done directly with
//! `nalgebra-glm`: dirty-flag discipline, lazy recomputation, idempotence.

use simcore::math::{Mat4, Vec3};
use simcore::transform::Transform;

fn v(x: f32, y: f32, z: f32) -> Vec3 {
    Vec3 { x: x.to_bits(), y: y.to_bits(), z: z.to_bits() }
}

fn glm_of(m: &Mat4) -> nalgebra_glm::Mat4 {
    nalgebra_glm::make_mat4(&m.m.map(f32::from_bits))
}

fn bits_of(m: &nalgebra_glm::Mat4) -> [u32; 16] {
    let mut out = [0u32; 16];
    for (i, e) in m.as_slice().iter().enumerate() {
        out[i] = e.to_bits();
    }
    out
}

fn ident() -> Mat4 {
    simcore::math::identity_matrix()
}

#[test]
fn update_matrices_computes_model_and_normal() {
    let mut t = Transform::new(v(1.0, 2.0, 3.0), ident(), v(2.0, 2.0, 2.0));
    assert!(t.requires_update);
    t.update_matrices();
    assert!(!t.requires_update);

    let translation = nalgebra_glm::translation(&nalgebra_glm::vec3(1.0f32, 2.0, 3.0));
    let scaling = nalgebra_glm::scaling(&nalgebra_glm::vec3(2.0f32, 2.0, 2.0));
    let rotation: nalgebra_glm::Mat4 = nalgebra_glm::identity();
    let model = translation * rotation * scaling;
    let normal = nalgebra_glm::inverse_transpose(model);

    let (m, n) = t.model_matrices();
    assert_eq!(m.m, bits_of(&model));
    assert_eq!(n.m, bits_of(&normal));
}

#[test]
fn mutators_set_the_dirty_flag_and_update_clears_it() {
    let mut t = Transform::new(v(0.0, 0.0, 0.0), ident(), v(1.0, 1.0, 1.0));
    t.update_matrices();
    assert!(!t.requires_update);

    t.translate(v(1.0, 0.0, 0.0));
    assert!(t.requires_update);
    t.update_matrices();
    assert!(!t.requires_update);

    t.set_position(v(5.0, 6.0, 7.0));
    assert!(t.requires_update);
    t.set_scale(v(2.0, 1.0, 1.0));
    t.rotate_around_axis(0.5f32.to_bits(), v(0.0, 1.0, 0.0));
    t.zero_rotation();
    assert!(t.requires_update);
}

#[test]
fn update_matrices_is_idempotent() {
    let mut t = Transform::new(v(4.0, -1.0, 0.25), ident(), v(1.0, 3.0, 1.0));
    t.rotate_around_axis(1.2f32.to_bits(), v(0.0, 1.0, 0.0));
    t.update_matrices();
    let (m1, n1) = t.model_matrices();
    t.update_matrices();
    let (m2, n2) = t.model_matrices();
    assert_eq!(m1.m, m2.m);
    assert_eq!(n1.m, n2.m);
    assert!(!t.requires_update);
}

#[test]
fn model_after_mutator_sequence_matches_direct_computation() {
    let mut t = Transform::new(v(0.0, 0.0, 0.0), ident(), v(1.0, 1.0, 1.0));
    t.translate(v(1.0, 2.0, 3.0));
    t.rotate_around_axis(0.7f32.to_bits(), v(0.0, 1.0, 0.0));
    t.rotate_around_axis((-0.2f32).to_bits(), v(1.0, 0.0, 0.0));
    t.set_scale(v(0.5, 0.5, 2.0));
    t.update_matrices();

    let rotation = glm_of(&t.rotation);
    let translation = nalgebra_glm::translation(&nalgebra_glm::vec3(
        f32::from_bits(t.position.x),
        f32::from_bits(t.position.y),
        f32::from_bits(t.position.z),
    ));
    let scaling = nalgebra_glm::scaling(&nalgebra_glm::vec3(0.5f32, 0.5, 2.0));
    let model = translation * rotation * scaling;
    assert_eq!(t.model_matrix.m, bits_of(&model));
    assert_eq!(t.normal_matrix.m, bits_of(&nalgebra_glm::inverse_transpose(model)));
}

#[test]
fn rotate_around_axis_matches_glm() {
    let mut t = Transform::new(v(0.0, 0.0, 0.0), ident(), v(1.0, 1.0, 1.0));
    t.rotate_around_axis(0.9f32.to_bits(), v(0.0, 1.0, 0.0));
    let expected = nalgebra_glm::rotate_normalized_axis(
        &nalgebra_glm::identity(),
        0.9f32,
        &nalgebra_glm::vec3(0.0f32, 1.0, 0.0),
    );
    assert_eq!(t.rotation.m, bits_of(&expected));
}

#[test]
fn rotate_left_multiplies() {
    let mut t = Transform::new(v(0.0, 0.0, 0.0), ident(), v(1.0, 1.0, 1.0));
    t.rotate_around_axis(0.4f32.to_bits(), v(0.0, 1.0, 0.0));
    let base = glm_of(&t.rotation);
    let delta = simcore::math::translation_matrix(v(0.0, 1.0, 0.0));
    t.rotate(&delta);
    let expected = glm_of(&delta) * base;
    assert_eq!(t.rotation.m, bits_of(&expected));
}
