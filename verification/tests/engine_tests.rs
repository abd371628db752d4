//! The engine against directly computed expectations: batch compilation,
//! camera tracking, turning gating, stale-target handling.

use simcore::batch::Batch;
use simcore::engine::Engine;
use simcore::input::{KEY_A, KEY_W};
use simcore::math::{Mat4, Vec3};

fn v(x: f32, y: f32, z: f32) -> Vec3 {
    Vec3 { x: x.to_bits(), y: y.to_bits(), z: z.to_bits() }
}

fn glm_of(m: &Mat4) -> nalgebra_glm::Mat4 {
    nalgebra_glm::make_mat4(&m.m.map(f32::from_bits))
}

fn glm_v(a: &Vec3) -> nalgebra_glm::Vec3 {
    nalgebra_glm::vec3(f32::from_bits(a.x), f32::from_bits(a.y), f32::from_bits(a.z))
}

fn bits_of(m: &nalgebra_glm::Mat4) -> [u32; 16] {
    let mut out = [0u32; 16];
    for (i, e) in m.as_slice().iter().enumerate() {
        out[i] = e.to_bits();
    }
    out
}

fn find_batch<'a>(batches: &'a [Batch], mesh: usize, mat: usize) -> Option<&'a Batch> {
    batches.iter().find(|b| b.mesh_id == mesh && b.material_id == mat)
}

const DT: f32 = 1.0 / 60.0;

#[test]
fn default_rotation_matches_glm() {
    let engine = Engine::new();
    let expected = nalgebra_glm::rotate_normalized_axis(
        &nalgebra_glm::rotate_normalized_axis(
            &nalgebra_glm::identity(),
            std::f32::consts::PI,
            &nalgebra_glm::vec3(0.0f32, 0.0, 1.0),
        ),
        std::f32::consts::PI,
        &nalgebra_glm::vec3(0.0f32, 1.0, 0.0),
    );
    assert_eq!(engine.default_rotation.m, bits_of(&expected));
}

#[test]
fn two_keys_two_and_one_instances() {
    let mut engine = Engine::new();
    engine.spawn_instance(0, 1, v(0.0, 0.0, 0.0));
    engine.spawn_instance(0, 1, v(1.0, 0.0, 0.0));
    engine.spawn_instance(0, 2, v(2.0, 0.0, 0.0));

    let batches = engine.get_draw_calls();
    assert_eq!(batches.len(), 2);
    let shared = find_batch(&batches, 0, 1).unwrap();
    assert_eq!(shared.instances.len(), 2);
    assert_eq!(find_batch(&batches, 0, 2).unwrap().instances.len(), 1);

    // Instances sit in entity order: the translation column of each model
    // matrix is the spawn position.
    assert_eq!(f32::from_bits(shared.instances[0].instance_model.m[12]), 0.0);
    assert_eq!(f32::from_bits(shared.instances[1].instance_model.m[12]), 1.0);
}

#[test]
fn batch_instances_carry_the_updated_matrices() {
    let mut engine = Engine::new();
    engine.spawn_instance(4, 7, v(1.0, 2.0, 3.0));
    let batches = engine.get_draw_calls();
    assert_eq!(batches.len(), 1);
    let b = &batches[0];
    assert_eq!((b.mesh_id, b.material_id), (4, 7));

    let rotation = glm_of(&engine.default_rotation);
    let model = nalgebra_glm::translation(&nalgebra_glm::vec3(1.0f32, 2.0, 3.0)) * rotation
        * nalgebra_glm::scaling(&nalgebra_glm::vec3(1.0f32, 1.0, 1.0));
    let normal = nalgebra_glm::inverse_transpose(model);
    assert_eq!(b.instances[0].instance_model.m, bits_of(&model));
    assert_eq!(b.instances[0].instance_normal.m, bits_of(&normal));
}

#[test]
fn a_car_without_material_is_not_drawn() {
    let mut engine = Engine::new();
    engine.spawn_car(0, v(0.0, 0.0, -6.0));
    engine.spawn_instance(0, 1, v(0.0, 0.0, 0.0));
    let batches = engine.get_draw_calls();
    assert_eq!(batches.len(), 1);
    assert_eq!(batches[0].instances.len(), 1);
}

#[test]
fn empty_world_compiles_to_no_batches() {
    let mut engine = Engine::new();
    let batches = engine.get_draw_calls();
    assert!(batches.is_empty());
}

#[test]
fn turning_is_gated_on_drive_input() {
    let mut engine = Engine::new();
    engine.spawn_car(0, v(0.0, 0.0, -6.0));
    let e = engine.car_entity.unwrap();
    let before = engine.world.transform(e).unwrap().rotation.m;

    engine.input_manager.press_key(KEY_A);
    for _ in 0..10 {
        engine.tick(DT.to_bits());
    }
    let after = engine.world.transform(e).unwrap().rotation.m;
    assert_eq!(before, after);
}

#[test]
fn turning_while_driving_matches_glm() {
    let mut engine = Engine::new();
    engine.spawn_car(0, v(0.0, 0.0, -6.0));
    let e = engine.car_entity.unwrap();
    let before = glm_of(&engine.world.transform(e).unwrap().rotation);

    engine.input_manager.press_key(KEY_W);
    engine.input_manager.press_key(KEY_A);
    engine.tick(DT.to_bits());

    let expected = nalgebra_glm::rotation(1.0f32 * 1.5 * DT, &nalgebra_glm::vec3(0.0f32, 1.0, 0.0))
        * before;
    let after = engine.world.transform(e).unwrap().rotation.m;
    assert_eq!(after, bits_of(&expected));
}

#[test]
fn camera_follows_the_car_like_glm() {
    let mut engine = Engine::new();
    engine.spawn_car(0, v(0.0, 0.0, -6.0));
    let e = engine.car_entity.unwrap();
    assert!(!engine.camera.requires_update);

    engine.tick(DT.to_bits());

    // Mirror the follow step on the post-tick transform.
    let tr = engine.world.transform(e).unwrap();
    let rot = glm_of(&tr.rotation);
    let pos = glm_v(&tr.position);
    let fwd = -rot.column(2).xyz();
    let desired = pos + fwd * (-5.0f32) + nalgebra_glm::vec3(0.0f32, -3.0, 0.0);
    let lerp = (5.0f32 * DT).clamp(0.0, 1.0);
    let cam_pos = nalgebra_glm::vec3(0.0f32, 0.0, 0.0) + (desired - nalgebra_glm::vec3(0.0f32, 0.0, 0.0)) * lerp;
    let target = pos + fwd * 5.0f32;
    let view = nalgebra_glm::look_at(&cam_pos, &target, &nalgebra_glm::vec3(0.0f32, 1.0, 0.0));

    assert!(engine.camera.requires_update);
    assert_eq!(engine.camera.camera_pos, Vec3 {
        x: cam_pos.x.to_bits(),
        y: cam_pos.y.to_bits(),
        z: cam_pos.z.to_bits(),
    });
    assert_eq!(engine.camera.view.m, bits_of(&view));
}

#[test]
fn a_stale_camera_target_freezes_the_camera() {
    let mut engine = Engine::new();
    engine.spawn_car(0, v(0.0, 0.0, -6.0));
    engine.tick(DT.to_bits());
    let pose = engine.camera.camera_pos;
    let view = engine.camera.view.m;

    let e = engine.car_entity.unwrap();
    assert!(engine.world.despawn(e));
    engine.tick(DT.to_bits());
    assert_eq!(engine.camera.camera_pos, pose);
    assert_eq!(engine.camera.view.m, view);
}

#[test]
fn opposing_drive_keys_cancel() {
    let mut engine = Engine::new();
    engine.spawn_car(0, v(0.0, 0.0, -6.0));
    let e = engine.car_entity.unwrap();
    let rotation_before = engine.world.transform(e).unwrap().rotation.m;

    // Forward and back held together cancel to zero drive intent: no
    // acceleration, and turning stays gated.
    engine.input_manager.press_key(KEY_W);
    engine.input_manager.press_key(simcore::input::KEY_S);
    engine.input_manager.press_key(KEY_A);
    for _ in 0..5 {
        engine.tick(DT.to_bits());
    }
    let car = engine.world.car(e).unwrap();
    assert_eq!(f32::from_bits(car.velocity.x), 0.0);
    assert_eq!(f32::from_bits(car.velocity.y), 0.0);
    assert_eq!(f32::from_bits(car.velocity.z), 0.0);
    assert_eq!(engine.world.transform(e).unwrap().rotation.m, rotation_before);
}

#[test]
fn reverse_drive_moves_backwards() {
    let mut engine = Engine::new();
    engine.spawn_car(0, v(0.0, 0.0, -6.0));
    let e = engine.car_entity.unwrap();
    let mut t = engine.world.transform(e).unwrap();
    t.zero_rotation();
    engine.world.set_transform(e, t);

    engine.input_manager.press_key(simcore::input::KEY_S);
    for _ in 0..30 {
        engine.tick(DT.to_bits());
    }
    // With identity rotation the forward axis is -Z, so reversing raises Z.
    let z = f32::from_bits(engine.world.transform(e).unwrap().position.z);
    assert!(z > -6.0);
}

#[test]
fn tick_clears_the_just_sets() {
    let mut engine = Engine::new();
    engine.input_manager.press_key(KEY_W);
    assert!(engine.input_manager.is_key_just_pressed(KEY_W));
    engine.tick(DT.to_bits());
    assert!(engine.input_manager.is_key_pressed(KEY_W));
    assert!(!engine.input_manager.is_key_just_pressed(KEY_W));
}
