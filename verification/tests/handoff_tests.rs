//! The shared-lock handoff: the same engine behaviour reached through the
//! lock the simulation and render threads share.

use simcore::handoff::SharedEngine;
use simcore::input::KEY_W;
use simcore::math::Vec3;

fn v(x: f32, y: f32, z: f32) -> Vec3 {
    Vec3 { x: x.to_bits(), y: y.to_bits(), z: z.to_bits() }
}

const DT: f32 = 1.0 / 60.0;

#[test]
fn batches_compile_through_the_lock() {
    let shared = SharedEngine::new();
    assert!(shared.spawn_instance(0, 1, v(0.0, 0.0, 0.0)).is_some());
    assert!(shared.spawn_instance(0, 1, v(1.0, 0.0, 0.0)).is_some());
    assert!(shared.spawn_instance(0, 2, v(2.0, 0.0, 0.0)).is_some());

    let batches = shared.get_draw_calls();
    assert_eq!(batches.len(), 2);
    let total: usize = batches.iter().map(|b| b.instances.len()).sum();
    assert_eq!(total, 3);
}

#[test]
fn camera_updates_are_taken_once() {
    let shared = SharedEngine::new();
    assert!(shared.spawn_car(0, v(0.0, 0.0, -6.0)));
    assert!(shared.take_camera_update().is_none());

    shared.press_key(KEY_W);
    shared.tick(DT.to_bits());

    let view = shared.take_camera_update();
    assert!(view.is_some());
    assert_eq!(view.unwrap().m, shared.camera().view.m);
    assert!(shared.take_camera_update().is_none());
}

#[test]
fn transforms_roundtrip_through_the_lock() {
    let shared = SharedEngine::new();
    let e = shared.spawn_instance(3, 4, v(1.0, 2.0, 3.0)).unwrap();

    let mut t = shared.transform_of(e).unwrap();
    assert_eq!(t.position, v(1.0, 2.0, 3.0));
    t.set_position(v(9.0, 8.0, 7.0));
    assert!(shared.store_transform(e, t));
    assert_eq!(shared.transform_of(e).unwrap().position, v(9.0, 8.0, 7.0));
}

#[test]
fn despawn_through_the_lock_freezes_the_camera() {
    let shared = SharedEngine::new();
    assert!(shared.spawn_car(0, v(0.0, 0.0, -6.0)));
    let e = shared.tracked_entity().unwrap();
    shared.tick(DT.to_bits());
    let pose_before = shared.camera().camera_pos;

    assert!(shared.despawn(e));
    assert!(shared.transform_of(e).is_none());
    shared.tick(DT.to_bits());
    assert_eq!(shared.camera().camera_pos, pose_before);
}
