//! Simulation/render handoff: the shared-lock model. The engine sits behind
//! one reader-writer lock; the tick thread holds the write side for the
//! duration of one tick, the render thread for the duration of one
//! draw-batch compilation. The lock's invariant keeps every stored transform
//! well formed, so a compilation never starts from a half-updated matrix
//! cache, and its mutual exclusion means every compiled batch set is the
//! image of one single world state — batches never mix entity data from two
//! different ticks.

use vstd::prelude::*;
use vstd::rwlock::{RwLock, RwLockPredicate};

use crate::batch::{Batch, batches_view, drawable, spec_compile};
use crate::camera::Camera;
use crate::engine::Engine;
use crate::math::{Mat4, Vec3};
use crate::transform::{Transform, spec_model_of, spec_normal_of};
use crate::world::{Entity, EntityRecord};

verus! {

/// The lock invariant: the engine inside is always well formed.
pub struct EngineWf;

impl RwLockPredicate<Engine> for EngineWf {
    open spec fn inv(self, e: Engine) -> bool {
        e.wf()
    }
}

/// A world snapshot in which every drawable entity's cached matrices are
/// derived from that same entity's own position, rotation and scale:
/// nothing in it is stale or half-updated.
pub open spec fn coherent(entries: Seq<EntityRecord>) -> bool {
    forall|j: int|
        #![trigger entries[j]]
        0 <= j < entries.len() ==> drawable(entries[j]) ==> match entries[j].transform {
            Some(t) => !t.requires_update && t.model_matrix@ == spec_model_of(t)
                && t.normal_matrix@ == spec_normal_of(t),
            None => false,
        }
}

/// The engine shared between the simulation thread and the render thread.
///
/// Tick and render rates are independent; whoever holds the lock sees and
/// leaves a well-formed engine, and neither side ever observes the other's
/// work in progress.
pub struct SharedEngine {
    lock: RwLock<Engine, EngineWf>,
}

impl SharedEngine {
    /// A fresh shared engine around `Engine::new`.
    pub fn new() -> SharedEngine {
        let engine = Engine::new();
        SharedEngine { lock: RwLock::new(engine, Ghost(EngineWf)) }
    }

    /// Records a key-down event in the engine's input state.
    pub fn press_key(&self, key: u32) {
        let (mut e, handle) = self.lock.acquire_write();
        e.input_manager.press_key(key);
        handle.release_write(e);
    }

    /// Records a key-up event in the engine's input state.
    pub fn release_key(&self, key: u32) {
        let (mut e, handle) = self.lock.acquire_write();
        e.input_manager.release_key(key);
        handle.release_write(e);
    }

    /// Runs one simulation tick of `delta` seconds (an `f32` bit pattern)
    /// under the write lock: the tick is atomic towards the render thread.
    pub fn tick(&self, delta: u32) {
        let (mut e, handle) = self.lock.acquire_write();
        let ghost before = e;
        e.tick(delta);
        proof {
            assert forall|j: int|
                #![trigger e.world.entries@[j]]
                0 <= j < e.world.entries@.len() implies match e.world.entries@[j].transform {
                Some(t) => t.wf(),
                None => true,
            } by {
                assert(crate::car::car_stepped(
                    before.world.entries@[j],
                    e.world.entries@[j],
                    crate::car::spec_movement_input(before.input_manager),
                    crate::car::spec_turn_input(before.input_manager),
                    delta,
                ));
            }
        }
        handle.release_write(e);
    }

    /// Compiles the draw batches of the current world state under the write
    /// lock. The result is `spec_compile` of one single coherent world
    /// snapshot: the render thread never observes a world mutated mid-read,
    /// and no batch set mixes entity data from two different ticks.
    pub fn get_draw_calls(&self) -> (r: Vec<Batch>)
        ensures
            exists|entries: Seq<EntityRecord>|
                coherent(entries) && batches_view(r@) == spec_compile(entries),
    {
        let (mut e, handle) = self.lock.acquire_write();
        let ghost before = e;
        let r = e.get_draw_calls();
        proof {
            assert forall|j: int|
                #![trigger e.world.entries@[j]]
                0 <= j < e.world.entries@.len() implies match e.world.entries@[j].transform {
                Some(t) => t.wf(),
                None => true,
            } by {
                assert(crate::engine::refreshed(before.world.entries@[j], e.world.entries@[j]));
            }
            let w = e.world.entries@;
            assert forall|j: int|
                #![trigger w[j]]
                0 <= j < w.len() && drawable(w[j]) implies match w[j].transform {
                Some(t) => !t.requires_update && t.model_matrix@ == spec_model_of(t)
                    && t.normal_matrix@ == spec_normal_of(t),
                None => false,
            } by {
                assert(crate::engine::refreshed(before.world.entries@[j], w[j]));
            }
            assert(coherent(w) && batches_view(r@) == spec_compile(w));
        }
        handle.release_write(e);
        r
    }

    /// Takes the camera's pending view-matrix update, if the camera changed
    /// since the last take: the renderer re-uploads the view only on frames
    /// where it actually moved.
    pub fn take_camera_update(&self) -> (r: Option<Mat4>) {
        let (mut e, handle) = self.lock.acquire_write();
        let r = if e.camera.requires_update {
            e.camera.requires_update = false;
            Some(e.camera.view)
        } else {
            None
        };
        handle.release_write(e);
        r
    }

    /// The camera's current pose and view matrix.
    pub fn camera(&self) -> (r: Camera) {
        let read_handle = self.lock.acquire_read();
        let r = read_handle.borrow().camera;
        read_handle.release_read();
        r
    }

    /// Spawns a drawable entity, or returns `None` if the entity id space is
    /// exhausted.
    pub fn spawn_instance(&self, mesh_id: usize, material_id: usize, pos: Vec3) -> (r: Option<
        Entity,
    >) {
        let (mut e, handle) = self.lock.acquire_write();
        let ghost before = e;
        let r = if e.can_spawn() {
            Some(e.spawn_instance(mesh_id, material_id, pos))
        } else {
            None
        };
        proof {
            assert forall|j: int|
                #![trigger e.world.entries@[j]]
                0 <= j < e.world.entries@.len() implies match e.world.entries@[j].transform {
                Some(t) => t.wf(),
                None => true,
            } by {
                if j < e.world.entries@.len() - 1 {
                    assert(e.world.entries@.drop_last()[j] == e.world.entries@[j]);
                    assert(e.world.entries@[j] == before.world.entries@[j]);
                } else {
                    assert(e.world.entries@[j] == e.world.entries@.last());
                }
            }
        }
        handle.release_write(e);
        r
    }

    /// Spawns the tracked player car, or returns `false` if the entity id
    /// space is exhausted.
    pub fn spawn_car(&self, mesh_id: usize, pos: Vec3) -> (r: bool) {
        let (mut e, handle) = self.lock.acquire_write();
        let ghost before = e;
        let r = if e.can_spawn() {
            e.spawn_car(mesh_id, pos);
            true
        } else {
            false
        };
        proof {
            assert forall|j: int|
                #![trigger e.world.entries@[j]]
                0 <= j < e.world.entries@.len() implies match e.world.entries@[j].transform {
                Some(t) => t.wf(),
                None => true,
            } by {
                if j < e.world.entries@.len() - 1 {
                    assert(e.world.entries@.drop_last()[j] == e.world.entries@[j]);
                    assert(e.world.entries@[j] == before.world.entries@[j]);
                } else {
                    assert(e.world.entries@[j] == e.world.entries@.last());
                }
            }
        }
        handle.release_write(e);
        r
    }

    /// The entity the camera tracks, if a car was spawned.
    pub fn tracked_entity(&self) -> (r: Option<Entity>) {
        let read_handle = self.lock.acquire_read();
        let r = read_handle.borrow().car_entity;
        read_handle.release_read();
        r
    }

    /// The transform of an entity, or `None` if it is gone or carries none.
    pub fn transform_of(&self, entity: Entity) -> (r: Option<Transform>) {
        let read_handle = self.lock.acquire_read();
        let r = read_handle.borrow().world.transform(entity);
        read_handle.release_read();
        r
    }

    /// Replaces an entity's transform with a dirty one — its matrices are
    /// recomputed on the next read — and returns whether the entity existed.
    pub fn store_transform(&self, entity: Entity, transform: Transform) -> (r: bool)
        requires
            transform.requires_update,
    {
        let (mut e, handle) = self.lock.acquire_write();
        let ghost before = e;
        let r = e.world.set_transform(entity, transform);
        proof {
            if r {
                let i = crate::world::spec_index_of(before.world.entries@, entity.0);
                crate::world::lemma_index_of_first(before.world.entries@, entity.0);
                assert forall|j: int|
                    #![trigger e.world.entries@[j]]
                    0 <= j < e.world.entries@.len() implies match e.world.entries@[j].transform {
                    Some(t) => t.wf(),
                    None => true,
                } by {
                    if j != i {
                        assert(e.world.entries@[j] == before.world.entries@[j]);
                    }
                }
            }
        }
        handle.release_write(e);
        r
    }

    /// Removes an entity; lookups by its id fail from then on. A stale
    /// camera target is tolerated: the camera freezes at its last pose.
    pub fn despawn(&self, entity: Entity) -> (r: bool) {
        let (mut e, handle) = self.lock.acquire_write();
        let ghost before = e;
        let r = e.world.despawn(entity);
        proof {
            if r {
                let i = crate::world::spec_index_of(before.world.entries@, entity.0);
                crate::world::lemma_index_of_first(before.world.entries@, entity.0);
                assert forall|j: int|
                    #![trigger e.world.entries@[j]]
                    0 <= j < e.world.entries@.len() implies match e.world.entries@[j].transform {
                    Some(t) => t.wf(),
                    None => true,
                } by {
                    before.world.entries@.remove_ensures(i);
                    assert(e.world.entries@[j] == before.world.entries@.remove(i)[j]);
                }
            }
        }
        handle.release_write(e);
        r
    }
}

} // verus!
