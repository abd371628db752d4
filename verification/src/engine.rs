//! The engine: the entity world, the input state and the chase camera under
//! one roof, with the fixed-tick simulation entry point and the per-render
//! draw-batch compilation. Mesh, material and skybox payloads live with the
//! renderer outside this core and are referred to only by their integer ids.

use vstd::prelude::*;

use crate::batch::{Batch, batches_view, compile_batches, drawable, spec_compile};
use crate::camera::{Camera, camera_follow, spec_camera_pos, spec_camera_view};
use crate::car::{car_stepped, car_system, spec_movement_input, spec_turn_input};
use crate::input::InputState;
use crate::math::{
    Mat4, ONE_BITS, PI_BITS, Vec3, ZERO_BITS, identity_matrix, identity_seq,
    rotate_axis_bits, rotate_normalized_axis, spec_unit_scale, spec_up_axis, spec_z_axis,
    spec_zero3, up_axis, z_axis,
};
use crate::transform::{Transform, spec_model_of, spec_normal_of};
use crate::world::{Car, Entity, EntityRecord, MaterialID, MeshID, World, spec_found, spec_index_of};

verus! {

/// A spawned car's top forward speed, `20.0` units per second, as `f32` bits.
pub const CAR_SPEED_BITS: u32 = 0x41A0_0000;
/// A spawned car's top yaw rate, `1.5` radians per second, as `f32` bits.
pub const CAR_TURN_SPEED_BITS: u32 = 0x3FC0_0000;

/// The default rotation every spawned entity starts with: the identity
/// turned by pi about the Z axis and then by pi about the up axis, matching
/// the scene's model orientation convention.
pub open spec fn spec_default_rotation() -> Seq<u32> {
    rotate_axis_bits(
        rotate_axis_bits(identity_seq(), PI_BITS, spec_z_axis()),
        PI_BITS,
        spec_up_axis(),
    )
}

/// The transform the camera follows this tick: the tracked entity's
/// transform, provided the tracked id is set and still resolves to an entity
/// carrying both a Car and a Transform; `None` otherwise, in which case the
/// camera freezes at its last pose.
pub open spec fn spec_camera_target(entries: Seq<EntityRecord>, ce: Option<Entity>) -> Option<
    Transform,
> {
    match ce {
        Some(e) => if spec_found(entries, e.0) {
            let rec = entries[spec_index_of(entries, e.0)];
            if rec.car is Some && rec.transform is Some {
                rec.transform
            } else {
                None
            }
        } else {
            None
        },
        None => None,
    }
}

/// How the matrix-refresh pass of the batch compiler relates a record to its
/// previous state: a drawable entity's transform has its cached matrices
/// brought up to date and its dirty flag cleared; every other record is
/// untouched.
pub open spec fn refreshed(o: EntityRecord, n: EntityRecord) -> bool {
    if drawable(o) {
        match (o.transform, n.transform) {
            (Some(ot), Some(nt)) => {
                &&& n.id == o.id
                &&& n.mesh == o.mesh
                &&& n.material == o.material
                &&& n.car == o.car
                &&& nt.position == ot.position
                &&& nt.rotation == ot.rotation
                &&& nt.scale == ot.scale
                &&& !nt.requires_update
                &&& (ot.requires_update ==> nt.model_matrix@ == spec_model_of(ot)
                    && nt.normal_matrix@ == spec_normal_of(ot))
                &&& (!ot.requires_update ==> nt == ot)
                &&& (ot.wf() ==> nt.model_matrix@ == spec_model_of(ot) && nt.normal_matrix@
                    == spec_normal_of(ot) && nt.wf())
            },
            _ => false,
        }
    } else {
        n == o
    }
}

/// The simulation core: input state, entity world, chase camera, the tracked
/// car entity, and the default spawn rotation computed once at startup.
pub struct Engine {
    pub input_manager: InputState,
    pub world: World,
    pub camera: Camera,
    pub car_entity: Option<Entity>,
    pub default_rotation: Mat4,
}

impl Engine {
    /// Every transform stored in the world is well formed: its matrix cache
    /// is either current or marked dirty. Constructors establish this and
    /// every engine operation preserves it.
    pub open spec fn wf(self) -> bool {
        forall|j: int|
            #![trigger self.world.entries@[j]]
            0 <= j < self.world.entries@.len() ==> match self.world.entries@[j].transform {
                Some(t) => t.wf(),
                None => true,
            }
    }

    /// A fresh engine: empty world, no key held, identity view at the
    /// origin, nothing tracked.
    pub fn new() -> (r: Engine)
        ensures
            r.world.entries@.len() == 0,
            r.world.next_id == 0,
            forall|k: u32|
                !r.input_manager.pressed(k) && !r.input_manager.just_pressed(k)
                    && !r.input_manager.just_released(k),
            r.camera.view@ == identity_seq(),
            r.camera.camera_pos == spec_zero3(),
            !r.camera.requires_update,
            r.car_entity is None,
            r.default_rotation@ == spec_default_rotation(),
    {
        let ident = identity_matrix();
        let half = rotate_normalized_axis(&ident, PI_BITS, z_axis());
        let default_rotation = rotate_normalized_axis(&half, PI_BITS, up_axis());
        Engine {
            input_manager: InputState::new(),
            world: World::new(),
            camera: Camera {
                view: identity_matrix(),
                camera_pos: Vec3 { x: ZERO_BITS, y: ZERO_BITS, z: ZERO_BITS },
                requires_update: false,
            },
            car_entity: None,
            default_rotation,
        }
    }

    /// Whether the id counter still has room, so that a spawn may be called.
    pub fn can_spawn(&self) -> (r: bool)
        ensures
            r == (self.world.next_id < u64::MAX),
    {
        self.world.next_id < u64::MAX
    }

    /// Spawns a drawable entity: a dirty default transform at `pos` with the
    /// default rotation and unit scale, plus the given mesh and material
    /// references.
    pub fn spawn_instance(&mut self, mesh_id: usize, material_id: usize, pos: Vec3) -> (r: Entity)
        requires
            old(self).world.next_id < u64::MAX,
        ensures
            r.0 == old(self).world.next_id,
            final(self).world.next_id == old(self).world.next_id + 1,
            final(self).world.entries@.len() == old(self).world.entries@.len() + 1,
            final(self).world.entries@.drop_last() == old(self).world.entries@,
            ({
                let rec = final(self).world.entries@.last();
                &&& rec.id == old(self).world.next_id
                &&& rec.mesh == Some(MeshID(mesh_id))
                &&& rec.material == Some(MaterialID(material_id))
                &&& rec.car is None
                &&& match rec.transform {
                    Some(t) => t.position == pos && t.rotation == old(self).default_rotation
                        && t.scale == spec_unit_scale() && t.requires_update && t.wf(),
                    None => false,
                }
            }),
            final(self).input_manager == old(self).input_manager,
            final(self).camera == old(self).camera,
            final(self).car_entity == old(self).car_entity,
            final(self).default_rotation == old(self).default_rotation,
    {
        let t = Transform::new(
            pos,
            self.default_rotation,
            Vec3 { x: ONE_BITS, y: ONE_BITS, z: ONE_BITS },
        );
        let e = self.world.spawn(Some(t), Some(MeshID(mesh_id)), Some(MaterialID(material_id)), None);
        proof {
            assert(self.world.entries@.drop_last() =~= old(self).world.entries@);
        }
        e
    }

    /// Spawns the player car: a dirty default transform at `pos`, the given
    /// mesh reference, no material, and fresh Car state; the camera tracks
    /// it from now on.
    pub fn spawn_car(&mut self, mesh_id: usize, pos: Vec3)
        requires
            old(self).world.next_id < u64::MAX,
        ensures
            final(self).world.next_id == old(self).world.next_id + 1,
            final(self).world.entries@.len() == old(self).world.entries@.len() + 1,
            final(self).world.entries@.drop_last() == old(self).world.entries@,
            ({
                let rec = final(self).world.entries@.last();
                &&& rec.id == old(self).world.next_id
                &&& rec.mesh == Some(MeshID(mesh_id))
                &&& rec.material is None
                &&& rec.car == Some(
                    Car {
                        velocity: spec_zero3(),
                        speed: CAR_SPEED_BITS,
                        turn_speed: CAR_TURN_SPEED_BITS,
                    },
                )
                &&& match rec.transform {
                    Some(t) => t.position == pos && t.rotation == old(self).default_rotation
                        && t.scale == spec_unit_scale() && t.requires_update && t.wf(),
                    None => false,
                }
            }),
            final(self).car_entity == Some(Entity(old(self).world.next_id)),
            final(self).input_manager == old(self).input_manager,
            final(self).camera == old(self).camera,
            final(self).default_rotation == old(self).default_rotation,
    {
        let t = Transform::new(
            pos,
            self.default_rotation,
            Vec3 { x: ONE_BITS, y: ONE_BITS, z: ONE_BITS },
        );
        let car = Car {
            velocity: Vec3 { x: ZERO_BITS, y: ZERO_BITS, z: ZERO_BITS },
            speed: CAR_SPEED_BITS,
            turn_speed: CAR_TURN_SPEED_BITS,
        };
        let e = self.world.spawn(Some(t), Some(MeshID(mesh_id)), None, Some(car));
        self.car_entity = Some(e);
        proof {
            assert(self.world.entries@.drop_last() =~= old(self).world.entries@);
        }
    }

    /// Advances the simulation by `delta` seconds (an `f32` bit pattern):
    /// one car-controller pass over every car entity, then the chase camera
    /// following the tracked entity if it still resolves, then the
    /// end-of-tick input reset. Within the tick the controller's updates are
    /// visible to the camera: the systems run in sequence.
    pub fn tick(&mut self, delta: u32)
        ensures
            final(self).world.next_id == old(self).world.next_id,
            final(self).world.entries@.len() == old(self).world.entries@.len(),
            forall|j: int|
                0 <= j < old(self).world.entries@.len() ==> car_stepped(
                    old(self).world.entries@[j],
                    final(self).world.entries@[j],
                    spec_movement_input(old(self).input_manager),
                    spec_turn_input(old(self).input_manager),
                    delta,
                ),
            ({
                match spec_camera_target(final(self).world.entries@, old(self).car_entity) {
                    Some(tr) => {
                        &&& final(self).camera.camera_pos == spec_camera_pos(
                            old(self).camera.camera_pos,
                            tr,
                            delta,
                        )
                        &&& final(self).camera.view@ == spec_camera_view(
                            spec_camera_pos(old(self).camera.camera_pos, tr, delta),
                            tr,
                        )
                        &&& final(self).camera.requires_update
                    },
                    None => final(self).camera == old(self).camera,
                }
            }),
            forall|k: u32|
                final(self).input_manager.pressed(k) == old(self).input_manager.pressed(k),
            forall|k: u32|
                !final(self).input_manager.just_pressed(k)
                    && !final(self).input_manager.just_released(k),
            final(self).car_entity == old(self).car_entity,
            final(self).default_rotation == old(self).default_rotation,
    {
        car_system(&mut self.world, &self.input_manager, delta);
        match self.car_entity {
            Some(e) => {
                let car = self.world.car(e);
                let tr = self.world.transform(e);
                match (car, tr) {
                    (Some(_), Some(t)) => {
                        camera_follow(&mut self.camera, &t, delta);
                    },
                    _ => {},
                }
            },
            None => {},
        }
        self.input_manager.update();
    }

    /// Compiles the per-(mesh, material) instance batches of the current
    /// world state: recomputes each drawable entity's matrices where dirty,
    /// then groups the matrix pairs by key. The result is a function of the
    /// world snapshot alone, so under the engine lock every compiled batch
    /// set reflects exactly one world state.
    pub fn get_draw_calls(&mut self) -> (r: Vec<Batch>)
        ensures
            final(self).world.next_id == old(self).world.next_id,
            final(self).world.entries@.len() == old(self).world.entries@.len(),
            forall|j: int|
                0 <= j < old(self).world.entries@.len() ==> refreshed(
                    old(self).world.entries@[j],
                    final(self).world.entries@[j],
                ),
            batches_view(r@) == spec_compile(final(self).world.entries@),
            final(self).input_manager == old(self).input_manager,
            final(self).camera == old(self).camera,
            final(self).car_entity == old(self).car_entity,
            final(self).default_rotation == old(self).default_rotation,
    {
        let n = self.world.entries.len();
        let mut i: usize = 0;
        while i < n
            invariant
                n == self.world.entries@.len(),
                i <= n,
                self.world.entries@.len() == old(self).world.entries@.len(),
                self.world.next_id == old(self).world.next_id,
                self.input_manager == old(self).input_manager,
                self.camera == old(self).camera,
                self.car_entity == old(self).car_entity,
                self.default_rotation == old(self).default_rotation,
                forall|j: int|
                    0 <= j < i ==> refreshed(old(self).world.entries@[j], self.world.entries@[j]),
                forall|j: int| i <= j < n ==> self.world.entries@[j] == old(self).world.entries@[j],
            decreases n - i,
        {
            let rec = self.world.entries[i];
            if rec.transform.is_some() && rec.mesh.is_some() && rec.material.is_some() {
                let mut t = rec.transform.unwrap();
                t.update_matrices();
                self.world.entries[i] = EntityRecord {
                    id: rec.id,
                    transform: Some(t),
                    mesh: rec.mesh,
                    material: rec.material,
                    car: rec.car,
                };
            }
            i += 1;
        }
        compile_batches(&self.world.entries)
    }
}

} // verus!
