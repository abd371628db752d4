//! Entity world: a sparse collection of entities, each owning an arbitrary
//! subset of the component types (Transform, mesh reference, material
//! reference, Car state), stored as a registry of records keyed by a stable
//! integer entity id. Identifiers come from a monotonic counter and are never
//! reused; lookups by a despawned or unknown id fail softly with `None`.

use vstd::prelude::*;

use crate::math::Vec3;
use crate::transform::Transform;

verus! {

/// Stable integer handle of a loaded mesh.
#[derive(Clone, Copy, PartialEq, Eq, Structural, Debug)]
pub struct MeshID(pub usize);

/// Stable integer handle of a loaded material.
#[derive(Clone, Copy, PartialEq, Eq, Structural, Debug)]
pub struct MaterialID(pub usize);

/// Car-controller state: current velocity, top forward speed and top yaw
/// rate, all `f32` bit patterns.
#[derive(Clone, Copy, PartialEq, Eq, Structural, Debug)]
pub struct Car {
    pub velocity: Vec3,
    pub speed: u32,
    pub turn_speed: u32,
}

/// An opaque entity identifier.
#[derive(Clone, Copy, PartialEq, Eq, Structural, Debug)]
pub struct Entity(pub u64);

/// One entity's id and component set.
#[derive(Clone, Copy, Debug)]
pub struct EntityRecord {
    pub id: u64,
    pub transform: Option<Transform>,
    pub mesh: Option<MeshID>,
    pub material: Option<MaterialID>,
    pub car: Option<Car>,
}

/// The index of the first record with the given id, or `-1` if there is
/// none. Spawning never hands out the same id twice, so the first match is
/// the only one.
pub open spec fn spec_index_of(entries: Seq<EntityRecord>, id: u64) -> int
    decreases entries.len(),
{
    if entries.len() == 0 {
        -1
    } else if entries[0].id == id {
        0
    } else {
        let r = spec_index_of(entries.drop_first(), id);
        if r == -1 {
            -1
        } else {
            r + 1
        }
    }
}

/// Whether some record carries the given id.
pub open spec fn spec_found(entries: Seq<EntityRecord>, id: u64) -> bool {
    spec_index_of(entries, id) >= 0
}

/// `spec_index_of` returns the first matching index: a match at the returned
/// index, no match before it, and no match at all when it returns `-1`.
pub proof fn lemma_index_of_first(entries: Seq<EntityRecord>, id: u64)
    ensures
        spec_index_of(entries, id) == -1 || (0 <= spec_index_of(entries, id)
            < entries.len()),
        spec_index_of(entries, id) == -1 ==> forall|j: int|
            0 <= j < entries.len() ==> entries[j].id != id,
        spec_index_of(entries, id) >= 0 ==> {
            let r = spec_index_of(entries, id);
            entries[r].id == id && forall|j: int| 0 <= j < r ==> entries[j].id != id
        },
    decreases entries.len(),
{
    if entries.len() > 0 && entries[0].id != id {
        let rest = entries.drop_first();
        lemma_index_of_first(rest, id);
        assert forall|j: int| 1 <= j < entries.len() implies entries[j] == rest[j - 1] by {
            assert(rest[j - 1] == entries.subrange(1, entries.len() as int)[j - 1]);
        }
        if spec_index_of(rest, id) == -1 {
            assert forall|j: int| 0 <= j < entries.len() implies entries[j].id != id by {
                if j >= 1 {
                    assert(entries[j] == rest[j - 1]);
                    assert(rest[j - 1].id != id);
                }
            }
        } else {
            let r = spec_index_of(entries, id);
            assert(r == spec_index_of(rest, id) + 1);
            assert(entries[r] == rest[r - 1]);
            assert forall|j: int| 0 <= j < r implies entries[j].id != id by {
                if j >= 1 {
                    assert(entries[j] == rest[j - 1]);
                    assert(rest[j - 1].id != id);
                }
            }
        }
    }
}

/// The entity world.
pub struct World {
    /// The entity records, in spawn order.
    pub entries: Vec<EntityRecord>,
    /// The id the next spawn will hand out; never decreased.
    pub next_id: u64,
}

impl World {
    /// An empty world whose first entity will get id 0.
    pub fn new() -> (r: World)
        ensures
            r.entries@.len() == 0,
            r.next_id == 0,
    {
        World { entries: Vec::new(), next_id: 0 }
    }

    /// Spawns an entity with the given component set and returns its fresh
    /// identifier.
    pub fn spawn(
        &mut self,
        transform: Option<Transform>,
        mesh: Option<MeshID>,
        material: Option<MaterialID>,
        car: Option<Car>,
    ) -> (r: Entity)
        requires
            old(self).next_id < u64::MAX,
        ensures
            r.0 == old(self).next_id,
            final(self).next_id == old(self).next_id + 1,
            final(self).entries@ == old(self).entries@.push(
                EntityRecord { id: old(self).next_id, transform, mesh, material, car },
            ),
    {
        let id = self.next_id;
        self.next_id = self.next_id + 1;
        self.entries.push(EntityRecord { id, transform, mesh, material, car });
        Entity(id)
    }

    /// The index of the first record with the given id.
    fn find(&self, id: u64) -> (r: Option<usize>)
        ensures
            match r {
                Some(i) => spec_found(self.entries@, id) && i == spec_index_of(self.entries@, id)
                    && i < self.entries@.len() && self.entries@[i as int].id == id,
                None => !spec_found(self.entries@, id),
            },
    {
        proof {
            lemma_index_of_first(self.entries@, id);
        }
        let mut i: usize = 0;
        while i < self.entries.len()
            invariant
                i <= self.entries@.len(),
                forall|j: int| 0 <= j < i ==> self.entries@[j].id != id,
                spec_index_of(self.entries@, id) == -1 || (0 <= spec_index_of(self.entries@, id)
                    < self.entries@.len()),
                spec_index_of(self.entries@, id) == -1 ==> forall|j: int|
                    0 <= j < self.entries@.len() ==> self.entries@[j].id != id,
                spec_index_of(self.entries@, id) >= 0 ==> {
                    let r = spec_index_of(self.entries@, id);
                    self.entries@[r].id == id && forall|j: int|
                        0 <= j < r ==> self.entries@[j].id != id
                },
            decreases self.entries@.len() - i,
        {
            if self.entries[i].id == id {
                return Some(i);
            }
            i += 1;
        }
        None
    }

    /// Whether the entity is still alive.
    pub fn contains(&self, entity: Entity) -> (r: bool)
        ensures
            r == spec_found(self.entries@, entity.0),
    {
        self.find(entity.0).is_some()
    }

    /// Removes an entity and all its components; returns whether it existed.
    /// Lookups by its identifier fail from then on.
    pub fn despawn(&mut self, entity: Entity) -> (found: bool)
        ensures
            final(self).next_id == old(self).next_id,
            found == spec_found(old(self).entries@, entity.0),
            found ==> final(self).entries@ == old(self).entries@.remove(
                spec_index_of(old(self).entries@, entity.0),
            ),
            !found ==> final(self).entries@ == old(self).entries@,
    {
        match self.find(entity.0) {
            Some(i) => {
                self.entries.remove(i);
                true
            },
            None => false,
        }
    }

    /// The entity's transform, or `None` if the entity is gone or carries no
    /// transform.
    pub fn transform(&self, entity: Entity) -> (r: Option<Transform>)
        ensures
            r == (if spec_found(self.entries@, entity.0) {
                self.entries@[spec_index_of(self.entries@, entity.0)].transform
            } else {
                Option::<Transform>::None
            }),
    {
        match self.find(entity.0) {
            Some(i) => self.entries[i].transform,
            None => None,
        }
    }

    /// The entity's car state, or `None` if the entity is gone or carries no
    /// car.
    pub fn car(&self, entity: Entity) -> (r: Option<Car>)
        ensures
            r == (if spec_found(self.entries@, entity.0) {
                self.entries@[spec_index_of(self.entries@, entity.0)].car
            } else {
                Option::<Car>::None
            }),
    {
        match self.find(entity.0) {
            Some(i) => self.entries[i].car,
            None => None,
        }
    }

    /// The entity's mesh reference, or `None`.
    pub fn mesh(&self, entity: Entity) -> (r: Option<MeshID>)
        ensures
            r == (if spec_found(self.entries@, entity.0) {
                self.entries@[spec_index_of(self.entries@, entity.0)].mesh
            } else {
                Option::<MeshID>::None
            }),
    {
        match self.find(entity.0) {
            Some(i) => self.entries[i].mesh,
            None => None,
        }
    }

    /// The entity's material reference, or `None`.
    pub fn material(&self, entity: Entity) -> (r: Option<MaterialID>)
        ensures
            r == (if spec_found(self.entries@, entity.0) {
                self.entries@[spec_index_of(self.entries@, entity.0)].material
            } else {
                Option::<MaterialID>::None
            }),
    {
        match self.find(entity.0) {
            Some(i) => self.entries[i].material,
            None => None,
        }
    }

    /// Replaces the entity's transform; returns whether the entity existed.
    pub fn set_transform(&mut self, entity: Entity, transform: Transform) -> (found: bool)
        ensures
            final(self).next_id == old(self).next_id,
            found == spec_found(old(self).entries@, entity.0),
            found ==> {
                let i = spec_index_of(old(self).entries@, entity.0);
                final(self).entries@ == old(self).entries@.update(
                    i,
                    EntityRecord { transform: Some(transform), ..old(self).entries@[i] },
                )
            },
            !found ==> final(self).entries@ == old(self).entries@,
    {
        match self.find(entity.0) {
            Some(i) => {
                self.entries[i].transform = Some(transform);
                true
            },
            None => false,
        }
    }
}

} // verus!
