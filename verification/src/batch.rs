//! Draw-batch compiler: walks the world once per render and groups the
//! model/normal matrix pairs of every drawable entity (one carrying a
//! Transform, a mesh reference and a material reference) into per-(mesh,
//! material) instance lists, ready for instanced drawing. Entities sharing a
//! key land in one batch; every qualifying entity appears in exactly one
//! batch, exactly once, per compilation.

use vstd::prelude::*;

use crate::math::Mat4;
use crate::transform::Transform;
use crate::world::EntityRecord;

verus! {

/// The fixed-layout instance datum handed to the GPU instancing buffer: a
/// model matrix and its normal matrix.
#[derive(Clone, Copy, Debug)]
pub struct DrawInstance {
    pub instance_model: Mat4,
    pub instance_normal: Mat4,
}

impl DrawInstance {
    /// Packs the two matrices of one instance.
    pub fn new(instance_model: Mat4, instance_normal: Mat4) -> (r: DrawInstance)
        ensures
            r.instance_model == instance_model,
            r.instance_normal == instance_normal,
    {
        DrawInstance { instance_model, instance_normal }
    }
}

/// One instanced draw call: every drawable entity with this (mesh, material)
/// pair contributes one instance.
#[derive(Debug)]
pub struct Batch {
    pub mesh_id: usize,
    pub material_id: usize,
    pub instances: Vec<DrawInstance>,
}

/// The mathematical shape of a batch.
pub ghost struct BatchModel {
    pub mesh_id: usize,
    pub material_id: usize,
    pub instances: Seq<DrawInstance>,
}

impl View for Batch {
    type V = BatchModel;

    open spec fn view(&self) -> BatchModel {
        BatchModel {
            mesh_id: self.mesh_id,
            material_id: self.material_id,
            instances: self.instances@,
        }
    }
}

/// The batch list as a sequence of batch models.
pub open spec fn batches_view(bs: Seq<Batch>) -> Seq<BatchModel> {
    bs.map_values(|b: Batch| b@)
}

/// Whether the entity is drawable: it carries a transform, a mesh reference
/// and a material reference.
pub open spec fn drawable(r: EntityRecord) -> bool {
    r.transform is Some && r.mesh is Some && r.material is Some
}

/// The instance a transform contributes: its cached matrix pair.
pub open spec fn spec_instance_of(t: Transform) -> DrawInstance {
    DrawInstance { instance_model: t.model_matrix, instance_normal: t.normal_matrix }
}

/// The index of the first batch with the given key, or `-1` if there is
/// none.
pub open spec fn spec_find_batch(bs: Seq<BatchModel>, mesh: usize, mat: usize) -> int
    decreases bs.len(),
{
    if bs.len() == 0 {
        -1
    } else if bs[0].mesh_id == mesh && bs[0].material_id == mat {
        0
    } else {
        let r = spec_find_batch(bs.drop_first(), mesh, mat);
        if r == -1 {
            -1
        } else {
            r + 1
        }
    }
}

/// `spec_find_batch` returns the first index whose batch has the key: a
/// match there, no match before it, and no match at all when it is `-1`.
pub proof fn lemma_find_batch_first(bs: Seq<BatchModel>, mesh: usize, mat: usize)
    ensures
        spec_find_batch(bs, mesh, mat) == -1 || (0 <= spec_find_batch(bs, mesh, mat) < bs.len()),
        spec_find_batch(bs, mesh, mat) == -1 ==> forall|j: int|
            0 <= j < bs.len() ==> !(bs[j].mesh_id == mesh && bs[j].material_id == mat),
        spec_find_batch(bs, mesh, mat) >= 0 ==> {
            let r = spec_find_batch(bs, mesh, mat);
            bs[r].mesh_id == mesh && bs[r].material_id == mat && forall|j: int|
                0 <= j < r ==> !(bs[j].mesh_id == mesh && bs[j].material_id == mat)
        },
    decreases bs.len(),
{
    if bs.len() > 0 && !(bs[0].mesh_id == mesh && bs[0].material_id == mat) {
        let rest = bs.drop_first();
        lemma_find_batch_first(rest, mesh, mat);
        assert forall|j: int| 1 <= j < bs.len() implies bs[j] == rest[j - 1] by {
            assert(rest[j - 1] == bs.subrange(1, bs.len() as int)[j - 1]);
        }
        if spec_find_batch(rest, mesh, mat) == -1 {
            assert forall|j: int|
                0 <= j < bs.len() implies !(bs[j].mesh_id == mesh && bs[j].material_id
                == mat) by {
                if j >= 1 {
                    assert(bs[j] == rest[j - 1]);
                }
            }
        } else {
            let r = spec_find_batch(bs, mesh, mat);
            assert(r == spec_find_batch(rest, mesh, mat) + 1);
            assert(bs[r] == rest[r - 1]);
            assert forall|j: int|
                0 <= j < r implies !(bs[j].mesh_id == mesh && bs[j].material_id == mat) by {
                if j >= 1 {
                    assert(bs[j] == rest[j - 1]);
                }
            }
        }
    }
}

/// The batch list after one instance with the given key is appended: into
/// the batch that already has the key, or as a fresh singleton batch at the
/// end.
pub open spec fn spec_add_instance(
    bs: Seq<BatchModel>,
    mesh: usize,
    mat: usize,
    di: DrawInstance,
) -> Seq<BatchModel> {
    let i = spec_find_batch(bs, mesh, mat);
    if i == -1 {
        bs.push(BatchModel { mesh_id: mesh, material_id: mat, instances: seq![di] })
    } else {
        bs.update(
            i,
            BatchModel { mesh_id: mesh, material_id: mat, instances: bs[i].instances.push(di) },
        )
    }
}

/// The compiled batch list of a world: every drawable entity contributes its
/// cached matrix pair to the batch of its (mesh, material) key, in entity
/// order.
pub open spec fn spec_compile(entries: Seq<EntityRecord>) -> Seq<BatchModel>
    decreases entries.len(),
{
    if entries.len() == 0 {
        Seq::empty()
    } else {
        let prev = spec_compile(entries.drop_last());
        let r = entries.last();
        if drawable(r) {
            spec_add_instance(
                prev,
                r.mesh.unwrap().0,
                r.material.unwrap().0,
                spec_instance_of(r.transform.unwrap()),
            )
        } else {
            prev
        }
    }
}

/// The index of the first batch whose key matches, or `None`.
fn find_batch(bs: &Vec<Batch>, mesh: usize, mat: usize) -> (r: Option<usize>)
    ensures
        match r {
            Some(i) => spec_find_batch(batches_view(bs@), mesh, mat) == i && i < bs@.len()
                && bs@[i as int].mesh_id == mesh && bs@[i as int].material_id == mat,
            None => spec_find_batch(batches_view(bs@), mesh, mat) == -1,
        },
{
    proof {
        lemma_find_batch_first(batches_view(bs@), mesh, mat);
        assert(batches_view(bs@).len() == bs@.len());
    }
    let ghost bv = batches_view(bs@);
    let mut i: usize = 0;
    while i < bs.len()
        invariant
            i <= bs@.len(),
            bv == batches_view(bs@),
            bv.len() == bs@.len(),
            forall|j: int| 0 <= j < bv.len() ==> bv[j] == bs@[j]@,
            forall|j: int| 0 <= j < i ==> !(bv[j].mesh_id == mesh && bv[j].material_id == mat),
            spec_find_batch(bv, mesh, mat) == -1 || (0 <= spec_find_batch(bv, mesh, mat)
                < bv.len()),
            spec_find_batch(bv, mesh, mat) == -1 ==> forall|j: int|
                0 <= j < bv.len() ==> !(bv[j].mesh_id == mesh && bv[j].material_id == mat),
            spec_find_batch(bv, mesh, mat) >= 0 ==> {
                let r = spec_find_batch(bv, mesh, mat);
                bv[r].mesh_id == mesh && bv[r].material_id == mat && forall|j: int|
                    0 <= j < r ==> !(bv[j].mesh_id == mesh && bv[j].material_id == mat)
            },
        decreases bs@.len() - i,
    {
        if bs[i].mesh_id == mesh && bs[i].material_id == mat {
            proof {
                assert(bv[i as int] == bs@[i as int]@);
                assert(bv[i as int].mesh_id == mesh && bv[i as int].material_id == mat);
            }
            return Some(i);
        }
        proof {
            assert(bv[i as int] == bs@[i as int]@);
        }
        i += 1;
    }
    None
}

/// Compiles the batch table of the given entity records, reading each
/// drawable entity's cached matrices as they stand.
pub fn compile_batches(entries: &Vec<EntityRecord>) -> (r: Vec<Batch>)
    ensures
        batches_view(r@) == spec_compile(entries@),
{
    let mut batches: Vec<Batch> = Vec::new();
    proof {
        assert(entries@.take(0) =~= Seq::<EntityRecord>::empty());
        assert(batches_view(batches@) =~= spec_compile(entries@.take(0)));
    }
    let n = entries.len();
    let mut i: usize = 0;
    while i < n
        invariant
            n == entries@.len(),
            i <= n,
            batches_view(batches@) == spec_compile(entries@.take(i as int)),
        decreases n - i,
    {
        let rec = &entries[i];
        proof {
            assert(entries@.take(i + 1).drop_last() =~= entries@.take(i as int));
            assert(entries@.take(i + 1).last() == entries@[i as int]);
        }
        match (&rec.transform, &rec.mesh, &rec.material) {
            (Some(t), Some(mesh), Some(mat)) => {
                let di = DrawInstance::new(t.model_matrix, t.normal_matrix);
                let ghost before = batches_view(batches@);
                match find_batch(&batches, mesh.0, mat.0) {
                    Some(bi) => {
                        batches[bi].instances.push(di);
                        proof {
                            let ghost after = batches_view(batches@);
                            assert(after =~= spec_add_instance(
                                before,
                                rec.mesh.unwrap().0,
                                rec.material.unwrap().0,
                                spec_instance_of(rec.transform.unwrap()),
                            ));
                        }
                    },
                    None => {
                        let mut instances: Vec<DrawInstance> = Vec::new();
                        instances.push(di);
                        batches.push(Batch { mesh_id: mesh.0, material_id: mat.0, instances });
                        proof {
                            let ghost after = batches_view(batches@);
                            assert(instances@ =~= seq![di]);
                            assert(after =~= spec_add_instance(
                                before,
                                rec.mesh.unwrap().0,
                                rec.material.unwrap().0,
                                spec_instance_of(rec.transform.unwrap()),
                            ));
                        }
                    },
                }
            },
            _ => {},
        }
        i += 1;
    }
    proof {
        assert(entries@.take(n as int) =~= entries@);
    }
    batches
}


/// The total number of instances over all batches.
pub open spec fn spec_total_instances(bs: Seq<BatchModel>) -> nat
    decreases bs.len(),
{
    if bs.len() == 0 {
        0
    } else {
        spec_total_instances(bs.drop_last()) + bs.last().instances.len()
    }
}

/// The number of drawable entities among the records.
pub open spec fn spec_drawable_count(entries: Seq<EntityRecord>) -> nat
    decreases entries.len(),
{
    if entries.len() == 0 {
        0
    } else {
        spec_drawable_count(entries.drop_last()) + if drawable(entries.last()) {
            1nat
        } else {
            0nat
        }
    }
}

/// The instances the drawable entities with the given key contribute, in
/// entity order.
pub open spec fn spec_instances_for(
    entries: Seq<EntityRecord>,
    mesh: usize,
    mat: usize,
) -> Seq<DrawInstance>
    decreases entries.len(),
{
    if entries.len() == 0 {
        Seq::empty()
    } else {
        let prev = spec_instances_for(entries.drop_last(), mesh, mat);
        let r = entries.last();
        if drawable(r) && r.mesh.unwrap().0 == mesh && r.material.unwrap().0 == mat {
            prev.push(spec_instance_of(r.transform.unwrap()))
        } else {
            prev
        }
    }
}

/// Batch-table sanity: keys are pairwise distinct and no batch is empty.
pub open spec fn spec_batches_wf(bs: Seq<BatchModel>) -> bool {
    &&& forall|i: int, j: int|
        0 <= i < j < bs.len() ==> !(bs[i].mesh_id == bs[j].mesh_id && bs[i].material_id
            == bs[j].material_id)
    &&& forall|i: int| 0 <= i < bs.len() ==> bs[i].instances.len() >= 1
}

/// Replacing one batch by another with the same instance count plus one
/// raises the total by one.
proof fn lemma_total_update(bs: Seq<BatchModel>, i: int, b: BatchModel)
    requires
        0 <= i < bs.len(),
    ensures
        spec_total_instances(bs.update(i, b)) == spec_total_instances(bs) - bs[i].instances.len()
            + b.instances.len(),
    decreases bs.len(),
{
    let u = bs.update(i, b);
    if i == bs.len() - 1 {
        assert(u.drop_last() =~= bs.drop_last());
        assert(u.last() == b);
    } else {
        assert(u.drop_last() =~= bs.drop_last().update(i, b));
        assert(u.last() == bs.last());
        lemma_total_update(bs.drop_last(), i, b);
    }
}

/// Appending a batch adds its instance count to the total.
proof fn lemma_total_push(bs: Seq<BatchModel>, b: BatchModel)
    ensures
        spec_total_instances(bs.push(b)) == spec_total_instances(bs) + b.instances.len(),
{
    assert(bs.push(b).drop_last() =~= bs);
    assert(bs.push(b).last() == b);
}

/// Batch completeness, counting half: the instance-list lengths of the
/// compiled batch table sum to exactly the number of drawable entities —
/// no entity is dropped and none is counted twice.
pub proof fn lemma_compile_count(entries: Seq<EntityRecord>)
    ensures
        spec_total_instances(spec_compile(entries)) == spec_drawable_count(entries),
    decreases entries.len(),
{
    if entries.len() > 0 {
        lemma_compile_count(entries.drop_last());
        let prev = spec_compile(entries.drop_last());
        let r = entries.last();
        if drawable(r) {
            let mesh = r.mesh.unwrap().0;
            let mat = r.material.unwrap().0;
            let di = spec_instance_of(r.transform.unwrap());
            lemma_find_batch_first(prev, mesh, mat);
            let i = spec_find_batch(prev, mesh, mat);
            if i == -1 {
                lemma_total_push(
                    prev,
                    BatchModel { mesh_id: mesh, material_id: mat, instances: seq![di] },
                );
            } else {
                lemma_total_update(
                    prev,
                    i,
                    BatchModel {
                        mesh_id: mesh,
                        material_id: mat,
                        instances: prev[i].instances.push(di),
                    },
                );
            }
        }
    }
}

/// Batch-table sanity of the compiler's output: the compiled table has
/// pairwise distinct keys — entities sharing a key share one batch — and
/// holds no empty batch, so the table has exactly one key per distinct
/// (mesh, material) pair that occurs among the drawable entities.
pub proof fn lemma_compile_batches_wf(entries: Seq<EntityRecord>)
    ensures
        spec_batches_wf(spec_compile(entries)),
    decreases entries.len(),
{
    if entries.len() > 0 {
        lemma_compile_batches_wf(entries.drop_last());
        let prev = spec_compile(entries.drop_last());
        let r = entries.last();
        if drawable(r) {
            let mesh = r.mesh.unwrap().0;
            let mat = r.material.unwrap().0;
            lemma_find_batch_first(prev, mesh, mat);
        }
    }
}

/// Whether two key-sequences agree pointwise decides the found index.
proof fn lemma_find_same_keys(a: Seq<BatchModel>, b: Seq<BatchModel>, mesh: usize, mat: usize)
    requires
        a.len() == b.len(),
        forall|j: int|
            0 <= j < a.len() ==> a[j].mesh_id == b[j].mesh_id && a[j].material_id
                == b[j].material_id,
    ensures
        spec_find_batch(a, mesh, mat) == spec_find_batch(b, mesh, mat),
    decreases a.len(),
{
    if a.len() > 0 && !(a[0].mesh_id == mesh && a[0].material_id == mat) {
        let ar = a.drop_first();
        let br = b.drop_first();
        assert forall|j: int|
            0 <= j < ar.len() implies ar[j].mesh_id == br[j].mesh_id && ar[j].material_id
            == br[j].material_id by {
            assert(ar[j] == a[j + 1]);
            assert(br[j] == b[j + 1]);
        }
        lemma_find_same_keys(ar, br, mesh, mat);
    }
}

/// Where a pushed batch is found: at the old index if the key was already
/// present, at the end if the pushed batch carries the key, else nowhere.
proof fn lemma_find_push(bs: Seq<BatchModel>, b: BatchModel, mesh: usize, mat: usize)
    ensures
        spec_find_batch(bs.push(b), mesh, mat) == (if spec_find_batch(bs, mesh, mat) >= 0 {
            spec_find_batch(bs, mesh, mat)
        } else if b.mesh_id == mesh && b.material_id == mat {
            bs.len() as int
        } else {
            -1
        }),
    decreases bs.len(),
{
    lemma_find_batch_first(bs, mesh, mat);
    let p = bs.push(b);
    assert(p.len() == bs.len() + 1);
    if bs.len() == 0 {
        assert(p[0] == b);
        if b.mesh_id == mesh && b.material_id == mat {
            assert(spec_find_batch(p, mesh, mat) == 0);
        } else {
            assert(p.drop_first() =~= Seq::<BatchModel>::empty());
            assert(spec_find_batch(Seq::<BatchModel>::empty(), mesh, mat) == -1);
            assert(spec_find_batch(p, mesh, mat) == -1);
        }
    } else {
        assert(p[0] == bs[0]);
        if bs[0].mesh_id == mesh && bs[0].material_id == mat {
            assert(spec_find_batch(p, mesh, mat) == 0);
            assert(spec_find_batch(bs, mesh, mat) == 0);
        } else {
            assert(p.drop_first() =~= bs.drop_first().push(b));
            lemma_find_push(bs.drop_first(), b, mesh, mat);
            lemma_find_batch_first(bs.drop_first(), mesh, mat);
            assert(spec_find_batch(p.drop_first(), mesh, mat) == spec_find_batch(
                bs.drop_first().push(b),
                mesh,
                mat,
            ));
        }
    }
}

/// Batch completeness, identity half: the batch the compiler files under a
/// key holds exactly the instances of the drawable entities with that key,
/// in entity order — and a key with no drawable entity has no batch.
pub proof fn lemma_compile_instances(entries: Seq<EntityRecord>, mesh: usize, mat: usize)
    ensures
        ({
            let bs = spec_compile(entries);
            let i = spec_find_batch(bs, mesh, mat);
            &&& (i == -1 ==> spec_instances_for(entries, mesh, mat) == Seq::<
                DrawInstance,
            >::empty())
            &&& (i >= 0 ==> bs[i].instances == spec_instances_for(entries, mesh, mat))
        }),
    decreases entries.len(),
{
    if entries.len() > 0 {
        lemma_compile_instances(entries.drop_last(), mesh, mat);
        let prev = spec_compile(entries.drop_last());
        let pi = spec_find_batch(prev, mesh, mat);
        lemma_find_batch_first(prev, mesh, mat);
        let r = entries.last();
        if drawable(r) {
            let m2 = r.mesh.unwrap().0;
            let mt2 = r.material.unwrap().0;
            let di = spec_instance_of(r.transform.unwrap());
            lemma_find_batch_first(prev, m2, mt2);
            let j = spec_find_batch(prev, m2, mt2);
            if j == -1 {
                let nb = BatchModel { mesh_id: m2, material_id: mt2, instances: seq![di] };
                lemma_find_push(prev, nb, mesh, mat);
            } else {
                let nb = BatchModel {
                    mesh_id: m2,
                    material_id: mt2,
                    instances: prev[j].instances.push(di),
                };
                let bs = prev.update(j, nb);
                assert forall|k: int|
                    0 <= k < prev.len() implies prev[k].mesh_id == bs[k].mesh_id
                    && prev[k].material_id == bs[k].material_id by {}
                lemma_find_same_keys(prev, bs, mesh, mat);
            }
        }
    }
}

} // verus!
