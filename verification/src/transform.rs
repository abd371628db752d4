//! Per-entity transform store: position, rotation and scale together with a
//! lazily recomputed model/normal matrix pair guarded by a dirty flag.
//!
//! Every mutator sets `requires_update` and leaves the cached matrices
//! untouched; `update_matrices` recomputes them only when the flag is set, so
//! an entity mutated many times in one tick pays the matrix-composition cost
//! once, at read time.

use vstd::prelude::*;

use crate::math::{
    Mat4, Vec3, identity_matrix, identity_seq, inverse_transpose, inverse_transpose_bits,
    mat4_mul, mat4_mul_bits, rotate_axis_bits, rotate_normalized_axis, scaling_matrix,
    scaling_seq, spec_add3, translation_matrix, translation_seq, vec3_add,
};

verus! {

/// A transform with cached derived matrices.
///
/// `rotation` is meant to stay a pure rotation matrix: it is only ever
/// replaced by products of rotations and the identity.
#[derive(Clone, Copy, Debug)]
pub struct Transform {
    pub position: Vec3,
    pub rotation: Mat4,
    pub scale: Vec3,
    /// Cached `translation(position) * rotation * scaling(scale)`; stale
    /// whenever `requires_update` is set.
    pub model_matrix: Mat4,
    /// Cached inverse-transpose of `model_matrix`; stale whenever
    /// `requires_update` is set.
    pub normal_matrix: Mat4,
    /// The dirty flag: set by every mutator, cleared by `update_matrices`.
    pub requires_update: bool,
}

/// The model matrix that `position`, `rotation` and `scale` describe:
/// `translation(position) * rotation * scaling(scale)`, associated to the
/// left as the engine computes it.
pub open spec fn spec_model_of(t: Transform) -> Seq<u32> {
    mat4_mul_bits(mat4_mul_bits(translation_seq(t.position), t.rotation@), scaling_seq(t.scale))
}

/// The matching normal matrix: the inverse-transpose of the model matrix.
pub open spec fn spec_normal_of(t: Transform) -> Seq<u32> {
    inverse_transpose_bits(spec_model_of(t))
}

impl Transform {
    /// A clean transform either carries current cached matrices or is marked
    /// dirty; every constructor and mutator of this module maintains this.
    pub open spec fn wf(self) -> bool {
        !self.requires_update ==> self.model_matrix@ == spec_model_of(self)
            && self.normal_matrix@ == spec_normal_of(self)
    }

    /// A fresh transform from its three components, marked dirty so that the
    /// matrices are computed on first read.
    pub fn new(position: Vec3, rotation: Mat4, scale: Vec3) -> (r: Transform)
        ensures
            r.position == position,
            r.rotation == rotation,
            r.scale == scale,
            r.requires_update,
            r.wf(),
    {
        Transform {
            position,
            rotation,
            scale,
            model_matrix: identity_matrix(),
            normal_matrix: identity_matrix(),
            requires_update: true,
        }
    }

    /// Moves the position by `delta` and marks the transform dirty.
    pub fn translate(&mut self, delta: Vec3)
        ensures
            final(self).position == spec_add3(old(self).position, delta),
            final(self).rotation == old(self).rotation,
            final(self).scale == old(self).scale,
            final(self).model_matrix == old(self).model_matrix,
            final(self).normal_matrix == old(self).normal_matrix,
            final(self).requires_update,
            final(self).wf(),
    {
        self.position = vec3_add(self.position, delta);
        self.requires_update = true;
    }

    /// Replaces the position and marks the transform dirty.
    pub fn set_position(&mut self, position: Vec3)
        ensures
            final(self).position == position,
            final(self).rotation == old(self).rotation,
            final(self).scale == old(self).scale,
            final(self).model_matrix == old(self).model_matrix,
            final(self).normal_matrix == old(self).normal_matrix,
            final(self).requires_update,
            final(self).wf(),
    {
        self.position = position;
        self.requires_update = true;
    }

    /// Multiplies the rotation on the right by the rotation of `radians`
    /// about the normalized `axis` and marks the transform dirty.
    pub fn rotate_around_axis(&mut self, radians: u32, axis: Vec3)
        ensures
            final(self).rotation@ == rotate_axis_bits(old(self).rotation@, radians, axis),
            final(self).position == old(self).position,
            final(self).scale == old(self).scale,
            final(self).model_matrix == old(self).model_matrix,
            final(self).normal_matrix == old(self).normal_matrix,
            final(self).requires_update,
            final(self).wf(),
    {
        self.rotation = rotate_normalized_axis(&self.rotation, radians, axis);
        self.requires_update = true;
    }

    /// Left-multiplies the rotation by `rotation`, so that rotations compose
    /// in world space, and marks the transform dirty.
    pub fn rotate(&mut self, rotation: &Mat4)
        ensures
            final(self).rotation@ == mat4_mul_bits(rotation@, old(self).rotation@),
            final(self).position == old(self).position,
            final(self).scale == old(self).scale,
            final(self).model_matrix == old(self).model_matrix,
            final(self).normal_matrix == old(self).normal_matrix,
            final(self).requires_update,
            final(self).wf(),
    {
        self.rotation = mat4_mul(rotation, &self.rotation);
        self.requires_update = true;
    }

    /// Resets the rotation to the identity and marks the transform dirty.
    pub fn zero_rotation(&mut self)
        ensures
            final(self).rotation@ == identity_seq(),
            final(self).position == old(self).position,
            final(self).scale == old(self).scale,
            final(self).model_matrix == old(self).model_matrix,
            final(self).normal_matrix == old(self).normal_matrix,
            final(self).requires_update,
            final(self).wf(),
    {
        self.rotation = identity_matrix();
        self.requires_update = true;
    }

    /// Replaces the scale and marks the transform dirty.
    pub fn set_scale(&mut self, scale: Vec3)
        ensures
            final(self).scale == scale,
            final(self).position == old(self).position,
            final(self).rotation == old(self).rotation,
            final(self).model_matrix == old(self).model_matrix,
            final(self).normal_matrix == old(self).normal_matrix,
            final(self).requires_update,
            final(self).wf(),
    {
        self.scale = scale;
        self.requires_update = true;
    }

    /// Recomputes the cached matrices if the transform is dirty and clears
    /// the flag; a no-op on a clean transform, so a second call without an
    /// intervening mutator leaves the transform unchanged. On a
    /// well-formed transform the cached matrices equal
    /// `translation(position) * rotation * scaling(scale)` and its
    /// inverse-transpose afterwards, whatever sequence of mutators ran
    /// before.
    pub fn update_matrices(&mut self)
        ensures
            final(self).position == old(self).position,
            final(self).rotation == old(self).rotation,
            final(self).scale == old(self).scale,
            !final(self).requires_update,
            old(self).requires_update ==> final(self).model_matrix@ == spec_model_of(*old(self))
                && final(self).normal_matrix@ == spec_normal_of(*old(self)),
            !old(self).requires_update ==> *final(self) == *old(self),
            old(self).wf() ==> final(self).model_matrix@ == spec_model_of(*old(self))
                && final(self).normal_matrix@ == spec_normal_of(*old(self)),
            old(self).wf() ==> final(self).wf(),
            old(self).requires_update ==> final(self).wf(),
    {
        if !self.requires_update {
            return;
        }
        let translation = translation_matrix(self.position);
        let scale = scaling_matrix(self.scale);
        self.model_matrix = mat4_mul(&mat4_mul(&translation, &self.rotation), &scale);
        self.normal_matrix = inverse_transpose(&self.model_matrix);
        self.requires_update = false;
    }

    /// The cached model and normal matrices, as last computed.
    pub fn model_matrices(&self) -> (r: (Mat4, Mat4))
        ensures
            r.0 == self.model_matrix,
            r.1 == self.normal_matrix,
    {
        (self.model_matrix, self.normal_matrix)
    }
}

} // verus!
