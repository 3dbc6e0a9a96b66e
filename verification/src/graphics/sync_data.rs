//! The synchronized uniform store: per-resource matrices (with their
//! inverses) and colors, keyed by `Id`. Written only during the render
//! flush, read only while draw calls are assembled.

use vstd::prelude::*;

use crate::ids::Id;
use crate::math::{Mat4, Vec4};
use crate::table::Table;

verus! {

pub struct SyncData {
    mat4s: Table<Id, Mat4>,
    mat4s_inverse: Table<Id, Mat4>,
    vec4s: Table<Id, Vec4>,
}

impl SyncData {
    /// The stored matrices, by id.
    pub closed spec fn mat4s_spec(&self) -> Map<Id, Mat4> {
        self.mat4s@
    }

    /// The stored matrix inverses, by id.
    pub closed spec fn inverses_spec(&self) -> Map<Id, Mat4> {
        self.mat4s_inverse@
    }

    /// The stored four-component values, by id.
    pub closed spec fn vec4s_spec(&self) -> Map<Id, Vec4> {
        self.vec4s@
    }

    /// An empty store.
    pub fn new() -> (r: SyncData)
        ensures
            r.mat4s_spec() == Map::<Id, Mat4>::empty(),
            r.inverses_spec() == Map::<Id, Mat4>::empty(),
            r.vec4s_spec() == Map::<Id, Vec4>::empty(),
    {
        SyncData { mat4s: Table::new(), mat4s_inverse: Table::new(), vec4s: Table::new() }
    }

    /// Stores a color or other four-component value under `id`.
    pub fn set_vec4(&mut self, id: Id, vec4: Vec4)
        ensures
            final(self).vec4s_spec() == old(self).vec4s_spec().insert(id, vec4),
            final(self).mat4s_spec() == old(self).mat4s_spec(),
            final(self).inverses_spec() == old(self).inverses_spec(),
    {
        self.vec4s.insert(id, vec4);
    }

    /// Stores a matrix and its inverse under `id`.
    pub fn set_matrix(&mut self, id: Id, mat4: Mat4, inverse: Mat4)
        ensures
            final(self).mat4s_spec() == old(self).mat4s_spec().insert(id, mat4),
            final(self).inverses_spec() == old(self).inverses_spec().insert(id, inverse),
            final(self).vec4s_spec() == old(self).vec4s_spec(),
    {
        self.mat4s.insert(id, mat4);
        self.mat4s_inverse.insert(id, inverse);
    }

    /// The value stored under `id`, if any.
    pub fn get_vec4(&self, id: Id) -> (r: Option<&Vec4>)
        ensures
            match r {
                Some(v) => self.vec4s_spec().dom().contains(id) && *v == self.vec4s_spec()[id],
                None => !self.vec4s_spec().dom().contains(id),
            },
    {
        self.vec4s.get(&id)
    }

    /// The matrix stored under `id`, if any.
    pub fn get_matrix(&self, id: Id) -> (r: Option<&Mat4>)
        ensures
            match r {
                Some(v) => self.mat4s_spec().dom().contains(id) && *v == self.mat4s_spec()[id],
                None => !self.mat4s_spec().dom().contains(id),
            },
    {
        self.mat4s.get(&id)
    }

    /// The matrix inverse stored under `id`, if any.
    pub fn get_inverse(&self, id: Id) -> (r: Option<&Mat4>)
        ensures
            match r {
                Some(v) => self.inverses_spec().dom().contains(id) && *v == self.inverses_spec()[id],
                None => !self.inverses_spec().dom().contains(id),
            },
    {
        self.mat4s_inverse.get(&id)
    }
}

} // verus!
