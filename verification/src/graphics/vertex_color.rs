//! The vertex-color renderer's resource tables: vertex buffers, index
//! buffers and draw parameters, keyed by stable resource ids.

use vstd::prelude::*;

use crate::err::DorpErr;
use crate::graphics::draw_method::DrawMethod;
use crate::graphics::frame::DrawCall;
use crate::graphics::renderers::RendererType;
use crate::graphics::sync_data::SyncData;
use crate::ids::Id;
use crate::math::{Vec3, Vec4};
use crate::renderable::vertex_color::RenderableVertexColor;
use crate::table::{lemma_lookup_some_index, Table};

verus! {

/// A vertex of the vertex-color pipeline: a position and a color.
#[derive(Copy, Clone, Debug, PartialEq, Eq, Structural)]
pub struct Vertex {
    pub position: Vec3,
    pub color: Vec4,
}

impl Vertex {
    pub fn new(position: Vec3, color: Vec4) -> (r: Vertex)
        ensures
            r == (Vertex { position, color }),
    {
        Vertex { position, color }
    }
}

pub struct RendererVertexColor {
    vertex_buffers: Table<Id, Vec<Vertex>>,
    index_buffers: Table<Id, Vec<u32>>,
    draw_parameters: Table<Id, DrawMethod>,
}

impl RendererVertexColor {
    pub closed spec fn vertices_spec(&self) -> Map<Id, Seq<Vertex>> {
        Map::new(
            |id: Id| self.vertex_buffers@.dom().contains(id),
            |id: Id| self.vertex_buffers@[id]@,
        )
    }

    pub closed spec fn indices_spec(&self) -> Map<Id, Seq<u32>> {
        Map::new(
            |id: Id| self.index_buffers@.dom().contains(id),
            |id: Id| self.index_buffers@[id]@,
        )
    }

    pub closed spec fn draw_parameters_spec(&self) -> Map<Id, DrawMethod> {
        self.draw_parameters@
    }

    /// Empty tables.
    pub fn new() -> (r: RendererVertexColor)
        ensures
            r.vertices_spec() == Map::<Id, Seq<Vertex>>::empty(),
            r.indices_spec() == Map::<Id, Seq<u32>>::empty(),
            r.draw_parameters_spec() == Map::<Id, DrawMethod>::empty(),
    {
        let r = RendererVertexColor {
            vertex_buffers: Table::new(),
            index_buffers: Table::new(),
            draw_parameters: Table::new(),
        };
        proof {
            assert(r.vertices_spec() =~= Map::<Id, Seq<Vertex>>::empty());
            assert(r.indices_spec() =~= Map::<Id, Seq<u32>>::empty());
        }
        r
    }

    /// Replaces the vertex buffer stored under `id`.
    pub fn set_vertices(&mut self, id: Id, vertices: Vec<Vertex>)
        ensures
            final(self).vertices_spec() == old(self).vertices_spec().insert(id, vertices@),
            final(self).indices_spec() == old(self).indices_spec(),
            final(self).draw_parameters_spec() == old(self).draw_parameters_spec(),
    {
        let ghost v = vertices@;
        self.vertex_buffers.insert(id, vertices);
        proof {
            assert(self.vertices_spec() =~= old(self).vertices_spec().insert(id, v));
            assert(self.indices_spec() =~= old(self).indices_spec());
        }
    }

    /// Replaces the index buffer stored under `id`.
    pub fn set_indices(&mut self, id: Id, indices: Vec<u32>)
        ensures
            final(self).indices_spec() == old(self).indices_spec().insert(id, indices@),
            final(self).vertices_spec() == old(self).vertices_spec(),
            final(self).draw_parameters_spec() == old(self).draw_parameters_spec(),
    {
        let ghost v = indices@;
        self.index_buffers.insert(id, indices);
        proof {
            assert(self.indices_spec() =~= old(self).indices_spec().insert(id, v));
            assert(self.vertices_spec() =~= old(self).vertices_spec());
        }
    }

    /// Replaces the draw parameters stored under `id`.
    pub fn set_draw_method(&mut self, id: Id, draw_method: DrawMethod)
        ensures
            final(self).draw_parameters_spec() == old(self).draw_parameters_spec().insert(
                id,
                draw_method,
            ),
            final(self).vertices_spec() == old(self).vertices_spec(),
            final(self).indices_spec() == old(self).indices_spec(),
    {
        self.draw_parameters.insert(id, draw_method);
        proof {
            assert(self.vertices_spec() =~= old(self).vertices_spec());
            assert(self.indices_spec() =~= old(self).indices_spec());
        }
    }

    /// Whether a vertex buffer is stored under `id`.
    pub fn has_vertices(&self, id: Id) -> (r: bool)
        ensures
            r == self.vertices_spec().dom().contains(id),
    {
        self.vertex_buffers.contains_key(&id)
    }

    /// Whether an index buffer is stored under `id`.
    pub fn has_indices(&self, id: Id) -> (r: bool)
        ensures
            r == self.indices_spec().dom().contains(id),
    {
        self.index_buffers.contains_key(&id)
    }

    /// The draw parameters stored under `id`, if any.
    pub fn get_draw_method(&self, id: Id) -> (r: Option<&DrawMethod>)
        ensures
            match r {
                Some(m) => self.draw_parameters_spec().dom().contains(id)
                    && *m == self.draw_parameters_spec()[id],
                None => !self.draw_parameters_spec().dom().contains(id),
            },
    {
        self.draw_parameters.get(&id)
    }

    /// The vertex buffer stored under `id`, if any.
    pub fn get_vertices(&self, id: Id) -> (r: Option<&Vec<Vertex>>)
        ensures
            match r {
                Some(v) => self.vertices_spec().dom().contains(id) && v@ == self.vertices_spec()[id],
                None => !self.vertices_spec().dom().contains(id),
            },
    {
        self.vertex_buffers.get(&id)
    }

    /// The index buffer stored under `id`, if any.
    pub fn get_indices(&self, id: Id) -> (r: Option<&Vec<u32>>)
        ensures
            match r {
                Some(v) => self.indices_spec().dom().contains(id) && v@ == self.indices_spec()[id],
                None => !self.indices_spec().dom().contains(id),
            },
    {
        self.index_buffers.get(&id)
    }
}

/// The draw call a vertex-color renderable resolves to against these
/// tables and uniforms: each required resource is looked up by the
/// component's id, and the first one missing names the error.
pub open spec fn vertex_color_draw_spec(
    renderer: RendererVertexColor,
    c: RenderableVertexColor,
    sync: SyncData,
) -> Result<DrawCall, DorpErr> {
    let ids = c.ids();
    if !renderer.vertices_spec().dom().contains(ids.vertex) {
        Err(DorpErr::MissingVertices)
    } else if !renderer.indices_spec().dom().contains(ids.index) {
        Err(DorpErr::MissingIndices)
    } else if !sync.mat4s_spec().dom().contains(ids.perspective) {
        Err(DorpErr::MissingMatrix)
    } else if !sync.mat4s_spec().dom().contains(ids.view) {
        Err(DorpErr::MissingMatrix)
    } else if !sync.mat4s_spec().dom().contains(ids.model) {
        Err(DorpErr::MissingMatrix)
    } else if !renderer.draw_parameters_spec().dom().contains(ids.draw_method) {
        Err(DorpErr::MissingDrawMethod)
    } else {
        Ok(
            DrawCall {
                kind: RendererType::VertexColor,
                vertex_id: ids.vertex,
                index_id: ids.index,
                draw_method: renderer.draw_parameters_spec()[ids.draw_method],
                perspective: sync.mat4s_spec()[ids.perspective],
                view: sync.mat4s_spec()[ids.view],
                model: sync.mat4s_spec()[ids.model],
                color: None,
                texture_id: None,
            },
        )
    }
}

impl RendererVertexColor {
    /// The ids under which vertex buffers are committed, each exactly once.
    pub fn vertex_ids(&self) -> (r: Vec<Id>)
        ensures
            forall|i: int|
                0 <= i < r@.len() ==> self.vertices_spec().dom().contains(#[trigger] r@[i]),
            forall|i: int, j: int| 0 <= i < j < r@.len() ==> r@[i] != r@[j],
            forall|id: Id| self.vertices_spec().dom().contains(id) ==> r@.contains(id),
    {
        let r = self.vertex_buffers.keys();
        proof {
            assert forall|id: Id| self.vertices_spec().dom().contains(id) implies r@.contains(
                id,
            ) by {
                lemma_lookup_some_index(self.vertex_buffers.kvs(), id);
                let i = choose|i: int|
                    0 <= i < self.vertex_buffers.kvs().len() && (#[trigger] self.vertex_buffers.kvs()[
                        i
                    ]).0 == id;
                assert(r@[i] == id);
            }
        }
        r
    }

    /// The ids under which index buffers are committed, each exactly once.
    pub fn index_ids(&self) -> (r: Vec<Id>)
        ensures
            forall|i: int|
                0 <= i < r@.len() ==> self.indices_spec().dom().contains(#[trigger] r@[i]),
            forall|i: int, j: int| 0 <= i < j < r@.len() ==> r@[i] != r@[j],
            forall|id: Id| self.indices_spec().dom().contains(id) ==> r@.contains(id),
    {
        let r = self.index_buffers.keys();
        proof {
            assert forall|id: Id| self.indices_spec().dom().contains(id) implies r@.contains(
                id,
            ) by {
                lemma_lookup_some_index(self.index_buffers.kvs(), id);
                let i = choose|i: int|
                    0 <= i < self.index_buffers.kvs().len() && (#[trigger] self.index_buffers.kvs()[
                        i
                    ]).0 == id;
                assert(r@[i] == id);
            }
        }
        r
    }

    /// Resolves `renderable`'s buffers and uniforms into one draw call.
    pub fn render(&self, renderable: &RenderableVertexColor, sync_data: &SyncData) -> (r: Result<
        DrawCall,
        DorpErr,
    >)
        ensures
            r == vertex_color_draw_spec(*self, *renderable, *sync_data),
    {
        let vertex_id = renderable.get_vertex_id();
        let index_id = renderable.get_index_id();
        if !self.has_vertices(vertex_id) {
            return Err(DorpErr::MissingVertices);
        }
        if !self.has_indices(index_id) {
            return Err(DorpErr::MissingIndices);
        }
        let perspective = match sync_data.get_matrix(renderable.get_perspective_id()) {
            Some(m) => *m,
            None => {
                return Err(DorpErr::MissingMatrix);
            },
        };
        let view = match sync_data.get_matrix(renderable.get_view_id()) {
            Some(m) => *m,
            None => {
                return Err(DorpErr::MissingMatrix);
            },
        };
        let model = match sync_data.get_matrix(renderable.get_model_id()) {
            Some(m) => *m,
            None => {
                return Err(DorpErr::MissingMatrix);
            },
        };
        let draw_method = match self.get_draw_method(renderable.get_draw_method_id()) {
            Some(m) => *m,
            None => {
                return Err(DorpErr::MissingDrawMethod);
            },
        };
        Ok(
            DrawCall {
                kind: RendererType::VertexColor,
                vertex_id,
                index_id,
                draw_method,
                perspective,
                view,
                model,
                color: None,
                texture_id: None,
            },
        )
    }
}

} // verus!
