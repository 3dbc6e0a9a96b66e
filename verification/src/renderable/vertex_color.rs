//! The vertex-color renderable component: six stable resource ids and a
//! write buffer of pending property updates, flushed to the vertex-color
//! renderer tables and the synchronized uniform store at most once per
//! render pass.

use vstd::prelude::*;

use crate::graphics::draw_method::DrawMethod;
use crate::graphics::renderers::Renderers;
use crate::graphics::sync_data::SyncData;
use crate::graphics::vertex_color::Vertex;
use crate::ids::{Id, IdManager, IdSize, IdType};
use crate::math::Mat4;
use crate::renderable::{copy_vec, inv_of, mat_of};
use crate::table::opt_insert;

verus! {

/// A failed vertex-color flush, naming the renderer concerned.
#[derive(Copy, Clone, Debug, PartialEq, Eq, Structural)]
pub enum RenderableVertexColorErr {
    RendererVertexColor,
}

/// The stable resource ids a vertex-color renderable owns.
pub struct VertexColorIds {
    pub vertex: Id,
    pub index: Id,
    pub draw_method: Id,
    pub perspective: Id,
    pub view: Id,
    pub model: Id,
}

/// The abstract pending state of a vertex-color renderable.
pub struct StagedVertexColor {
    pub vertices: Option<Seq<Vertex>>,
    pub indices: Option<Seq<u32>>,
    pub draw_method: Option<DrawMethod>,
    pub perspective: Option<(Mat4, Mat4)>,
    pub view: Option<(Mat4, Mat4)>,
    pub model: Option<(Mat4, Mat4)>,
    pub dirty: bool,
}

/// No pending updates and a clear dirty bit.
pub open spec fn staged_vertex_color_empty() -> StagedVertexColor {
    StagedVertexColor {
        vertices: None,
        indices: None,
        draw_method: None,
        perspective: None,
        view: None,
        model: None,
        dirty: false,
    }
}

impl StagedVertexColor {
    /// The dirty bit is set exactly when some property update is pending.
    pub open spec fn consistent(self) -> bool {
        self.dirty <==> (self.vertices is Some || self.indices is Some || self.draw_method is Some
            || self.perspective is Some || self.view is Some || self.model is Some)
    }
}


/// The effect of one flush on a vertex-color component, the renderer
/// tables and the uniform store: with a clear dirty bit nothing changes;
/// with a set dirty bit every pending property is committed under the
/// component's ids and the pending buffer is cleared.
pub open spec fn vertex_color_flush_effect(
    pre: RenderableVertexColor,
    post: RenderableVertexColor,
    old_renderers: Renderers,
    new_renderers: Renderers,
    old_sync: SyncData,
    new_sync: SyncData,
) -> bool {
    &&& post.ids() == pre.ids()
    &&& if !pre.staged().dirty {
        &&& post.staged() == pre.staged()
        &&& new_renderers == old_renderers
        &&& new_sync == old_sync
    } else {
        &&& post.staged() == staged_vertex_color_empty()
        &&& new_renderers.vertex_color_spec().vertices_spec() == opt_insert(
            old_renderers.vertex_color_spec().vertices_spec(),
            pre.ids().vertex,
            pre.staged().vertices,
        )
        &&& new_renderers.vertex_color_spec().indices_spec() == opt_insert(
            old_renderers.vertex_color_spec().indices_spec(),
            pre.ids().index,
            pre.staged().indices,
        )
        &&& new_renderers.vertex_color_spec().draw_parameters_spec() == opt_insert(
            old_renderers.vertex_color_spec().draw_parameters_spec(),
            pre.ids().draw_method,
            pre.staged().draw_method,
        )
        &&& new_renderers.solid_color_spec() == old_renderers.solid_color_spec()
        &&& new_renderers.texture2d_spec() == old_renderers.texture2d_spec()
        &&& new_sync.mat4s_spec() == opt_insert(
            opt_insert(
                opt_insert(
                    old_sync.mat4s_spec(),
                    pre.ids().perspective,
                    mat_of(pre.staged().perspective),
                ),
                pre.ids().view,
                mat_of(pre.staged().view),
            ),
            pre.ids().model,
            mat_of(pre.staged().model),
        )
        &&& new_sync.inverses_spec() == opt_insert(
            opt_insert(
                opt_insert(
                    old_sync.inverses_spec(),
                    pre.ids().perspective,
                    inv_of(pre.staged().perspective),
                ),
                pre.ids().view,
                inv_of(pre.staged().view),
            ),
            pre.ids().model,
            inv_of(pre.staged().model),
        )
        &&& new_sync.vec4s_spec() == old_sync.vec4s_spec()
    }
}

struct Changes {
    vertices: Option<Vec<Vertex>>,
    indices: Option<Vec<u32>>,
    draw_method: Option<DrawMethod>,
    perspective: Option<(Mat4, Mat4)>,
    view: Option<(Mat4, Mat4)>,
    model: Option<(Mat4, Mat4)>,
    dirty_render: bool,
}

impl Changes {
    spec fn staged(&self) -> StagedVertexColor {
        StagedVertexColor {
            vertices: match self.vertices {
                Some(v) => Some(v@),
                None => None,
            },
            indices: match self.indices {
                Some(v) => Some(v@),
                None => None,
            },
            draw_method: self.draw_method,
            perspective: self.perspective,
            view: self.view,
            model: self.model,
            dirty: self.dirty_render,
        }
    }

    fn new() -> (r: Changes)
        ensures
            r.staged() == staged_vertex_color_empty(),
    {
        Changes {
            vertices: None,
            indices: None,
            draw_method: None,
            perspective: None,
            view: None,
            model: None,
            dirty_render: false,
        }
    }

    fn new_from(other: &Changes) -> (r: Changes)
        ensures
            r.staged() == other.staged(),
    {
        Changes {
            vertices: match &other.vertices {
                Some(v) => Some(copy_vec(v)),
                None => None,
            },
            indices: match &other.indices {
                Some(v) => Some(copy_vec(v)),
                None => None,
            },
            draw_method: other.draw_method,
            perspective: other.perspective,
            view: other.view,
            model: other.model,
            dirty_render: other.dirty_render,
        }
    }
}

/// A vertex-color renderable: stable resource ids, allocated once, and the
/// pending-changes buffer.
pub struct RenderableVertexColor {
    vertex_id: Id,
    index_id: Id,
    draw_method_id: Id,
    perspective_id: Id,
    view_id: Id,
    model_id: Id,
    changes: Changes,
}

impl RenderableVertexColor {
    /// The component's stable resource ids.
    pub closed spec fn ids(&self) -> VertexColorIds {
        VertexColorIds {
            vertex: self.vertex_id,
            index: self.index_id,
            draw_method: self.draw_method_id,
            perspective: self.perspective_id,
            view: self.view_id,
            model: self.model_id,
        }
    }

    /// The component's pending updates and dirty bit.
    pub closed spec fn staged(&self) -> StagedVertexColor {
        self.changes.staged()
    }

    /// A fresh component: six ids allocated from the manager in order
    /// (vertex, index, draw-method, then three matrices), and an empty
    /// pending buffer.
    pub fn new(manager: &mut IdManager) -> (r: RenderableVertexColor)
        requires
            old(manager).counter_of(IdType::Vertex) < IdSize::MAX,
            old(manager).counter_of(IdType::Index) < IdSize::MAX,
            old(manager).counter_of(IdType::DrawMethod) < IdSize::MAX,
            old(manager).counter_of(IdType::Matrix) + 2 < IdSize::MAX,
        ensures
            r.staged() == staged_vertex_color_empty(),
            r.ids().vertex.spec_value() == old(manager).counter_of(IdType::Vertex),
            r.ids().index.spec_value() == old(manager).counter_of(IdType::Index),
            r.ids().draw_method.spec_value() == old(manager).counter_of(IdType::DrawMethod),
            r.ids().perspective.spec_value() == old(manager).counter_of(IdType::Matrix),
            r.ids().view.spec_value() == old(manager).counter_of(IdType::Matrix) + 1,
            r.ids().model.spec_value() == old(manager).counter_of(IdType::Matrix) + 2,
            final(manager).counter_of(IdType::Vertex) == old(manager).counter_of(IdType::Vertex)
                + 1,
            final(manager).counter_of(IdType::Index) == old(manager).counter_of(IdType::Index) + 1,
            final(manager).counter_of(IdType::DrawMethod) == old(manager).counter_of(
                IdType::DrawMethod,
            ) + 1,
            final(manager).counter_of(IdType::Matrix) == old(manager).counter_of(IdType::Matrix)
                + 3,
            forall|t: IdType|
                t != IdType::Vertex && t != IdType::Index && t != IdType::DrawMethod && t
                    != IdType::Matrix ==> final(manager).counter_of(t) == old(manager).counter_of(
                    t,
                ),
    {
        RenderableVertexColor {
            vertex_id: Id::new(manager, IdType::Vertex),
            index_id: Id::new(manager, IdType::Index),
            draw_method_id: Id::new(manager, IdType::DrawMethod),
            perspective_id: Id::new(manager, IdType::Matrix),
            view_id: Id::new(manager, IdType::Matrix),
            model_id: Id::new(manager, IdType::Matrix),
            changes: Changes::new(),
        }
    }

    /// A component sharing `other`'s ids, with a copy of its pending
    /// buffer.
    pub fn new_from(other: &RenderableVertexColor) -> (r: RenderableVertexColor)
        ensures
            r.ids() == other.ids(),
            r.staged() == other.staged(),
    {
        RenderableVertexColor {
            vertex_id: other.vertex_id,
            index_id: other.index_id,
            draw_method_id: other.draw_method_id,
            perspective_id: other.perspective_id,
            view_id: other.view_id,
            model_id: other.model_id,
            changes: Changes::new_from(&other.changes),
        }
    }

    /// Commits every pending property to its renderer table or to the
    /// uniform store, keyed by this component's ids, then clears the
    /// buffer; with a clear dirty bit it changes nothing.
    pub fn render(&mut self, sync_data: &mut SyncData, renderers: &mut Renderers) -> (r: Result<
        (),
        RenderableVertexColorErr,
    >)
        ensures
            r is Ok,
            old(self).staged().consistent() ==> final(self).staged().consistent(),
            vertex_color_flush_effect(
                *old(self),
                *final(self),
                *old(renderers),
                *final(renderers),
                *old(sync_data),
                *final(sync_data),
            ),
    {
        if self.changes.dirty_render {
            match &self.changes.vertices {
                Some(vertices) => {
                    renderers.get_mut_vertex_color().set_vertices(
                        self.vertex_id,
                        copy_vec(vertices),
                    );
                },
                None => {},
            }
            match &self.changes.indices {
                Some(indices) => {
                    renderers.get_mut_vertex_color().set_indices(self.index_id, copy_vec(indices));
                },
                None => {},
            }
            match self.changes.draw_method {
                Some(draw_method) => {
                    renderers.get_mut_vertex_color().set_draw_method(
                        self.draw_method_id,
                        draw_method,
                    );
                },
                None => {},
            }
            match self.changes.perspective {
                Some(perspective) => {
                    sync_data.set_matrix(self.perspective_id, perspective.0, perspective.1);
                },
                None => {},
            }
            match self.changes.view {
                Some(view) => {
                    sync_data.set_matrix(self.view_id, view.0, view.1);
                },
                None => {},
            }
            match self.changes.model {
                Some(model) => {
                    sync_data.set_matrix(self.model_id, model.0, model.1);
                },
                None => {},
            }
            self.changes.vertices = None;
            self.changes.indices = None;
            self.changes.draw_method = None;
            self.changes.perspective = None;
            self.changes.view = None;
            self.changes.model = None;
            self.changes.dirty_render = false;
        }
        Ok(())
    }

    /// Stages a replacement vertex buffer.
    pub fn set_vertices(&mut self, vertices: Vec<Vertex>)
        ensures
            final(self).ids() == old(self).ids(),
            final(self).staged() == (StagedVertexColor {
                vertices: Some(vertices@),
                dirty: true,
                ..old(self).staged()
            }),
    {
        self.changes.vertices = Some(vertices);
        self.changes.dirty_render = true;
    }

    /// Stages a replacement index buffer.
    pub fn set_indices(&mut self, indices: Vec<u32>)
        ensures
            final(self).ids() == old(self).ids(),
            final(self).staged() == (StagedVertexColor {
                indices: Some(indices@),
                dirty: true,
                ..old(self).staged()
            }),
    {
        self.changes.indices = Some(indices);
        self.changes.dirty_render = true;
    }

    /// Stages a replacement draw method.
    pub fn set_draw_method(&mut self, draw_method: DrawMethod)
        ensures
            final(self).ids() == old(self).ids(),
            final(self).staged() == (StagedVertexColor {
                draw_method: Some(draw_method),
                dirty: true,
                ..old(self).staged()
            }),
    {
        self.changes.draw_method = Some(draw_method);
        self.changes.dirty_render = true;
    }

    /// Stages a replacement perspective matrix together with its inverse.
    pub fn set_perspective(&mut self, matrix: Mat4, inverse: Mat4)
        ensures
            final(self).ids() == old(self).ids(),
            final(self).staged() == (StagedVertexColor {
                perspective: Some((matrix, inverse)),
                dirty: true,
                ..old(self).staged()
            }),
    {
        self.changes.perspective = Some((matrix, inverse));
        self.changes.dirty_render = true;
    }

    /// Stages a replacement view matrix together with its inverse.
    pub fn set_view(&mut self, matrix: Mat4, inverse: Mat4)
        ensures
            final(self).ids() == old(self).ids(),
            final(self).staged() == (StagedVertexColor {
                view: Some((matrix, inverse)),
                dirty: true,
                ..old(self).staged()
            }),
    {
        self.changes.view = Some((matrix, inverse));
        self.changes.dirty_render = true;
    }

    /// Stages a replacement model matrix together with its inverse.
    pub fn set_model(&mut self, matrix: Mat4, inverse: Mat4)
        ensures
            final(self).ids() == old(self).ids(),
            final(self).staged() == (StagedVertexColor {
                model: Some((matrix, inverse)),
                dirty: true,
                ..old(self).staged()
            }),
    {
        self.changes.model = Some((matrix, inverse));
        self.changes.dirty_render = true;
    }

    /// Repoints the vertex buffer id.
    pub fn set_vertex_id(&mut self, id: Id)
        ensures
            final(self).ids() == (VertexColorIds { vertex: id, ..old(self).ids() }),
            final(self).staged() == old(self).staged(),
    {
        self.vertex_id = id;
    }

    /// Repoints the index buffer id.
    pub fn set_index_id(&mut self, id: Id)
        ensures
            final(self).ids() == (VertexColorIds { index: id, ..old(self).ids() }),
            final(self).staged() == old(self).staged(),
    {
        self.index_id = id;
    }

    /// Repoints the draw-method id.
    pub fn set_draw_method_id(&mut self, id: Id)
        ensures
            final(self).ids() == (VertexColorIds { draw_method: id, ..old(self).ids() }),
            final(self).staged() == old(self).staged(),
    {
        self.draw_method_id = id;
    }

    /// Repoints the perspective matrix id.
    pub fn set_perspective_id(&mut self, id: Id)
        ensures
            final(self).ids() == (VertexColorIds { perspective: id, ..old(self).ids() }),
            final(self).staged() == old(self).staged(),
    {
        self.perspective_id = id;
    }

    /// Repoints the view matrix id.
    pub fn set_view_id(&mut self, id: Id)
        ensures
            final(self).ids() == (VertexColorIds { view: id, ..old(self).ids() }),
            final(self).staged() == old(self).staged(),
    {
        self.view_id = id;
    }

    /// Repoints the model matrix id.
    pub fn set_model_id(&mut self, id: Id)
        ensures
            final(self).ids() == (VertexColorIds { model: id, ..old(self).ids() }),
            final(self).staged() == old(self).staged(),
    {
        self.model_id = id;
    }

    /// The vertex buffer id.
    pub fn get_vertex_id(&self) -> (r: Id)
        ensures
            r == self.ids().vertex,
    {
        self.vertex_id
    }

    /// The index buffer id.
    pub fn get_index_id(&self) -> (r: Id)
        ensures
            r == self.ids().index,
    {
        self.index_id
    }

    /// The draw-method id.
    pub fn get_draw_method_id(&self) -> (r: Id)
        ensures
            r == self.ids().draw_method,
    {
        self.draw_method_id
    }

    /// The perspective matrix id.
    pub fn get_perspective_id(&self) -> (r: Id)
        ensures
            r == self.ids().perspective,
    {
        self.perspective_id
    }

    /// The view matrix id.
    pub fn get_view_id(&self) -> (r: Id)
        ensures
            r == self.ids().view,
    {
        self.view_id
    }

    /// The model matrix id.
    pub fn get_model_id(&self) -> (r: Id)
        ensures
            r == self.ids().model,
    {
        self.model_id
    }
}

} // verus!
