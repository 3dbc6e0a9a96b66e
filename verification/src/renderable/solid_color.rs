//! The solid-color renderable component: seven stable resource ids and a
//! write buffer of pending property updates, flushed to the solid-color
//! renderer tables and the synchronized uniform store at most once per
//! render pass.

use vstd::prelude::*;

use crate::graphics::draw_method::DrawMethod;
use crate::graphics::renderers::Renderers;
use crate::graphics::solid_color::Vertex;
use crate::graphics::sync_data::SyncData;
use crate::ids::{Id, IdManager, IdSize, IdType};
use crate::math::{Mat4, Vec4};
use crate::renderable::{copy_vec, inv_of, mat_of};
use crate::table::opt_insert;

verus! {

/// A failed solid-color flush, naming the renderer concerned.
#[derive(Copy, Clone, Debug, PartialEq, Eq, Structural)]
pub enum RenderableSolidColorErr {
    RendererSolidColor,
}

/// The stable resource ids a solid-color renderable owns.
pub struct SolidColorIds {
    pub vertex: Id,
    pub index: Id,
    pub draw_method: Id,
    pub perspective: Id,
    pub view: Id,
    pub model: Id,
    pub color: Id,
}

/// The abstract pending state of a solid-color renderable: one optional
/// update per mutable property, plus the dirty bit.
pub struct StagedSolid {
    pub vertices: Option<Seq<Vertex>>,
    pub indices: Option<Seq<u32>>,
    pub draw_method: Option<DrawMethod>,
    pub perspective: Option<(Mat4, Mat4)>,
    pub view: Option<(Mat4, Mat4)>,
    pub model: Option<(Mat4, Mat4)>,
    pub color: Option<Vec4>,
    pub dirty: bool,
}

/// No pending updates and a clear dirty bit.
pub open spec fn staged_solid_empty() -> StagedSolid {
    StagedSolid {
        vertices: None,
        indices: None,
        draw_method: None,
        perspective: None,
        view: None,
        model: None,
        color: None,
        dirty: false,
    }
}

impl StagedSolid {
    /// The dirty bit is set exactly when some property update is pending.
    pub open spec fn consistent(self) -> bool {
        self.dirty <==> (self.vertices is Some || self.indices is Some || self.draw_method is Some
            || self.perspective is Some || self.view is Some || self.model is Some
            || self.color is Some)
    }
}

/// One staging call on a solid-color renderable.
pub enum SolidColorOp {
    Vertices(Seq<Vertex>),
    Indices(Seq<u32>),
    DrawMethodOp(DrawMethod),
    Perspective(Mat4, Mat4),
    View(Mat4, Mat4),
    Model(Mat4, Mat4),
    Color(Vec4),
}

/// What one staging call does to the pending state: it overwrites its own
/// property's pending update and sets the dirty bit.
pub open spec fn apply_op(c: StagedSolid, op: SolidColorOp) -> StagedSolid {
    match op {
        SolidColorOp::Vertices(v) => StagedSolid { vertices: Some(v), dirty: true, ..c },
        SolidColorOp::Indices(v) => StagedSolid { indices: Some(v), dirty: true, ..c },
        SolidColorOp::DrawMethodOp(v) => StagedSolid { draw_method: Some(v), dirty: true, ..c },
        SolidColorOp::Perspective(m, inv) => StagedSolid {
            perspective: Some((m, inv)),
            dirty: true,
            ..c
        },
        SolidColorOp::View(m, inv) => StagedSolid { view: Some((m, inv)), dirty: true, ..c },
        SolidColorOp::Model(m, inv) => StagedSolid { model: Some((m, inv)), dirty: true, ..c },
        SolidColorOp::Color(v) => StagedSolid { color: Some(v), dirty: true, ..c },
    }
}

/// The pending state after a sequence of staging calls, applied in order.
pub open spec fn apply_ops(c: StagedSolid, ops: Seq<SolidColorOp>) -> StagedSolid
    decreases ops.len(),
{
    if ops.len() == 0 {
        c
    } else {
        apply_ops(apply_op(c, ops[0]), ops.drop_first())
    }
}

/// The latest vertex buffer staged by `ops`, starting from `c0`.
pub open spec fn latest_vertices(c0: Option<Seq<Vertex>>, ops: Seq<SolidColorOp>) -> Option<
    Seq<Vertex>,
>
    decreases ops.len(),
{
    if ops.len() == 0 {
        c0
    } else {
        latest_vertices(
            match ops[0] {
                SolidColorOp::Vertices(v) => Some(v),
                _ => c0,
            },
            ops.drop_first(),
        )
    }
}

/// The latest color staged by `ops`, starting from `c0`.
pub open spec fn latest_color(c0: Option<Vec4>, ops: Seq<SolidColorOp>) -> Option<Vec4>
    decreases ops.len(),
{
    if ops.len() == 0 {
        c0
    } else {
        latest_color(
            match ops[0] {
                SolidColorOp::Color(v) => Some(v),
                _ => c0,
            },
            ops.drop_first(),
        )
    }
}


/// The latest index buffer staged by `ops`, starting from `c0`.
pub open spec fn latest_indices(c0: Option<Seq<u32>>, ops: Seq<SolidColorOp>) -> Option<Seq<u32>>
    decreases ops.len(),
{
    if ops.len() == 0 {
        c0
    } else {
        latest_indices(
            match ops[0] {
                SolidColorOp::Indices(v) => Some(v),
                _ => c0,
            },
            ops.drop_first(),
        )
    }
}

/// The latest draw method staged by `ops`, starting from `c0`.
pub open spec fn latest_draw_method(c0: Option<DrawMethod>, ops: Seq<SolidColorOp>) -> Option<
    DrawMethod,
>
    decreases ops.len(),
{
    if ops.len() == 0 {
        c0
    } else {
        latest_draw_method(
            match ops[0] {
                SolidColorOp::DrawMethodOp(v) => Some(v),
                _ => c0,
            },
            ops.drop_first(),
        )
    }
}

/// The latest perspective pair staged by `ops`, starting from `c0`.
pub open spec fn latest_perspective(c0: Option<(Mat4, Mat4)>, ops: Seq<SolidColorOp>) -> Option<
    (Mat4, Mat4),
>
    decreases ops.len(),
{
    if ops.len() == 0 {
        c0
    } else {
        latest_perspective(
            match ops[0] {
                SolidColorOp::Perspective(m, inv) => Some((m, inv)),
                _ => c0,
            },
            ops.drop_first(),
        )
    }
}

/// The latest view pair staged by `ops`, starting from `c0`.
pub open spec fn latest_view(c0: Option<(Mat4, Mat4)>, ops: Seq<SolidColorOp>) -> Option<
    (Mat4, Mat4),
>
    decreases ops.len(),
{
    if ops.len() == 0 {
        c0
    } else {
        latest_view(
            match ops[0] {
                SolidColorOp::View(m, inv) => Some((m, inv)),
                _ => c0,
            },
            ops.drop_first(),
        )
    }
}

/// The latest model pair staged by `ops`, starting from `c0`.
pub open spec fn latest_model(c0: Option<(Mat4, Mat4)>, ops: Seq<SolidColorOp>) -> Option<
    (Mat4, Mat4),
>
    decreases ops.len(),
{
    if ops.len() == 0 {
        c0
    } else {
        latest_model(
            match ops[0] {
                SolidColorOp::Model(m, inv) => Some((m, inv)),
                _ => c0,
            },
            ops.drop_first(),
        )
    }
}

/// Staging calls interleave without interfering: after any sequence of
/// calls, each property holds exactly the latest value staged for it, and
/// the record is dirty as soon as one call was made. One `render` then
/// pushes each of these latest values once and clears the buffer, and a
/// second `render` without further staging is a no-op.
pub proof fn lemma_latest_value_wins(c: StagedSolid, ops: Seq<SolidColorOp>)
    ensures
        apply_ops(c, ops).vertices == latest_vertices(c.vertices, ops),
        apply_ops(c, ops).indices == latest_indices(c.indices, ops),
        apply_ops(c, ops).draw_method == latest_draw_method(c.draw_method, ops),
        apply_ops(c, ops).perspective == latest_perspective(c.perspective, ops),
        apply_ops(c, ops).view == latest_view(c.view, ops),
        apply_ops(c, ops).model == latest_model(c.model, ops),
        apply_ops(c, ops).color == latest_color(c.color, ops),
        apply_ops(c, ops).dirty == (c.dirty || ops.len() > 0),
    decreases ops.len(),
{
    if ops.len() > 0 {
        lemma_latest_value_wins(apply_op(c, ops[0]), ops.drop_first());
    }
}

/// The latest staged vertex buffer is the payload of the last
/// vertex-staging call, where there is one.
pub proof fn lemma_latest_vertices_is_last(
    c0: Option<Seq<Vertex>>,
    ops: Seq<SolidColorOp>,
    i: int,
)
    requires
        0 <= i < ops.len(),
        ops[i] is Vertices,
        forall|j: int| i < j < ops.len() ==> !((#[trigger] ops[j]) is Vertices),
    ensures
        latest_vertices(c0, ops) == Some(ops[i]->Vertices_0),
    decreases ops.len(),
{
    if i == 0 {
        assert forall|j: int|
            0 < j < ops.len() implies !((#[trigger] ops.drop_first()[j - 1]) is Vertices) by {
            assert(ops.drop_first()[j - 1] == ops[j]);
        }
        lemma_latest_no_vertices(Some(ops[0]->Vertices_0), ops.drop_first());
    } else {
        assert(ops.drop_first()[i - 1] == ops[i]);
        assert forall|j: int|
            i - 1 < j < ops.drop_first().len() implies !((#[trigger] ops.drop_first()[j])
            is Vertices) by {
            assert(ops.drop_first()[j] == ops[j + 1]);
        }
        lemma_latest_vertices_is_last(
            match ops[0] {
                SolidColorOp::Vertices(v) => Some(v),
                _ => c0,
            },
            ops.drop_first(),
            i - 1,
        );
    }
}

proof fn lemma_latest_no_vertices(c0: Option<Seq<Vertex>>, ops: Seq<SolidColorOp>)
    requires
        forall|j: int| 0 <= j < ops.len() ==> !((#[trigger] ops[j]) is Vertices),
    ensures
        latest_vertices(c0, ops) == c0,
    decreases ops.len(),
{
    if ops.len() > 0 {
        assert forall|j: int|
            0 <= j < ops.drop_first().len() implies !((#[trigger] ops.drop_first()[j])
            is Vertices) by {
            assert(ops.drop_first()[j] == ops[j + 1]);
        }
        lemma_latest_no_vertices(c0, ops.drop_first());
    }
}


/// The effect of one flush on a solid-color component, the renderer tables
/// and the uniform store: with a clear dirty bit nothing changes; with a
/// set dirty bit every pending property is committed under the component's
/// ids and the pending buffer is cleared.
pub open spec fn solid_flush_effect(
    pre: RenderableSolidColor,
    post: RenderableSolidColor,
    old_renderers: Renderers,
    new_renderers: Renderers,
    old_sync: SyncData,
    new_sync: SyncData,
) -> bool {
    &&& post.ids() == pre.ids()
    &&& if !pre.staged().dirty {
        &&& post.staged() == pre.staged()
        &&& new_renderers == old_renderers
        &&& new_sync == old_sync
    } else {
        &&& post.staged() == staged_solid_empty()
        &&& new_renderers.solid_color_spec().vertices_spec() == opt_insert(
            old_renderers.solid_color_spec().vertices_spec(),
            pre.ids().vertex,
            pre.staged().vertices,
        )
        &&& new_renderers.solid_color_spec().indices_spec() == opt_insert(
            old_renderers.solid_color_spec().indices_spec(),
            pre.ids().index,
            pre.staged().indices,
        )
        &&& new_renderers.solid_color_spec().draw_parameters_spec() == opt_insert(
            old_renderers.solid_color_spec().draw_parameters_spec(),
            pre.ids().draw_method,
            pre.staged().draw_method,
        )
        &&& new_renderers.vertex_color_spec() == old_renderers.vertex_color_spec()
        &&& new_renderers.texture2d_spec() == old_renderers.texture2d_spec()
        &&& new_sync.mat4s_spec() == opt_insert(
            opt_insert(
                opt_insert(
                    old_sync.mat4s_spec(),
                    pre.ids().perspective,
                    mat_of(pre.staged().perspective),
                ),
                pre.ids().view,
                mat_of(pre.staged().view),
            ),
            pre.ids().model,
            mat_of(pre.staged().model),
        )
        &&& new_sync.inverses_spec() == opt_insert(
            opt_insert(
                opt_insert(
                    old_sync.inverses_spec(),
                    pre.ids().perspective,
                    inv_of(pre.staged().perspective),
                ),
                pre.ids().view,
                inv_of(pre.staged().view),
            ),
            pre.ids().model,
            inv_of(pre.staged().model),
        )
        &&& new_sync.vec4s_spec() == opt_insert(
            old_sync.vec4s_spec(),
            pre.ids().color,
            pre.staged().color,
        )
    }
}

struct Changes {
    vertices: Option<Vec<Vertex>>,
    indices: Option<Vec<u32>>,
    draw_method: Option<DrawMethod>,
    perspective: Option<(Mat4, Mat4)>,
    view: Option<(Mat4, Mat4)>,
    model: Option<(Mat4, Mat4)>,
    color: Option<Vec4>,
    dirty_render: bool,
}

impl Changes {
    spec fn staged(&self) -> StagedSolid {
        StagedSolid {
            vertices: match self.vertices {
                Some(v) => Some(v@),
                None => None,
            },
            indices: match self.indices {
                Some(v) => Some(v@),
                None => None,
            },
            draw_method: self.draw_method,
            perspective: self.perspective,
            view: self.view,
            model: self.model,
            color: self.color,
            dirty: self.dirty_render,
        }
    }

    fn new() -> (r: Changes)
        ensures
            r.staged() == staged_solid_empty(),
    {
        Changes {
            vertices: None,
            indices: None,
            draw_method: None,
            perspective: None,
            view: None,
            model: None,
            color: None,
            dirty_render: false,
        }
    }

    fn new_from(other: &Changes) -> (r: Changes)
        ensures
            r.staged() == other.staged(),
    {
        Changes {
            vertices: match &other.vertices {
                Some(v) => Some(copy_vec(v)),
                None => None,
            },
            indices: match &other.indices {
                Some(v) => Some(copy_vec(v)),
                None => None,
            },
            draw_method: other.draw_method,
            perspective: other.perspective,
            view: other.view,
            model: other.model,
            color: other.color,
            dirty_render: other.dirty_render,
        }
    }
}

/// A solid-color renderable: stable resource ids, allocated once, and the
/// pending-changes buffer.
pub struct RenderableSolidColor {
    vertex_id: Id,
    index_id: Id,
    draw_method_id: Id,
    perspective_id: Id,
    view_id: Id,
    model_id: Id,
    color_id: Id,
    changes: Changes,
}

impl RenderableSolidColor {
    /// The component's stable resource ids.
    pub closed spec fn ids(&self) -> SolidColorIds {
        SolidColorIds {
            vertex: self.vertex_id,
            index: self.index_id,
            draw_method: self.draw_method_id,
            perspective: self.perspective_id,
            view: self.view_id,
            model: self.model_id,
            color: self.color_id,
        }
    }

    /// The component's pending updates and dirty bit.
    pub closed spec fn staged(&self) -> StagedSolid {
        self.changes.staged()
    }

    /// A fresh component: seven ids allocated from the manager in order
    /// (vertex, index, draw-method, then three matrices, then color), and
    /// an empty pending buffer.
    pub fn new(manager: &mut IdManager) -> (r: RenderableSolidColor)
        requires
            old(manager).counter_of(IdType::Vertex) < IdSize::MAX,
            old(manager).counter_of(IdType::Index) < IdSize::MAX,
            old(manager).counter_of(IdType::DrawMethod) < IdSize::MAX,
            old(manager).counter_of(IdType::Matrix) + 2 < IdSize::MAX,
            old(manager).counter_of(IdType::Color) < IdSize::MAX,
        ensures
            r.staged() == staged_solid_empty(),
            r.ids().vertex.spec_value() == old(manager).counter_of(IdType::Vertex),
            r.ids().index.spec_value() == old(manager).counter_of(IdType::Index),
            r.ids().draw_method.spec_value() == old(manager).counter_of(IdType::DrawMethod),
            r.ids().perspective.spec_value() == old(manager).counter_of(IdType::Matrix),
            r.ids().view.spec_value() == old(manager).counter_of(IdType::Matrix) + 1,
            r.ids().model.spec_value() == old(manager).counter_of(IdType::Matrix) + 2,
            r.ids().color.spec_value() == old(manager).counter_of(IdType::Color),
            final(manager).counter_of(IdType::Vertex) == old(manager).counter_of(IdType::Vertex)
                + 1,
            final(manager).counter_of(IdType::Index) == old(manager).counter_of(IdType::Index) + 1,
            final(manager).counter_of(IdType::DrawMethod) == old(manager).counter_of(
                IdType::DrawMethod,
            ) + 1,
            final(manager).counter_of(IdType::Matrix) == old(manager).counter_of(IdType::Matrix)
                + 3,
            final(manager).counter_of(IdType::Color) == old(manager).counter_of(IdType::Color) + 1,
            forall|t: IdType|
                t != IdType::Vertex && t != IdType::Index && t != IdType::DrawMethod && t
                    != IdType::Matrix && t != IdType::Color ==> final(manager).counter_of(t) == old(manager).counter_of(t),
    {
        RenderableSolidColor {
            vertex_id: Id::new(manager, IdType::Vertex),
            index_id: Id::new(manager, IdType::Index),
            draw_method_id: Id::new(manager, IdType::DrawMethod),
            perspective_id: Id::new(manager, IdType::Matrix),
            view_id: Id::new(manager, IdType::Matrix),
            model_id: Id::new(manager, IdType::Matrix),
            color_id: Id::new(manager, IdType::Color),
            changes: Changes::new(),
        }
    }

    /// A component sharing `other`'s ids, with a copy of its pending
    /// buffer.
    pub fn new_from(other: &RenderableSolidColor) -> (r: RenderableSolidColor)
        ensures
            r.ids() == other.ids(),
            r.staged() == other.staged(),
    {
        RenderableSolidColor {
            vertex_id: other.vertex_id,
            index_id: other.index_id,
            draw_method_id: other.draw_method_id,
            perspective_id: other.perspective_id,
            view_id: other.view_id,
            model_id: other.model_id,
            color_id: other.color_id,
            changes: Changes::new_from(&other.changes),
        }
    }

    /// Commits every pending property to its renderer table or to the
    /// uniform store, keyed by this component's ids, then clears the
    /// buffer; with a clear dirty bit it changes nothing. Committing the
    /// same pending buffer twice is therefore a no-op the second time.
    pub fn render(&mut self, sync_data: &mut SyncData, renderers: &mut Renderers) -> (r: Result<
        (),
        RenderableSolidColorErr,
    >)
        ensures
            r is Ok,
            old(self).staged().consistent() ==> final(self).staged().consistent(),
            solid_flush_effect(
                *old(self),
                *final(self),
                *old(renderers),
                *final(renderers),
                *old(sync_data),
                *final(sync_data),
            ),
    {
        if self.changes.dirty_render {
            match &self.changes.vertices {
                Some(vertices) => {
                    renderers.get_mut_solid_color().set_vertices(self.vertex_id, copy_vec(vertices));
                },
                None => {},
            }
            match &self.changes.indices {
                Some(indices) => {
                    renderers.get_mut_solid_color().set_indices(self.index_id, copy_vec(indices));
                },
                None => {},
            }
            match self.changes.draw_method {
                Some(draw_method) => {
                    renderers.get_mut_solid_color().set_draw_method(
                        self.draw_method_id,
                        draw_method,
                    );
                },
                None => {},
            }
            match self.changes.perspective {
                Some(perspective) => {
                    sync_data.set_matrix(self.perspective_id, perspective.0, perspective.1);
                },
                None => {},
            }
            match self.changes.view {
                Some(view) => {
                    sync_data.set_matrix(self.view_id, view.0, view.1);
                },
                None => {},
            }
            match self.changes.model {
                Some(model) => {
                    sync_data.set_matrix(self.model_id, model.0, model.1);
                },
                None => {},
            }
            match self.changes.color {
                Some(color) => {
                    sync_data.set_vec4(self.color_id, color);
                },
                None => {},
            }
            self.changes.vertices = None;
            self.changes.indices = None;
            self.changes.draw_method = None;
            self.changes.perspective = None;
            self.changes.view = None;
            self.changes.model = None;
            self.changes.color = None;
            self.changes.dirty_render = false;
        }
        Ok(())
    }

    /// Stages a replacement vertex buffer.
    pub fn set_vertices(&mut self, vertices: Vec<Vertex>)
        ensures
            final(self).ids() == old(self).ids(),
            final(self).staged() == apply_op(
                old(self).staged(),
                SolidColorOp::Vertices(vertices@),
            ),
    {
        self.changes.vertices = Some(vertices);
        self.changes.dirty_render = true;
    }

    /// Stages a replacement index buffer.
    pub fn set_indices(&mut self, indices: Vec<u32>)
        ensures
            final(self).ids() == old(self).ids(),
            final(self).staged() == apply_op(old(self).staged(), SolidColorOp::Indices(indices@)),
    {
        self.changes.indices = Some(indices);
        self.changes.dirty_render = true;
    }

    /// Stages a replacement draw method.
    pub fn set_draw_method(&mut self, draw_method: DrawMethod)
        ensures
            final(self).ids() == old(self).ids(),
            final(self).staged() == apply_op(
                old(self).staged(),
                SolidColorOp::DrawMethodOp(draw_method),
            ),
    {
        self.changes.draw_method = Some(draw_method);
        self.changes.dirty_render = true;
    }

    /// Stages a replacement perspective matrix together with its inverse.
    pub fn set_perspective(&mut self, matrix: Mat4, inverse: Mat4)
        ensures
            final(self).ids() == old(self).ids(),
            final(self).staged() == apply_op(
                old(self).staged(),
                SolidColorOp::Perspective(matrix, inverse),
            ),
    {
        self.changes.perspective = Some((matrix, inverse));
        self.changes.dirty_render = true;
    }

    /// Stages a replacement view matrix together with its inverse.
    pub fn set_view(&mut self, matrix: Mat4, inverse: Mat4)
        ensures
            final(self).ids() == old(self).ids(),
            final(self).staged() == apply_op(old(self).staged(), SolidColorOp::View(matrix, inverse)),
    {
        self.changes.view = Some((matrix, inverse));
        self.changes.dirty_render = true;
    }

    /// Stages a replacement model matrix together with its inverse.
    pub fn set_model(&mut self, matrix: Mat4, inverse: Mat4)
        ensures
            final(self).ids() == old(self).ids(),
            final(self).staged() == apply_op(old(self).staged(), SolidColorOp::Model(matrix, inverse)),
    {
        self.changes.model = Some((matrix, inverse));
        self.changes.dirty_render = true;
    }

    /// Stages a replacement color.
    pub fn set_color(&mut self, color: Vec4)
        ensures
            final(self).ids() == old(self).ids(),
            final(self).staged() == apply_op(old(self).staged(), SolidColorOp::Color(color)),
    {
        self.changes.color = Some(color);
        self.changes.dirty_render = true;
    }

    /// Repoints the vertex buffer id.
    pub fn set_vertex_id(&mut self, id: Id)
        ensures
            final(self).ids() == (SolidColorIds { vertex: id, ..old(self).ids() }),
            final(self).staged() == old(self).staged(),
    {
        self.vertex_id = id;
    }

    /// Repoints the index buffer id.
    pub fn set_index_id(&mut self, id: Id)
        ensures
            final(self).ids() == (SolidColorIds { index: id, ..old(self).ids() }),
            final(self).staged() == old(self).staged(),
    {
        self.index_id = id;
    }

    /// Repoints the draw-method id.
    pub fn set_draw_method_id(&mut self, id: Id)
        ensures
            final(self).ids() == (SolidColorIds { draw_method: id, ..old(self).ids() }),
            final(self).staged() == old(self).staged(),
    {
        self.draw_method_id = id;
    }

    /// Repoints the perspective matrix id.
    pub fn set_perspective_id(&mut self, id: Id)
        ensures
            final(self).ids() == (SolidColorIds { perspective: id, ..old(self).ids() }),
            final(self).staged() == old(self).staged(),
    {
        self.perspective_id = id;
    }

    /// Repoints the view matrix id.
    pub fn set_view_id(&mut self, id: Id)
        ensures
            final(self).ids() == (SolidColorIds { view: id, ..old(self).ids() }),
            final(self).staged() == old(self).staged(),
    {
        self.view_id = id;
    }

    /// Repoints the model matrix id.
    pub fn set_model_id(&mut self, id: Id)
        ensures
            final(self).ids() == (SolidColorIds { model: id, ..old(self).ids() }),
            final(self).staged() == old(self).staged(),
    {
        self.model_id = id;
    }

    /// Repoints the color id.
    pub fn set_color_id(&mut self, id: Id)
        ensures
            final(self).ids() == (SolidColorIds { color: id, ..old(self).ids() }),
            final(self).staged() == old(self).staged(),
    {
        self.color_id = id;
    }

    /// The vertex buffer id.
    pub fn get_vertex_id(&self) -> (r: Id)
        ensures
            r == self.ids().vertex,
    {
        self.vertex_id
    }

    /// The index buffer id.
    pub fn get_index_id(&self) -> (r: Id)
        ensures
            r == self.ids().index,
    {
        self.index_id
    }

    /// The draw-method id.
    pub fn get_draw_method_id(&self) -> (r: Id)
        ensures
            r == self.ids().draw_method,
    {
        self.draw_method_id
    }

    /// The perspective matrix id.
    pub fn get_perspective_id(&self) -> (r: Id)
        ensures
            r == self.ids().perspective,
    {
        self.perspective_id
    }

    /// The view matrix id.
    pub fn get_view_id(&self) -> (r: Id)
        ensures
            r == self.ids().view,
    {
        self.view_id
    }

    /// The model matrix id.
    pub fn get_model_id(&self) -> (r: Id)
        ensures
            r == self.ids().model,
    {
        self.model_id
    }

    /// The color id.
    pub fn get_color_id(&self) -> (r: Id)
        ensures
            r == self.ids().color,
    {
        self.color_id
    }
}

} // verus!
