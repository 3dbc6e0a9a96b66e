//! One frame's draw-call assembly. Flushing has already committed staged
//! state to the renderer tables; here each entity with a populated
//! renderable resolves its buffers and uniforms by id and contributes one
//! draw call, which the rendering backend then executes.

use vstd::prelude::*;

use crate::entity::Entity;
use crate::err::DorpErr;
use crate::graphics::draw_method::DrawMethod;
use crate::graphics::renderers::{RendererType, Renderers};
use crate::graphics::sync_data::SyncData;
use crate::graphics::solid_color::solid_color_draw_spec;
use crate::graphics::texture2d::texture2d_draw_spec;
use crate::graphics::vertex_color::vertex_color_draw_spec;
use crate::ids::Id;
use crate::math::{Mat4, Vec4};
use crate::renderable::wrapper::Renderable;

verus! {

/// One resolved draw call: which pipeline, which buffers by id, and the
/// uniform values to draw with.
#[derive(Copy, Clone, Debug, PartialEq, Eq)]
pub struct DrawCall {
    pub kind: RendererType,
    pub vertex_id: Id,
    pub index_id: Id,
    pub draw_method: DrawMethod,
    pub perspective: Mat4,
    pub view: Mat4,
    pub model: Mat4,
    pub color: Option<Vec4>,
    pub texture_id: Option<Id>,
}

/// A frame under assembly: the renderer tables pass through it, and draw
/// calls accumulate in order.
pub struct Frame {
    renderers: Renderers,
    draws: Vec<DrawCall>,
}

impl Frame {
    pub closed spec fn renderers_spec(&self) -> Renderers {
        self.renderers
    }

    pub closed spec fn draws_spec(&self) -> Seq<DrawCall> {
        self.draws@
    }

    /// Begins a frame: takes the renderer tables, no draw calls yet.
    pub fn new(renderers: Renderers) -> (r: Frame)
        ensures
            r.renderers_spec() == renderers,
            r.draws_spec() == Seq::<DrawCall>::empty(),
    {
        Frame { renderers, draws: Vec::new() }
    }

    /// How many draw calls the frame holds so far.
    pub fn draw_count(&self) -> (r: usize)
        ensures
            r == self.draws_spec().len(),
    {
        self.draws.len()
    }

    /// Resolves one renderable into a draw call, dispatching on its tag:
    /// an `Empty` tag, a missing payload, or a missing resource is a typed
    /// error and contributes nothing.
    pub fn draw_renderable(&mut self, renderable: &Renderable, sync_data: &SyncData) -> (r: Result<
        (),
        DorpErr,
    >)
        ensures
            final(self).renderers_spec() == old(self).renderers_spec(),
            match renderable.kind_spec() {
                RendererType::SolidColor => match renderable.solid_color_spec() {
                    Some(c) => match solid_color_draw_spec(
                        old(self).renderers_spec().solid_color_spec(),
                        c,
                        *sync_data,
                    ) {
                        Ok(call) => r is Ok && final(self).draws_spec() == old(self).draws_spec().push(call),
                        Err(e) => r == Err::<(), DorpErr>(e) && final(self).draws_spec() == old(self).draws_spec(),
                    },
                    None => r == Err::<(), DorpErr>(DorpErr::RendererType) && final(self).draws_spec() == old(self).draws_spec(),
                },
                RendererType::VertexColor => match renderable.vertex_color_spec() {
                    Some(c) => match vertex_color_draw_spec(
                        old(self).renderers_spec().vertex_color_spec(),
                        c,
                        *sync_data,
                    ) {
                        Ok(call) => r is Ok && final(self).draws_spec() == old(self).draws_spec().push(call),
                        Err(e) => r == Err::<(), DorpErr>(e) && final(self).draws_spec() == old(self).draws_spec(),
                    },
                    None => r == Err::<(), DorpErr>(DorpErr::RendererType) && final(self).draws_spec() == old(self).draws_spec(),
                },
                RendererType::Texture2d => match renderable.texture2d_spec() {
                    Some(c) => match texture2d_draw_spec(
                        old(self).renderers_spec().texture2d_spec(),
                        c,
                        *sync_data,
                    ) {
                        Ok(call) => r is Ok && final(self).draws_spec() == old(self).draws_spec().push(call),
                        Err(e) => r == Err::<(), DorpErr>(e) && final(self).draws_spec() == old(self).draws_spec(),
                    },
                    None => r == Err::<(), DorpErr>(DorpErr::RendererType) && final(self).draws_spec() == old(self).draws_spec(),
                },
                RendererType::Empty => r == Err::<(), DorpErr>(DorpErr::RendererType) && final(self).draws_spec() == old(self).draws_spec(),
            },
    {
        match renderable.get_renderer_type() {
            RendererType::SolidColor => match renderable.get_solid_color() {
                Some(c) => match self.renderers.get_solid_color().render(c, sync_data) {
                    Ok(call) => {
                        self.draws.push(call);
                        Ok(())
                    },
                    Err(e) => Err(e),
                },
                None => Err(DorpErr::RendererType),
            },
            RendererType::VertexColor => match renderable.get_vertex_color() {
                Some(c) => match self.renderers.get_vertex_color().render(c, sync_data) {
                    Ok(call) => {
                        self.draws.push(call);
                        Ok(())
                    },
                    Err(e) => Err(e),
                },
                None => Err(DorpErr::RendererType),
            },
            RendererType::Texture2d => match renderable.get_texture2d() {
                Some(c) => match self.renderers.get_texture2d().render(c, sync_data) {
                    Ok(call) => {
                        self.draws.push(call);
                        Ok(())
                    },
                    Err(e) => Err(e),
                },
                None => Err(DorpErr::RendererType),
            },
            RendererType::Empty => Err(DorpErr::RendererType),
        }
    }

    /// Draws one entity: an entity without a renderable is skipped, one
    /// with a populated renderable contributes at most one draw call.
    pub fn draw_entity<T: Entity>(&mut self, entity: &T, sync_data: &SyncData) -> (r: Result<
        (),
        DorpErr,
    >)
        ensures
            final(self).renderers_spec() == old(self).renderers_spec(),
            old(self).draws_spec().len() <= final(self).draws_spec().len() <= old(self).draws_spec().len() + 1,
            final(self).draws_spec().take(old(self).draws_spec().len() as int) == old(self).draws_spec(),
            r is Err ==> final(self).draws_spec() == old(self).draws_spec(),
    {
        let ghost old_draws = self.draws@;
        let res = match entity.get_renderable() {
            Some(renderable) => self.draw_renderable(renderable, sync_data),
            None => Ok(()),
        };
        proof {
            assert(self.draws@.take(old_draws.len() as int) =~= old_draws);
        }
        res
    }

    /// Ends the frame: hands back the renderer tables and the draw calls,
    /// in the order they were contributed.
    pub fn end(self) -> (r: (Renderers, Vec<DrawCall>))
        ensures
            r.0 == self.renderers_spec(),
            r.1@ == self.draws_spec(),
    {
        (self.renderers, self.draws)
    }
}

} // verus!
