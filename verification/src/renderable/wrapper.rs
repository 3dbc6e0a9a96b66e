//! The tagged renderable wrapper: at most one concrete renderable kind per
//! entity. The tag always matches the populated payload; setting a new
//! kind discards the previous payload. Rendering or staging a model while
//! the tag is `Empty` is an error, and touches nothing.

use vstd::prelude::*;

use crate::err::DorpErr;
use crate::graphics::renderers::{RendererType, Renderers};
use crate::graphics::sync_data::SyncData;
use crate::math::Mat4;
use crate::renderable::solid_color::{
    solid_flush_effect, RenderableSolidColor, StagedSolid,
};
use crate::renderable::texture2d::{tex2_flush_effect, RenderableTex2, StagedTex2};
use crate::renderable::vertex_color::{
    vertex_color_flush_effect, RenderableVertexColor, StagedVertexColor,
};

verus! {


/// The effect of one dispatching flush on a renderable, the uniform store
/// and the renderer tables: an `Empty` tag is refused and nothing changes;
/// otherwise the active payload's flush effect holds and the other
/// payloads are untouched.
pub open spec fn render_effect(
    pre: Renderable,
    post: Renderable,
    old_sync: SyncData,
    new_sync: SyncData,
    old_renderers: Renderers,
    new_renderers: Renderers,
    r: Result<(), DorpErr>,
) -> bool {
    &&& post.kind_spec() == pre.kind_spec()
    &&& (pre.wf() ==> post.wf())
    &&& (pre.kind_spec() == RendererType::Empty ==> r == Err::<(), DorpErr>(DorpErr::RendererType)
        && post == pre && new_sync == old_sync && new_renderers == old_renderers)
    &&& (pre.wf() && pre.kind_spec() == RendererType::SolidColor ==> {
        &&& r is Ok
        &&& post.solid_color_spec() is Some
        &&& post.texture2d_spec() == pre.texture2d_spec()
        &&& post.vertex_color_spec() == pre.vertex_color_spec()
        &&& solid_flush_effect(
            pre.solid_color_spec().unwrap(),
            post.solid_color_spec().unwrap(),
            old_renderers,
            new_renderers,
            old_sync,
            new_sync,
        )
    })
    &&& (pre.wf() && pre.kind_spec() == RendererType::VertexColor ==> {
        &&& r is Ok
        &&& post.vertex_color_spec() is Some
        &&& post.texture2d_spec() == pre.texture2d_spec()
        &&& post.solid_color_spec() == pre.solid_color_spec()
        &&& vertex_color_flush_effect(
            pre.vertex_color_spec().unwrap(),
            post.vertex_color_spec().unwrap(),
            old_renderers,
            new_renderers,
            old_sync,
            new_sync,
        )
    })
    &&& (pre.wf() && pre.kind_spec() == RendererType::Texture2d ==> {
        &&& post.texture2d_spec() is Some
        &&& post.vertex_color_spec() == pre.vertex_color_spec()
        &&& post.solid_color_spec() == pre.solid_color_spec()
        &&& tex2_flush_effect(
            pre.texture2d_spec().unwrap(),
            post.texture2d_spec().unwrap(),
            old_renderers,
            new_renderers,
            old_sync,
            new_sync,
            r,
        )
    })
}

/// The effect of staging a model matrix through the tag dispatch: an
/// `Empty` tag is refused and nothing changes; otherwise the active
/// payload stages the pair and the other payloads are untouched.
pub open spec fn set_model_effect(
    pre: Renderable,
    post: Renderable,
    matrix: Mat4,
    inverse: Mat4,
    r: Result<(), DorpErr>,
) -> bool {
    &&& post.kind_spec() == pre.kind_spec()
    &&& (pre.wf() ==> post.wf())
    &&& (pre.kind_spec() == RendererType::Empty ==> r == Err::<(), DorpErr>(DorpErr::RendererType)
        && post == pre)
    &&& (pre.wf() && pre.kind_spec() == RendererType::SolidColor ==> {
        &&& r is Ok
        &&& post.texture2d_spec() == pre.texture2d_spec()
        &&& post.vertex_color_spec() == pre.vertex_color_spec()
        &&& post.solid_color_spec() is Some
        &&& post.solid_color_spec().unwrap().ids() == pre.solid_color_spec().unwrap().ids()
        &&& post.solid_color_spec().unwrap().staged() == (StagedSolid {
            model: Some((matrix, inverse)),
            dirty: true,
            ..pre.solid_color_spec().unwrap().staged()
        })
    })
    &&& (pre.wf() && pre.kind_spec() == RendererType::VertexColor ==> {
        &&& r is Ok
        &&& post.texture2d_spec() == pre.texture2d_spec()
        &&& post.solid_color_spec() == pre.solid_color_spec()
        &&& post.vertex_color_spec() is Some
        &&& post.vertex_color_spec().unwrap().ids() == pre.vertex_color_spec().unwrap().ids()
        &&& post.vertex_color_spec().unwrap().staged() == (StagedVertexColor {
            model: Some((matrix, inverse)),
            dirty: true,
            ..pre.vertex_color_spec().unwrap().staged()
        })
    })
    &&& (pre.wf() && pre.kind_spec() == RendererType::Texture2d ==> {
        &&& r is Ok
        &&& post.vertex_color_spec() == pre.vertex_color_spec()
        &&& post.solid_color_spec() == pre.solid_color_spec()
        &&& post.texture2d_spec() is Some
        &&& post.texture2d_spec().unwrap().ids() == pre.texture2d_spec().unwrap().ids()
        &&& post.texture2d_spec().unwrap().staged() == (StagedTex2 {
            model: Some((matrix, inverse)),
            dirty: true,
            ..pre.texture2d_spec().unwrap().staged()
        })
    })
}

/// A tagged union over the renderable kinds, with `Empty` for none.
pub struct Renderable {
    renderer_type: RendererType,
    texture2d: Option<RenderableTex2>,
    vertex_color: Option<RenderableVertexColor>,
    solid_color: Option<RenderableSolidColor>,
}

impl Renderable {
    /// The active kind.
    pub closed spec fn kind_spec(&self) -> RendererType {
        self.renderer_type
    }

    /// The textured payload, if populated.
    pub closed spec fn texture2d_spec(&self) -> Option<RenderableTex2> {
        self.texture2d
    }

    /// The vertex-color payload, if populated.
    pub closed spec fn vertex_color_spec(&self) -> Option<RenderableVertexColor> {
        self.vertex_color
    }

    /// The solid-color payload, if populated.
    pub closed spec fn solid_color_spec(&self) -> Option<RenderableSolidColor> {
        self.solid_color
    }

    /// The tag matches the populated payload, and at most one payload is
    /// populated.
    pub open spec fn wf(&self) -> bool {
        match self.kind_spec() {
            RendererType::Texture2d => self.texture2d_spec() is Some && self.vertex_color_spec()
                is None && self.solid_color_spec() is None,
            RendererType::VertexColor => self.texture2d_spec() is None && self.vertex_color_spec()
                is Some && self.solid_color_spec() is None,
            RendererType::SolidColor => self.texture2d_spec() is None && self.vertex_color_spec()
                is None && self.solid_color_spec() is Some,
            RendererType::Empty => self.texture2d_spec() is None && self.vertex_color_spec()
                is None && self.solid_color_spec() is None,
        }
    }

    /// An empty renderable: no payload, tag `Empty`.
    pub fn new() -> (r: Renderable)
        ensures
            r.kind_spec() == RendererType::Empty,
            r.texture2d_spec() is None,
            r.vertex_color_spec() is None,
            r.solid_color_spec() is None,
            r.wf(),
    {
        Renderable {
            renderer_type: RendererType::Empty,
            texture2d: None,
            vertex_color: None,
            solid_color: None,
        }
    }

    /// Flushes the active payload's pending changes. An `Empty` tag is an
    /// error and performs no table writes.
    pub fn render(&mut self, sync_data: &mut SyncData, renderers: &mut Renderers) -> (r: Result<
        (),
        DorpErr,
    >)
        ensures
            render_effect(
                *old(self),
                *final(self),
                *old(sync_data),
                *final(sync_data),
                *old(renderers),
                *final(renderers),
                r,
            ),
    {
        match self.renderer_type {
            RendererType::Texture2d => {
                match self.texture2d.as_mut() {
                    Some(tex2) => {
                        match tex2.render(sync_data, renderers) {
                            Ok(()) => Ok(()),
                            Err(err) => Err(err),
                        }
                    },
                    None => Ok(()),
                }
            },
            RendererType::SolidColor => {
                match self.solid_color.as_mut() {
                    Some(solid) => {
                        match solid.render(sync_data, renderers) {
                            Ok(()) => Ok(()),
                            Err(err) => Err(DorpErr::SolidColor(err)),
                        }
                    },
                    None => Ok(()),
                }
            },
            RendererType::VertexColor => {
                match self.vertex_color.as_mut() {
                    Some(vertex) => {
                        match vertex.render(sync_data, renderers) {
                            Ok(()) => Ok(()),
                            Err(err) => Err(DorpErr::VertexColor(err)),
                        }
                    },
                    None => Ok(()),
                }
            },
            RendererType::Empty => Err(DorpErr::RendererType),
        }
    }

    /// Stages a model matrix (with its inverse) into the active payload.
    /// An `Empty` tag is an error and stages nothing.
    pub fn set_model(&mut self, matrix: Mat4, inverse: Mat4) -> (r: Result<(), DorpErr>)
        ensures
            set_model_effect(*old(self), *final(self), matrix, inverse, r),
    {
        match self.renderer_type {
            RendererType::Texture2d => {
                match self.texture2d.as_mut() {
                    Some(tex2) => {
                        tex2.set_model(matrix, inverse);
                        Ok(())
                    },
                    None => Err(DorpErr::RendererType),
                }
            },
            RendererType::SolidColor => {
                match self.solid_color.as_mut() {
                    Some(solid) => {
                        solid.set_model(matrix, inverse);
                        Ok(())
                    },
                    None => Err(DorpErr::RendererType),
                }
            },
            RendererType::VertexColor => {
                match self.vertex_color.as_mut() {
                    Some(vertex) => {
                        vertex.set_model(matrix, inverse);
                        Ok(())
                    },
                    None => Err(DorpErr::RendererType),
                }
            },
            RendererType::Empty => Err(DorpErr::RendererType),
        }
    }

    /// Makes `texture2d` the active payload, discarding any other.
    pub fn set_texture2d(&mut self, texture2d: RenderableTex2)
        ensures
            final(self).kind_spec() == RendererType::Texture2d,
            final(self).texture2d_spec() == Some(texture2d),
            final(self).vertex_color_spec() is None,
            final(self).solid_color_spec() is None,
            final(self).wf(),
    {
        self.texture2d = Some(texture2d);
        self.vertex_color = None;
        self.solid_color = None;
        self.renderer_type = RendererType::Texture2d;
    }

    /// Makes `vertex_color` the active payload, discarding any other.
    pub fn set_vertex_color(&mut self, vertex_color: RenderableVertexColor)
        ensures
            final(self).kind_spec() == RendererType::VertexColor,
            final(self).vertex_color_spec() == Some(vertex_color),
            final(self).texture2d_spec() is None,
            final(self).solid_color_spec() is None,
            final(self).wf(),
    {
        self.vertex_color = Some(vertex_color);
        self.texture2d = None;
        self.solid_color = None;
        self.renderer_type = RendererType::VertexColor;
    }

    /// Makes `solid_color` the active payload, discarding any other.
    pub fn set_solid_color(&mut self, solid_color: RenderableSolidColor)
        ensures
            final(self).kind_spec() == RendererType::SolidColor,
            final(self).solid_color_spec() == Some(solid_color),
            final(self).texture2d_spec() is None,
            final(self).vertex_color_spec() is None,
            final(self).wf(),
    {
        self.solid_color = Some(solid_color);
        self.texture2d = None;
        self.vertex_color = None;
        self.renderer_type = RendererType::SolidColor;
    }

    /// The active kind.
    pub fn get_renderer_type(&self) -> (r: RendererType)
        ensures
            r == self.kind_spec(),
    {
        self.renderer_type
    }

    /// The textured payload, if populated.
    pub fn get_texture2d(&self) -> (r: Option<&RenderableTex2>)
        ensures
            match r {
                Some(t) => self.texture2d_spec() == Some(*t),
                None => self.texture2d_spec() is None,
            },
    {
        match &self.texture2d {
            Some(t) => Some(t),
            None => None,
        }
    }

    /// The solid-color payload, if populated.
    pub fn get_solid_color(&self) -> (r: Option<&RenderableSolidColor>)
        ensures
            match r {
                Some(t) => self.solid_color_spec() == Some(*t),
                None => self.solid_color_spec() is None,
            },
    {
        match &self.solid_color {
            Some(t) => Some(t),
            None => None,
        }
    }

    /// The vertex-color payload, if populated.
    pub fn get_vertex_color(&self) -> (r: Option<&RenderableVertexColor>)
        ensures
            match r {
                Some(t) => self.vertex_color_spec() == Some(*t),
                None => self.vertex_color_spec() is None,
            },
    {
        match &self.vertex_color {
            Some(t) => Some(t),
            None => None,
        }
    }

    /// Exclusive access to the textured payload, if populated.
    pub fn get_mut_texture2d(&mut self) -> (r: Option<&mut RenderableTex2>)
        ensures
            final(self).kind_spec() == old(self).kind_spec(),
            final(self).vertex_color_spec() == old(self).vertex_color_spec(),
            final(self).solid_color_spec() == old(self).solid_color_spec(),
            match old(self).texture2d_spec() {
                None => r is None && final(self).texture2d_spec() is None,
                Some(c) => r is Some && *r.unwrap() == c && final(self).texture2d_spec() == Some(
                    *final(r.unwrap()),
                ),
            },
    {
        self.texture2d.as_mut()
    }

    /// Exclusive access to the solid-color payload, if populated.
    pub fn get_mut_solid_color(&mut self) -> (r: Option<&mut RenderableSolidColor>)
        ensures
            final(self).kind_spec() == old(self).kind_spec(),
            final(self).vertex_color_spec() == old(self).vertex_color_spec(),
            final(self).texture2d_spec() == old(self).texture2d_spec(),
            match old(self).solid_color_spec() {
                None => r is None && final(self).solid_color_spec() is None,
                Some(c) => r is Some && *r.unwrap() == c && final(self).solid_color_spec() == Some(
                    *final(r.unwrap()),
                ),
            },
    {
        self.solid_color.as_mut()
    }

    /// Exclusive access to the vertex-color payload, if populated.
    pub fn get_mut_vertex_color(&mut self) -> (r: Option<&mut RenderableVertexColor>)
        ensures
            final(self).kind_spec() == old(self).kind_spec(),
            final(self).texture2d_spec() == old(self).texture2d_spec(),
            final(self).solid_color_spec() == old(self).solid_color_spec(),
            match old(self).vertex_color_spec() {
                None => r is None && final(self).vertex_color_spec() is None,
                Some(c) => r is Some && *r.unwrap() == c && final(self).vertex_color_spec()
                    == Some(*final(r.unwrap())),
            },
    {
        self.vertex_color.as_mut()
    }
}

} // verus!
