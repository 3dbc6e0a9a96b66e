//! The set of renderer resource tables, one per renderable kind, and the
//! tag that selects a kind.

use vstd::prelude::*;

use crate::graphics::draw_method::DrawMethod;
use crate::graphics::solid_color::RendererSolidColor;
use crate::graphics::texture2d::RendererTex2;
use crate::graphics::vertex_color::RendererVertexColor;
use crate::graphics::solid_color;
use crate::graphics::texture2d;
use crate::graphics::vertex_color;
use crate::ids::Id;

verus! {

/// Which renderable kind an entity's renderable currently holds.
#[derive(Copy, Clone, Debug, PartialEq, Eq, Structural)]
pub enum RendererType {
    SolidColor,
    VertexColor,
    Texture2d,
    Empty,
}

/// The renderer-owned resource tables, keyed by stable resource ids and
/// mutated only from the render pass.
pub struct Renderers {
    renderer_solid_color: RendererSolidColor,
    renderer_vertex_color: RendererVertexColor,
    renderer_texture2d: RendererTex2,
}

impl Renderers {
    pub closed spec fn solid_color_spec(&self) -> RendererSolidColor {
        self.renderer_solid_color
    }

    pub closed spec fn vertex_color_spec(&self) -> RendererVertexColor {
        self.renderer_vertex_color
    }

    pub closed spec fn texture2d_spec(&self) -> RendererTex2 {
        self.renderer_texture2d
    }

    /// All tables empty.
    pub fn new() -> (r: Renderers)
        ensures
            r.solid_color_spec().vertices_spec() == Map::<Id, Seq<solid_color::Vertex>>::empty(),
            r.solid_color_spec().indices_spec() == Map::<Id, Seq<u32>>::empty(),
            r.solid_color_spec().draw_parameters_spec() == Map::<Id, DrawMethod>::empty(),
            r.vertex_color_spec().vertices_spec() == Map::<Id, Seq<vertex_color::Vertex>>::empty(),
            r.vertex_color_spec().indices_spec() == Map::<Id, Seq<u32>>::empty(),
            r.vertex_color_spec().draw_parameters_spec() == Map::<Id, DrawMethod>::empty(),
            r.texture2d_spec().vertices_spec() == Map::<Id, Seq<texture2d::Vertex>>::empty(),
            r.texture2d_spec().indices_spec() == Map::<Id, Seq<u32>>::empty(),
            r.texture2d_spec().textures_spec() == Map::<Id, (Seq<u8>, u32, u32)>::empty(),
            r.texture2d_spec().draw_parameters_spec() == Map::<Id, DrawMethod>::empty(),
    {
        Renderers {
            renderer_solid_color: RendererSolidColor::new(),
            renderer_vertex_color: RendererVertexColor::new(),
            renderer_texture2d: RendererTex2::new(),
        }
    }

    pub fn get_solid_color(&self) -> (r: &RendererSolidColor)
        ensures
            *r == self.solid_color_spec(),
    {
        &self.renderer_solid_color
    }

    pub fn get_vertex_color(&self) -> (r: &RendererVertexColor)
        ensures
            *r == self.vertex_color_spec(),
    {
        &self.renderer_vertex_color
    }

    pub fn get_texture2d(&self) -> (r: &RendererTex2)
        ensures
            *r == self.texture2d_spec(),
    {
        &self.renderer_texture2d
    }

    pub fn get_mut_solid_color(&mut self) -> (r: &mut RendererSolidColor)
        ensures
            *r == old(self).solid_color_spec(),
            final(self).solid_color_spec() == *final(r),
            final(self).vertex_color_spec() == old(self).vertex_color_spec(),
            final(self).texture2d_spec() == old(self).texture2d_spec(),
    {
        &mut self.renderer_solid_color
    }

    pub fn get_mut_vertex_color(&mut self) -> (r: &mut RendererVertexColor)
        ensures
            *r == old(self).vertex_color_spec(),
            final(self).vertex_color_spec() == *final(r),
            final(self).solid_color_spec() == old(self).solid_color_spec(),
            final(self).texture2d_spec() == old(self).texture2d_spec(),
    {
        &mut self.renderer_vertex_color
    }

    pub fn get_mut_texture2d(&mut self) -> (r: &mut RendererTex2)
        ensures
            *r == old(self).texture2d_spec(),
            final(self).texture2d_spec() == *final(r),
            final(self).solid_color_spec() == old(self).solid_color_spec(),
            final(self).vertex_color_spec() == old(self).vertex_color_spec(),
    {
        &mut self.renderer_texture2d
    }
}

} // verus!
