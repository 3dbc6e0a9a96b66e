//! The textured renderer's resource tables: vertex buffers, index buffers,
//! decoded textures and draw parameters, keyed by stable resource ids.
//!
//! Staged texture bytes are decoded to RGBA pixels when they are
//! committed; the decode itself is done by the `image` crate's built-in
//! decoders, with the container format read off the bytes' magic
//! signature.

use vstd::prelude::*;

use crate::err::DorpErr;
use crate::graphics::draw_method::DrawMethod;
use crate::graphics::frame::DrawCall;
use crate::graphics::renderers::RendererType;
use crate::graphics::sync_data::SyncData;
use crate::ids::Id;
use crate::math::{Vec2, Vec3};
use crate::renderable::texture2d::RenderableTex2;
use crate::table::{lemma_lookup_some_index, Table};

verus! {

/// A vertex of the textured pipeline: a position and a texture coordinate.
#[derive(Copy, Clone, Debug, PartialEq, Eq, Structural)]
pub struct Vertex {
    pub position: Vec3,
    pub tex_coord: Vec2,
}

impl Vertex {
    pub fn new(position: Vec3, tex_coord: Vec2) -> (r: Vertex)
        ensures
            r == (Vertex { position, tex_coord }),
    {
        Vertex { position, tex_coord }
    }
}

/// A decoded texture: tightly packed RGBA bytes and the image dimensions.
pub struct TextureRgba {
    pub pixels: Vec<u8>,
    pub width: u32,
    pub height: u32,
}

impl TextureRgba {
    /// The abstract image: its pixel bytes and dimensions.
    pub open spec fn img_spec(&self) -> (Seq<u8>, u32, u32) {
        (self.pixels@, self.width, self.height)
    }
}

/// The RGBA image the `image` crate's built-in decoders produce from
/// `data` — the format read off the bytes' magic signature, then decoded
/// as that format — or nothing if the bytes are unrecognized or
/// malformed: a function of the bytes alone.
pub uninterp spec fn rgba_decode(data: Seq<u8>) -> Option<(Seq<u8>, u32, u32)>;

/// The `image` crate's error type, carried opaquely: the decoder returns
/// it and the caller maps it to the engine's own error.
#[verifier::external_type_specification]
#[verifier::external_body]
pub struct ExImageError(image::ImageError);

/// Relies on `image::guess_format`, `image::load_from_memory_with_format`
/// and `DynamicImage::to_rgba8`. The format guess reads only the crate's
/// static magic-byte table, and decoding with an explicit format goes
/// straight to the built-in decoder for that format under the default
/// limits; neither path consults the crate's process-global hook
/// registries (unlike `load_from_memory`, whose guess asks registered
/// hooks first). So what the bytes decode to depends on the bytes alone,
/// and unrecognized or malformed bytes are an error, not a panic.
#[verifier::external_body]
fn decode_rgba(data: &[u8]) -> (r: Result<TextureRgba, image::ImageError>)
    ensures
        match r {
            Ok(t) => rgba_decode(data@) == Some(t.img_spec()),
            Err(_) => rgba_decode(data@) is None,
        },
{
    let format = match image::guess_format(data) {
        Ok(format) => format,
        Err(e) => return Err(e),
    };
    match image::load_from_memory_with_format(data, format) {
        Ok(img) => {
            let rgba = img.to_rgba8();
            let (width, height) = rgba.dimensions();
            Ok(TextureRgba { pixels: rgba.into_raw(), width, height })
        },
        Err(e) => Err(e),
    }
}

pub struct RendererTex2 {
    vertex_buffers: Table<Id, Vec<Vertex>>,
    index_buffers: Table<Id, Vec<u32>>,
    texture_buffers: Table<Id, TextureRgba>,
    draw_parameters: Table<Id, DrawMethod>,
}

impl RendererTex2 {
    pub closed spec fn vertices_spec(&self) -> Map<Id, Seq<Vertex>> {
        Map::new(
            |id: Id| self.vertex_buffers@.dom().contains(id),
            |id: Id| self.vertex_buffers@[id]@,
        )
    }

    pub closed spec fn indices_spec(&self) -> Map<Id, Seq<u32>> {
        Map::new(
            |id: Id| self.index_buffers@.dom().contains(id),
            |id: Id| self.index_buffers@[id]@,
        )
    }

    pub closed spec fn textures_spec(&self) -> Map<Id, (Seq<u8>, u32, u32)> {
        Map::new(
            |id: Id| self.texture_buffers@.dom().contains(id),
            |id: Id| self.texture_buffers@[id].img_spec(),
        )
    }

    pub closed spec fn draw_parameters_spec(&self) -> Map<Id, DrawMethod> {
        self.draw_parameters@
    }

    /// Empty tables.
    pub fn new() -> (r: RendererTex2)
        ensures
            r.vertices_spec() == Map::<Id, Seq<Vertex>>::empty(),
            r.indices_spec() == Map::<Id, Seq<u32>>::empty(),
            r.textures_spec() == Map::<Id, (Seq<u8>, u32, u32)>::empty(),
            r.draw_parameters_spec() == Map::<Id, DrawMethod>::empty(),
    {
        let r = RendererTex2 {
            vertex_buffers: Table::new(),
            index_buffers: Table::new(),
            texture_buffers: Table::new(),
            draw_parameters: Table::new(),
        };
        proof {
            assert(r.vertices_spec() =~= Map::<Id, Seq<Vertex>>::empty());
            assert(r.indices_spec() =~= Map::<Id, Seq<u32>>::empty());
            assert(r.textures_spec() =~= Map::<Id, (Seq<u8>, u32, u32)>::empty());
        }
        r
    }

    /// Replaces the vertex buffer stored under `id`.
    pub fn set_vertices(&mut self, id: Id, vertices: Vec<Vertex>)
        ensures
            final(self).vertices_spec() == old(self).vertices_spec().insert(id, vertices@),
            final(self).indices_spec() == old(self).indices_spec(),
            final(self).textures_spec() == old(self).textures_spec(),
            final(self).draw_parameters_spec() == old(self).draw_parameters_spec(),
    {
        let ghost v = vertices@;
        self.vertex_buffers.insert(id, vertices);
        proof {
            assert(self.vertices_spec() =~= old(self).vertices_spec().insert(id, v));
            assert(self.indices_spec() =~= old(self).indices_spec());
            assert(self.textures_spec() =~= old(self).textures_spec());
        }
    }

    /// Replaces the index buffer stored under `id`.
    pub fn set_indices(&mut self, id: Id, indices: Vec<u32>)
        ensures
            final(self).indices_spec() == old(self).indices_spec().insert(id, indices@),
            final(self).vertices_spec() == old(self).vertices_spec(),
            final(self).textures_spec() == old(self).textures_spec(),
            final(self).draw_parameters_spec() == old(self).draw_parameters_spec(),
    {
        let ghost v = indices@;
        self.index_buffers.insert(id, indices);
        proof {
            assert(self.indices_spec() =~= old(self).indices_spec().insert(id, v));
            assert(self.vertices_spec() =~= old(self).vertices_spec());
            assert(self.textures_spec() =~= old(self).textures_spec());
        }
    }

    /// Decodes `data` and stores the resulting texture under `id`; bytes
    /// that do not decode are rejected and leave every table unchanged.
    pub fn set_texture(&mut self, id: Id, data: &[u8]) -> (r: Result<(), DorpErr>)
        ensures
            rgba_decode(data@) is Some ==> {
                &&& r is Ok
                &&& final(self).textures_spec() == old(self).textures_spec().insert(
                    id,
                    rgba_decode(data@).unwrap(),
                )
            },
            rgba_decode(data@) is None ==> r == Err::<(), DorpErr>(DorpErr::TextureDecode)
                && final(self).textures_spec() == old(self).textures_spec(),
            final(self).vertices_spec() == old(self).vertices_spec(),
            final(self).indices_spec() == old(self).indices_spec(),
            final(self).draw_parameters_spec() == old(self).draw_parameters_spec(),
    {
        match decode_rgba(data) {
            Ok(texture) => {
                let ghost img = texture.img_spec();
                self.texture_buffers.insert(id, texture);
                proof {
                    assert(self.textures_spec() =~= old(self).textures_spec().insert(id, img));
                    assert(self.vertices_spec() =~= old(self).vertices_spec());
                    assert(self.indices_spec() =~= old(self).indices_spec());
                }
                Ok(())
            },
            Err(_) => Err(DorpErr::TextureDecode),
        }
    }

    /// Replaces the draw parameters stored under `id`.
    pub fn set_draw_method(&mut self, id: Id, draw_method: DrawMethod)
        ensures
            final(self).draw_parameters_spec() == old(self).draw_parameters_spec().insert(
                id,
                draw_method,
            ),
            final(self).vertices_spec() == old(self).vertices_spec(),
            final(self).indices_spec() == old(self).indices_spec(),
            final(self).textures_spec() == old(self).textures_spec(),
    {
        self.draw_parameters.insert(id, draw_method);
        proof {
            assert(self.vertices_spec() =~= old(self).vertices_spec());
            assert(self.indices_spec() =~= old(self).indices_spec());
            assert(self.textures_spec() =~= old(self).textures_spec());
        }
    }

    /// Whether a vertex buffer is stored under `id`.
    pub fn has_vertices(&self, id: Id) -> (r: bool)
        ensures
            r == self.vertices_spec().dom().contains(id),
    {
        self.vertex_buffers.contains_key(&id)
    }

    /// Whether an index buffer is stored under `id`.
    pub fn has_indices(&self, id: Id) -> (r: bool)
        ensures
            r == self.indices_spec().dom().contains(id),
    {
        self.index_buffers.contains_key(&id)
    }

    /// Whether a texture is stored under `id`.
    pub fn has_texture(&self, id: Id) -> (r: bool)
        ensures
            r == self.textures_spec().dom().contains(id),
    {
        self.texture_buffers.contains_key(&id)
    }

    /// The draw parameters stored under `id`, if any.
    pub fn get_draw_method(&self, id: Id) -> (r: Option<&DrawMethod>)
        ensures
            match r {
                Some(m) => self.draw_parameters_spec().dom().contains(id)
                    && *m == self.draw_parameters_spec()[id],
                None => !self.draw_parameters_spec().dom().contains(id),
            },
    {
        self.draw_parameters.get(&id)
    }

    /// The vertex buffer stored under `id`, if any.
    pub fn get_vertices(&self, id: Id) -> (r: Option<&Vec<Vertex>>)
        ensures
            match r {
                Some(v) => self.vertices_spec().dom().contains(id) && v@ == self.vertices_spec()[id],
                None => !self.vertices_spec().dom().contains(id),
            },
    {
        self.vertex_buffers.get(&id)
    }

    /// The index buffer stored under `id`, if any.
    pub fn get_indices(&self, id: Id) -> (r: Option<&Vec<u32>>)
        ensures
            match r {
                Some(v) => self.indices_spec().dom().contains(id) && v@ == self.indices_spec()[id],
                None => !self.indices_spec().dom().contains(id),
            },
    {
        self.index_buffers.get(&id)
    }

    /// The texture stored under `id`, if any.
    pub fn get_texture(&self, id: Id) -> (r: Option<&TextureRgba>)
        ensures
            match r {
                Some(t) => self.textures_spec().dom().contains(id) && t.img_spec()
                    == self.textures_spec()[id],
                None => !self.textures_spec().dom().contains(id),
            },
    {
        self.texture_buffers.get(&id)
    }
}

/// The draw call a textured renderable resolves to against these tables
/// and uniforms: each required resource is looked up by the component's
/// id, and the first one missing names the error.
pub open spec fn texture2d_draw_spec(
    renderer: RendererTex2,
    c: RenderableTex2,
    sync: SyncData,
) -> Result<DrawCall, DorpErr> {
    let ids = c.ids();
    if !renderer.vertices_spec().dom().contains(ids.vertex) {
        Err(DorpErr::MissingVertices)
    } else if !renderer.indices_spec().dom().contains(ids.index) {
        Err(DorpErr::MissingIndices)
    } else if !renderer.textures_spec().dom().contains(ids.texture) {
        Err(DorpErr::MissingTexture)
    } else if !sync.mat4s_spec().dom().contains(ids.perspective) {
        Err(DorpErr::MissingMatrix)
    } else if !sync.mat4s_spec().dom().contains(ids.view) {
        Err(DorpErr::MissingMatrix)
    } else if !sync.mat4s_spec().dom().contains(ids.model) {
        Err(DorpErr::MissingMatrix)
    } else if !renderer.draw_parameters_spec().dom().contains(ids.draw_method) {
        Err(DorpErr::MissingDrawMethod)
    } else {
        Ok(
            DrawCall {
                kind: RendererType::Texture2d,
                vertex_id: ids.vertex,
                index_id: ids.index,
                draw_method: renderer.draw_parameters_spec()[ids.draw_method],
                perspective: sync.mat4s_spec()[ids.perspective],
                view: sync.mat4s_spec()[ids.view],
                model: sync.mat4s_spec()[ids.model],
                color: None,
                texture_id: Some(ids.texture),
            },
        )
    }
}

impl RendererTex2 {
    /// The ids under which vertex buffers are committed, each exactly once.
    pub fn vertex_ids(&self) -> (r: Vec<Id>)
        ensures
            forall|i: int|
                0 <= i < r@.len() ==> self.vertices_spec().dom().contains(#[trigger] r@[i]),
            forall|i: int, j: int| 0 <= i < j < r@.len() ==> r@[i] != r@[j],
            forall|id: Id| self.vertices_spec().dom().contains(id) ==> r@.contains(id),
    {
        let r = self.vertex_buffers.keys();
        proof {
            assert forall|id: Id| self.vertices_spec().dom().contains(id) implies r@.contains(
                id,
            ) by {
                lemma_lookup_some_index(self.vertex_buffers.kvs(), id);
                let i = choose|i: int|
                    0 <= i < self.vertex_buffers.kvs().len() && (#[trigger] self.vertex_buffers.kvs()[
                        i
                    ]).0 == id;
                assert(r@[i] == id);
            }
        }
        r
    }

    /// The ids under which index buffers are committed, each exactly once.
    pub fn index_ids(&self) -> (r: Vec<Id>)
        ensures
            forall|i: int|
                0 <= i < r@.len() ==> self.indices_spec().dom().contains(#[trigger] r@[i]),
            forall|i: int, j: int| 0 <= i < j < r@.len() ==> r@[i] != r@[j],
            forall|id: Id| self.indices_spec().dom().contains(id) ==> r@.contains(id),
    {
        let r = self.index_buffers.keys();
        proof {
            assert forall|id: Id| self.indices_spec().dom().contains(id) implies r@.contains(
                id,
            ) by {
                lemma_lookup_some_index(self.index_buffers.kvs(), id);
                let i = choose|i: int|
                    0 <= i < self.index_buffers.kvs().len() && (#[trigger] self.index_buffers.kvs()[
                        i
                    ]).0 == id;
                assert(r@[i] == id);
            }
        }
        r
    }

    /// The ids under which textures are committed, each exactly once.
    pub fn texture_ids(&self) -> (r: Vec<Id>)
        ensures
            forall|i: int|
                0 <= i < r@.len() ==> self.textures_spec().dom().contains(#[trigger] r@[i]),
            forall|i: int, j: int| 0 <= i < j < r@.len() ==> r@[i] != r@[j],
            forall|id: Id| self.textures_spec().dom().contains(id) ==> r@.contains(id),
    {
        let r = self.texture_buffers.keys();
        proof {
            assert forall|id: Id| self.textures_spec().dom().contains(id) implies r@.contains(
                id,
            ) by {
                lemma_lookup_some_index(self.texture_buffers.kvs(), id);
                let i = choose|i: int|
                    0 <= i < self.texture_buffers.kvs().len() && (#[trigger] self.texture_buffers.kvs()[
                        i
                    ]).0 == id;
                assert(r@[i] == id);
            }
        }
        r
    }

    /// Resolves `renderable`'s buffers, texture and uniforms into one draw
    /// call.
    pub fn render(&self, renderable: &RenderableTex2, sync_data: &SyncData) -> (r: Result<
        DrawCall,
        DorpErr,
    >)
        ensures
            r == texture2d_draw_spec(*self, *renderable, *sync_data),
    {
        let vertex_id = renderable.get_vertex_id();
        let index_id = renderable.get_index_id();
        let texture_id = renderable.get_texture_id();
        if !self.has_vertices(vertex_id) {
            return Err(DorpErr::MissingVertices);
        }
        if !self.has_indices(index_id) {
            return Err(DorpErr::MissingIndices);
        }
        if !self.has_texture(texture_id) {
            return Err(DorpErr::MissingTexture);
        }
        let perspective = match sync_data.get_matrix(renderable.get_perspective_id()) {
            Some(m) => *m,
            None => {
                return Err(DorpErr::MissingMatrix);
            },
        };
        let view = match sync_data.get_matrix(renderable.get_view_id()) {
            Some(m) => *m,
            None => {
                return Err(DorpErr::MissingMatrix);
            },
        };
        let model = match sync_data.get_matrix(renderable.get_model_id()) {
            Some(m) => *m,
            None => {
                return Err(DorpErr::MissingMatrix);
            },
        };
        let draw_method = match self.get_draw_method(renderable.get_draw_method_id()) {
            Some(m) => *m,
            None => {
                return Err(DorpErr::MissingDrawMethod);
            },
        };
        Ok(
            DrawCall {
                kind: RendererType::Texture2d,
                vertex_id,
                index_id,
                draw_method,
                perspective,
                view,
                model,
                color: None,
                texture_id: Some(texture_id),
            },
        )
    }
}

} // verus!
