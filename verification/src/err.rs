//! The engine's error taxonomy: domain invariant violations, flush
//! failures identifying the sub-resource concerned, and user-supplied
//! failures carried up unchanged.

use vstd::prelude::*;

use crate::renderable::solid_color::RenderableSolidColorErr;
use crate::renderable::vertex_color::RenderableVertexColorErr;

verus! {

#[derive(Debug, Clone, PartialEq, Eq)]
pub enum DorpErr {
    /// A renderable whose tag is `Empty` was asked to render or to stage a
    /// model: there is nothing to render or transform.
    RendererType,
    /// `register_name` found the name already registered.
    NameTaken,
    /// `deregister_name` found the name not registered.
    NameNotRegistered,
    /// The mutating tick expected an entity under a key that is gone.
    EntityMissing,
    /// An entity changed its reported id during its mutating tick; the
    /// enumeration key is immutable, so the change is refused and the
    /// entity stays under its original key.
    EntityIdChanged,
    /// Staged texture bytes do not decode as an image.
    TextureDecode,
    /// A solid-color flush failed on the named sub-resource.
    SolidColor(RenderableSolidColorErr),
    /// A vertex-color flush failed on the named sub-resource.
    VertexColor(RenderableVertexColorErr),
    /// A draw call found no vertex buffer under the renderable's vertex id.
    MissingVertices,
    /// A draw call found no index buffer under the renderable's index id.
    MissingIndices,
    /// A draw call found no texture under the renderable's texture id.
    MissingTexture,
    /// A draw call found no draw parameters under the renderable's
    /// draw-method id.
    MissingDrawMethod,
    /// A draw call found no matrix under a perspective, view or model id.
    MissingMatrix,
    /// A draw call found no color value under the renderable's color id.
    MissingColor,
    /// A failure from user code (an entity tick or a scene setup), carried
    /// up unchanged in kind.
    Base(String),
}

} // verus!
