//! A small real-time game engine core: an entity-component world with a
//! two-phase tick protocol, monotonic resource-handle allocation, and a
//! dirty-tracking staging layer that batches renderable state changes and
//! commits them to renderer-owned resource tables once per frame.

pub mod components;
pub mod entity;
pub mod err;
pub mod game;
pub mod graphics;
pub mod ids;
pub mod input;
pub mod math;
pub mod named;
pub mod opterr;
pub mod renderable;
pub mod table;
pub mod transform;
pub mod window;
pub mod world;

pub use components::map_2d::Map2d;
pub use components::map_2d_coords::Map2dCoords;
pub use components::map_3d::Map3d;
pub use components::map_3d_coords::Map3dCoords;
pub use components::scene::{Scene, SceneSetup};
pub use entity::{Entity, TickCount};
pub use err::DorpErr;
pub use game::{accumulator_steps, Game};
pub use graphics::frame::{DrawCall, Frame};
pub use graphics::draw_method::{CullingMethod, DepthTestMethod, DrawMethod};
pub use graphics::renderers::{RendererType, Renderers};
pub use graphics::sync_data::SyncData;
pub use ids::{Id, IdManager, IdType, IdTypeTrait};
pub use input::{Button, ButtonState, Display, KeyCode, Keyboard, Mouse, MouseButton};
pub use math::{Mat4, Vec2, Vec3, Vec4};
pub use named::Named;
pub use opterr::OptErr;
pub use renderable::solid_color::RenderableSolidColor;
pub use renderable::texture2d::RenderableTex2;
pub use renderable::vertex_color::RenderableVertexColor;
pub use renderable::wrapper::Renderable;
pub use table::{KeyEq, Table};
pub use transform::Transform;
pub use window::{WindowBuilder, Windowed};
pub use world::World;
