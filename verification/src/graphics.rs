//! The rendering side of the engine core: the shared uniform store, the
//! renderer-owned resource tables, the draw-method parameters, and the
//! per-frame draw-call assembly.

pub mod draw_method;
pub mod frame;
pub mod renderers;
pub mod solid_color;
pub mod sync_data;
pub mod texture2d;
pub mod vertex_color;
