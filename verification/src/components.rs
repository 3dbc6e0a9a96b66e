//! Reusable entity components: the 2D and 3D spatial grid maps with their
//! coordinate components, and the one-shot scene component.

pub mod map_2d;
pub mod map_2d_coords;
pub mod map_3d;
pub mod map_3d_coords;
pub mod scene;
