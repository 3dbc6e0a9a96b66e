//! The capability set an entity exposes to the engine: a read-only tick, an
//! exclusive mutating tick, a render flush, optional components, and a
//! stable id. Users of the library implement this for their entity types;
//! the engine states nothing about what an implementation does.

use vstd::prelude::*;

use crate::err::DorpErr;
use crate::graphics::renderers::Renderers;
use crate::graphics::sync_data::SyncData;
use crate::ids::{Id, IdManager};
use crate::named::Named;
use crate::renderable::wrapper::Renderable;
use crate::transform::Transform;
use crate::world::World;

verus! {

/// The number of completed simulation ticks.
pub type TickCount = u64;

pub trait Entity: Sized {
    /// The read-only simulation step: may read any entity and the shared
    /// input state through the world, must not mutate anything.
    fn tick(&self, tick_count: TickCount, delta_ns: u64, world: &World<Self>) -> Result<
        (),
        DorpErr,
    >;

    /// The exclusive mutating step: the entity is held outside the world
    /// while it may add or remove other entities and allocate ids.
    fn tick_mut(
        &mut self,
        tick_count: TickCount,
        manager: &mut IdManager,
        world: &mut World<Self>,
        sync_data: &mut SyncData,
    ) -> Result<(), DorpErr>;

    /// Flushes the entity's staged renderable state into the renderer
    /// tables and the uniform store.
    fn render(&mut self, sync_data: &mut SyncData, renderers: &mut Renderers) -> Result<
        (),
        DorpErr,
    >;

    /// The entity's renderable component, if it has one.
    fn get_renderable(&self) -> Option<&Renderable>;

    /// The entity's name component, if it has one.
    fn get_named(&self) -> Option<&Named>;

    /// The entity's transform component, if it has one.
    fn get_transform(&self) -> Option<&Transform>;

    /// The entity's stable id.
    fn get_id(&self) -> Id;
}

} // verus!
