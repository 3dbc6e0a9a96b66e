//! The one-shot scene component: on its first mutating tick it queues its
//! own removal, then runs its setup routine once. Adding a scene entity to
//! the world is how a level's content gets loaded.

use vstd::prelude::*;

use crate::err::DorpErr;
use crate::graphics::sync_data::SyncData;
use crate::ids::{Id, IdManager};
use crate::world::World;

verus! {

/// A setup routine the library's user supplies: it may allocate ids, fill
/// the world with entities, and seed the uniform store. The engine states
/// nothing about what an implementation does.
pub trait SceneSetup<T>: Sized {
    fn setup(
        &mut self,
        manager: &mut IdManager,
        world: &mut World<T>,
        sync_data: &mut SyncData,
    ) -> Result<(), DorpErr>;
}

/// A scene: a stored setup routine, run exactly once.
pub struct Scene<S> {
    setup: S,
}

impl<S> Scene<S> {
    /// The stored setup routine.
    pub closed spec fn setup_spec(&self) -> S {
        self.setup
    }

    /// A scene that will run exactly the given setup routine.
    pub fn new(setup: S) -> (r: Scene<S>)
        ensures
            r.setup_spec() == setup,
    {
        Scene { setup }
    }

    /// The scene's single mutating tick: it unconditionally queues its own
    /// removal, then hands the manager, world and uniform store to the
    /// setup routine, whose result it returns unchanged. The setup routine
    /// is user code: what it does to the world is its own.
    pub fn tick_mut<T>(
        &mut self,
        my_id: Id,
        manager: &mut IdManager,
        world: &mut World<T>,
        sync_data: &mut SyncData,
    ) -> Result<(), DorpErr> where S: SceneSetup<T> {
        world.queue_remove_entity(my_id);
        self.setup.setup(manager, world, sync_data)
    }
}

} // verus!
