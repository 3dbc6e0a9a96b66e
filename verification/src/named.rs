//! The name component: an entity's registration in the world's name
//! registry. Construction registers the name and fails if it is taken.

use vstd::prelude::*;

use crate::err::DorpErr;
use crate::ids::Id;
use crate::world::World;

verus! {

/// A registered entity name.
#[derive(Debug)]
pub struct Named {
    name: String,
}

impl Named {
    /// The name this component carries.
    pub closed spec fn name_spec(&self) -> Seq<char> {
        self.name@
    }

    /// Registers `name` for `id` in the world and carries it; a name that
    /// is already registered is refused and the registry keeps mapping it
    /// to the id registered first.
    pub fn new<T>(name: &str, id: Id, world: &mut World<T>) -> (r: Result<Named, DorpErr>)
        ensures
            old(world).names_spec().dom().contains(name@) ==> r == Err::<Named, DorpErr>(
                DorpErr::NameTaken,
            ) && final(world).names_spec() == old(world).names_spec(),
            !old(world).names_spec().dom().contains(name@) ==> (match r {
                Ok(named) => named.name_spec() == name@ && final(world).names_spec() == old(
                    world,
                ).names_spec().insert(name@, id),
                Err(_) => false,
            }),
            final(world).entities_table() == old(world).entities_table(),
            final(world).pending_spec() == old(world).pending_spec(),
            World::<T>::same_input(*old(world), *final(world)),
    {
        match world.register_name(id, name) {
            Ok(()) => Ok(Named { name: name.to_owned() }),
            Err(err) => Err(err),
        }
    }

    /// The name this component carries.
    pub fn get_name(&self) -> (r: &str)
        ensures
            r@ == self.name_spec(),
    {
        self.name.as_str()
    }
}

} // verus!
