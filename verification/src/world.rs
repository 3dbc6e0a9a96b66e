//! The authoritative store of entities by handle, a name registry, a
//! deferred-removal queue, and the input state. Removal is deferred: ids
//! queued for removal leave the store only when the next mutating tick
//! drains the queue, so iteration over entities is never invalidated
//! mid-tick.

use vstd::prelude::*;

use crate::entity::Entity;
use crate::err::DorpErr;
use crate::ids::Id;
use crate::input::{Button, Display, KeyCode, Keyboard, Mouse, MouseButton};
use crate::math::Vec2;
use crate::table::{
    kv_lookup, kvs_view, lemma_lookup_found, lemma_lookup_none, lemma_lookup_push,
    lemma_lookup_removed, Table,
};

verus! {

/// One name maps to at most one entity id; registering a taken name fails
/// and changes nothing.
struct NameRegistry {
    entries: Vec<(String, Id)>,
}

impl NameRegistry {
    /// The registered names (as character sequences) and their ids, in
    /// registration order.
    spec fn names_seq(&self) -> Seq<(Seq<char>, Id)> {
        self.entries@.map(|i: int, p: (String, Id)| (p.0@, p.1))
    }

    /// The registry as a dictionary from name to id.
    spec fn names_map(&self) -> Map<Seq<char>, Id> {
        kvs_view(self.names_seq())
    }

    #[verifier::type_invariant]
    spec fn inv(self) -> bool {
        forall|i: int, j: int|
            0 <= i < j < self.names_seq().len() ==> (#[trigger] self.names_seq()[i]).0 != (
            #[trigger] self.names_seq()[j]).0
    }

    fn new() -> (r: NameRegistry)
        ensures
            r.names_map() == Map::<Seq<char>, Id>::empty(),
    {
        let r = NameRegistry { entries: Vec::new() };
        proof {
            assert(r.names_seq() =~= Seq::<(Seq<char>, Id)>::empty());
            assert(r.names_map() =~= Map::<Seq<char>, Id>::empty());
        }
        r
    }

    fn index_of(&self, name: &String) -> (r: Option<usize>)
        ensures
            match r {
                Some(i) => i < self.names_seq().len() && self.names_seq()[i as int].0 == name@
                    && (forall|j: int|
                    0 <= j < i ==> (#[trigger] self.names_seq()[j]).0 != name@),
                None => forall|j: int|
                    0 <= j < self.names_seq().len() ==> (#[trigger] self.names_seq()[j]).0
                        != name@,
            },
    {
        let mut i: usize = 0;
        while i < self.entries.len()
            invariant
                i <= self.entries@.len(),
                forall|j: int| 0 <= j < i ==> (#[trigger] self.names_seq()[j]).0 != name@,
            decreases self.entries@.len() - i,
        {
            let entry = &self.entries[i];
            if entry.0 == *name {
                return Some(i);
            }
            i = i + 1;
        }
        None
    }

    fn get(&self, name: &String) -> (r: Option<Id>)
        ensures
            match r {
                Some(id) => self.names_map().dom().contains(name@) && id == self.names_map()[name@],
                None => !self.names_map().dom().contains(name@),
            },
    {
        proof {
            use_type_invariant(self);
        }
        match self.index_of(name) {
            Some(i) => {
                proof {
                    lemma_lookup_found(self.names_seq(), name@, i as int);
                }
                let entry = &self.entries[i];
                Some(entry.1)
            },
            None => {
                proof {
                    lemma_lookup_none(self.names_seq(), name@);
                }
                None
            },
        }
    }

    /// Registers `name` for `id`; a taken name is refused and the registry
    /// keeps mapping it to the id registered first.
    fn register(&mut self, name: String, id: Id) -> (r: bool)
        ensures
            r == !old(self).names_map().dom().contains(name@),
            !r ==> final(self).names_map() == old(self).names_map(),
            r ==> final(self).names_map() == old(self).names_map().insert(name@, id),
    {
        proof {
            use_type_invariant(&*self);
        }
        let ghost old_seq = self.names_seq();
        match self.index_of(&name) {
            Some(i) => {
                proof {
                    lemma_lookup_found(old_seq, name@, i as int);
                }
                false
            },
            None => {
                proof {
                    lemma_lookup_none(old_seq, name@);
                }
                let ghost name_view = name@;
                proof {
                    use_type_invariant(&*self);
                }
                let mut entries: Vec<(String, Id)> = Vec::new();
                core::mem::swap(&mut entries, &mut self.entries);
                entries.push((name, id));
                proof {
                    let new_seq = entries@.map(|j: int, p: (String, Id)| (p.0@, p.1));
                    assert(new_seq =~= old_seq.push((name_view, id)));
                    assert forall|m: int, n: int|
                        0 <= m < n < new_seq.len() implies (#[trigger] new_seq[m]).0 != (
                        #[trigger] new_seq[n]).0 by {
                        if n == old_seq.len() {
                            assert(new_seq[m] == old_seq[m]);
                            assert(new_seq[n] == (name_view, id));
                        } else {
                            assert(new_seq[m] == old_seq[m]);
                            assert(new_seq[n] == old_seq[n]);
                        }
                    }
                }
                self.entries = entries;
                proof {
                    assert(self.names_seq() =~= old_seq.push((name_view, id)));
                    assert forall|k2: Seq<char>| true implies kv_lookup(self.names_seq(), k2) == (
                    if kv_lookup(old_seq, k2) is Some {
                        kv_lookup(old_seq, k2)
                    } else if k2 == name_view {
                        Some(id)
                    } else {
                        None::<Id>
                    }) by {
                        lemma_lookup_push(old_seq, name_view, id, k2);
                    }
                    assert(self.names_map() =~= old(self).names_map().insert(name_view, id));
                }
                true
            },
        }
    }

    /// Removes `name`; an unregistered name is refused and the registry is
    /// unchanged.
    fn deregister(&mut self, name: &String) -> (r: bool)
        ensures
            r == old(self).names_map().dom().contains(name@),
            !r ==> final(self).names_map() == old(self).names_map(),
            r ==> final(self).names_map() == old(self).names_map().remove(name@),
    {
        proof {
            use_type_invariant(&*self);
        }
        let ghost old_seq = self.names_seq();
        match self.index_of(name) {
            Some(i) => {
                proof {
                    lemma_lookup_found(old_seq, name@, i as int);
                }
                let mut entries: Vec<(String, Id)> = Vec::new();
                core::mem::swap(&mut entries, &mut self.entries);
                entries.remove(i);
                proof {
                    let new_seq = entries@.map(|j: int, p: (String, Id)| (p.0@, p.1));
                    assert(new_seq =~= old_seq.remove(i as int));
                    assert forall|m: int, n: int|
                        0 <= m < n < new_seq.len() implies (#[trigger] new_seq[m]).0 != (
                        #[trigger] new_seq[n]).0 by {
                        assert(old_seq.remove(i as int)[m] == (if m < i {
                            old_seq[m]
                        } else {
                            old_seq[m + 1]
                        }));
                        assert(old_seq.remove(i as int)[n] == (if n < i {
                            old_seq[n]
                        } else {
                            old_seq[n + 1]
                        }));
                    }
                }
                self.entries = entries;
                proof {
                    assert(self.names_seq() =~= old_seq.remove(i as int));
                    assert forall|k2: Seq<char>| true implies kv_lookup(self.names_seq(), k2) == (
                    if k2 == old_seq[i as int].0 {
                        None::<Id>
                    } else {
                        kv_lookup(old_seq, k2)
                    }) by {
                        lemma_lookup_removed(old_seq, i as int, k2);
                    }
                    assert(self.names_map() =~= old(self).names_map().remove(name@));
                }
                true
            },
            None => {
                proof {
                    lemma_lookup_none(old_seq, name@);
                }
                false
            },
        }
    }
}

/// The world: entities by id, the name registry, the deferred-removal
/// queue, and the input state owned on behalf of the control thread.
pub struct World<T> {
    keyboard: Keyboard,
    mouse: Mouse,
    display: Display,
    entities: Table<Id, T>,
    names: NameRegistry,
    to_remove: Vec<Id>,
}

impl<T> World<T> {
    /// The entity table itself, with its iteration order.
    pub closed spec fn entities_table(&self) -> Table<Id, T> {
        self.entities
    }

    /// The entities, as a dictionary by id.
    pub open spec fn entities_spec(&self) -> Map<Id, T> {
        self.entities_table()@
    }

    /// The registered names and their ids.
    pub closed spec fn names_spec(&self) -> Map<Seq<char>, Id> {
        self.names.names_map()
    }

    /// The ids queued for removal, oldest first.
    pub closed spec fn pending_spec(&self) -> Seq<Id> {
        self.to_remove@
    }

    pub closed spec fn keyboard_spec(&self) -> Keyboard {
        self.keyboard
    }

    pub closed spec fn mouse_spec(&self) -> Mouse {
        self.mouse
    }

    pub closed spec fn display_spec(&self) -> Display {
        self.display
    }

    /// The input state is the same in both worlds.
    pub open spec fn same_input(pre: World<T>, post: World<T>) -> bool {
        &&& post.keyboard_spec() == pre.keyboard_spec()
        &&& post.mouse_spec() == pre.mouse_spec()
        &&& post.display_spec() == pre.display_spec()
    }

    /// A world with no entities, no names and nothing queued.
    pub fn new(keyboard: Keyboard, mouse: Mouse, display: Display) -> (r: World<T>)
        ensures
            r.entities_spec() == Map::<Id, T>::empty(),
            r.names_spec() == Map::<Seq<char>, Id>::empty(),
            r.pending_spec() == Seq::<Id>::empty(),
            r.keyboard_spec() == keyboard,
            r.mouse_spec() == mouse,
            r.display_spec() == display,
    {
        World {
            keyboard,
            mouse,
            display,
            entities: Table::new(),
            names: NameRegistry::new(),
            to_remove: Vec::new(),
        }
    }

    /// Records a key state.
    pub fn set_key(&mut self, key_code: KeyCode, key: Button)
        ensures
            final(self).keyboard_spec().keys_spec() == old(self).keyboard_spec().keys_spec().insert(
                key_code,
                key,
            ),
            final(self).mouse_spec() == old(self).mouse_spec(),
            final(self).display_spec() == old(self).display_spec(),
            final(self).entities_table() == old(self).entities_table(),
            final(self).names_spec() == old(self).names_spec(),
            final(self).pending_spec() == old(self).pending_spec(),
    {
        self.keyboard.set_key_state(key_code, key);
    }

    /// Records a mouse-button state.
    pub fn set_mouse_button(&mut self, mouse_button: MouseButton, button: Button)
        ensures
            final(self).mouse_spec().buttons_spec() == old(self).mouse_spec().buttons_spec().insert(
                mouse_button,
                button,
            ),
            final(self).mouse_spec().position_spec() == old(self).mouse_spec().position_spec(),
            final(self).keyboard_spec() == old(self).keyboard_spec(),
            final(self).display_spec() == old(self).display_spec(),
            final(self).entities_table() == old(self).entities_table(),
            final(self).names_spec() == old(self).names_spec(),
            final(self).pending_spec() == old(self).pending_spec(),
    {
        self.mouse.set_mouse_button(mouse_button, button);
    }

    /// Records the pointer position.
    pub fn set_mouse_position(&mut self, pos: Vec2)
        ensures
            final(self).mouse_spec().position_spec() == pos,
            final(self).mouse_spec().buttons_spec() == old(self).mouse_spec().buttons_spec(),
            final(self).keyboard_spec() == old(self).keyboard_spec(),
            final(self).display_spec() == old(self).display_spec(),
            final(self).entities_table() == old(self).entities_table(),
            final(self).names_spec() == old(self).names_spec(),
            final(self).pending_spec() == old(self).pending_spec(),
    {
        self.mouse.set_mouse_position(pos);
    }

    /// Records the display resolution.
    pub fn set_resolution(&mut self, resolution: Vec2)
        ensures
            final(self).display_spec().resolution_spec() == resolution,
            final(self).keyboard_spec() == old(self).keyboard_spec(),
            final(self).mouse_spec() == old(self).mouse_spec(),
            final(self).entities_table() == old(self).entities_table(),
            final(self).names_spec() == old(self).names_spec(),
            final(self).pending_spec() == old(self).pending_spec(),
    {
        self.display.set_resolution(resolution);
    }

    /// The recorded state of a key.
    pub fn get_key(&self, key_code: KeyCode) -> (r: Button)
        ensures
            r == self.keyboard_spec().key_spec(key_code),
    {
        self.keyboard.get_key(key_code)
    }

    /// The recorded state of a mouse button.
    pub fn get_mouse_button(&self, mouse_button: MouseButton) -> (r: Button)
        ensures
            r == self.mouse_spec().button_spec(mouse_button),
    {
        self.mouse.get_button(mouse_button)
    }

    /// The recorded pointer position.
    pub fn get_mouse_position(&self) -> (r: Vec2)
        ensures
            r == self.mouse_spec().position_spec(),
    {
        self.mouse.get_mouse_position()
    }

    /// The recorded display resolution.
    pub fn get_resolution(&self) -> (r: Vec2)
        ensures
            r == self.display_spec().resolution_spec(),
    {
        self.display.get_resolution()
    }

    /// Shared access to the entity table.
    pub fn get_entities(&self) -> (r: &Table<Id, T>)
        ensures
            *r == self.entities_table(),
    {
        &self.entities
    }

    /// Exclusive access to the entity table.
    pub fn get_mut_entities(&mut self) -> (r: &mut Table<Id, T>)
        ensures
            *r == old(self).entities_table(),
            final(self).entities_table() == *final(r),
            final(self).names_spec() == old(self).names_spec(),
            final(self).pending_spec() == old(self).pending_spec(),
            World::<T>::same_input(*old(self), *final(self)),
    {
        &mut self.entities
    }

    /// Drains the deferred-removal queue: exactly the queued ids leave the
    /// entity store; ids not present are ignored.
    pub fn tick_mut(&mut self)
        ensures
            final(self).entities_spec() == old(self).entities_spec().remove_keys(
                old(self).pending_spec().to_set(),
            ),
            final(self).pending_spec() == Seq::<Id>::empty(),
            final(self).names_spec() == old(self).names_spec(),
            World::<T>::same_input(*old(self), *final(self)),
    {
        let ghost old_entities = self.entities@;
        let ghost pending = self.to_remove@;
        let mut i: usize = 0;
        while i < self.to_remove.len()
            invariant
                i <= self.to_remove@.len(),
                self.to_remove@ == pending,
                self.entities@ == old_entities.remove_keys(pending.take(i as int).to_set()),
                self.names.names_map() == old(self).names.names_map(),
                self.keyboard == old(self).keyboard,
                self.mouse == old(self).mouse,
                self.display == old(self).display,
            decreases self.to_remove@.len() - i,
        {
            let id = self.to_remove[i];
            self.entities.remove(&id);
            proof {
                lemma_take_set_step(pending, i as int);
                assert(self.entities@ =~= old_entities.remove_keys(
                    pending.take(i + 1 as int).to_set(),
                ));
            }
            i = i + 1;
        }
        proof {
            assert(pending.take(pending.len() as int) =~= pending);
        }
        self.to_remove.clear();
    }

    /// Queues `id` for removal at the next mutating tick. Queueing an
    /// absent or already-queued id is safe: draining ignores it.
    pub fn queue_remove_entity(&mut self, id: Id)
        ensures
            final(self).pending_spec() == old(self).pending_spec().push(id),
            final(self).entities_table() == old(self).entities_table(),
            final(self).names_spec() == old(self).names_spec(),
            World::<T>::same_input(*old(self), *final(self)),
    {
        self.to_remove.push(id);
    }

    /// The entity stored under `id`, if any.
    pub fn get_entity_by_id(&self, id: Id) -> (r: Option<&T>)
        ensures
            match r {
                Some(e) => self.entities_spec().dom().contains(id) && *e == self.entities_spec()[id],
                None => !self.entities_spec().dom().contains(id),
            },
    {
        self.entities.get(&id)
    }

    /// Exclusive access to the entity stored under `id`, if any. The
    /// store keeps its keys and their order; only that entity's state may
    /// change through the borrow.
    pub fn get_mut_entity_by_id(&mut self, id: Id) -> (r: Option<&mut T>)
        ensures
            final(self).names_spec() == old(self).names_spec(),
            final(self).pending_spec() == old(self).pending_spec(),
            World::<T>::same_input(*old(self), *final(self)),
            match r {
                Some(e) => {
                    &&& old(self).entities_spec().dom().contains(id)
                    &&& *e == old(self).entities_spec()[id]
                    &&& final(self).entities_spec() == old(self).entities_spec().insert(
                        id,
                        *final(e),
                    )
                },
                None => {
                    &&& !old(self).entities_spec().dom().contains(id)
                    &&& final(self).entities_table() == old(self).entities_table()
                },
            },
    {
        match self.entities.get_mut(&id) {
            Some(e) => Some(e),
            None => None,
        }
    }

    /// Exclusive access to the entity registered under `name`, if the
    /// name is registered and its id is present.
    pub fn get_mut_entity_by_name(&mut self, name: &str) -> (r: Option<&mut T>)
        ensures
            final(self).names_spec() == old(self).names_spec(),
            final(self).pending_spec() == old(self).pending_spec(),
            World::<T>::same_input(*old(self), *final(self)),
            old(self).names_spec().dom().contains(name@) && old(self).entities_spec().dom().contains(
                old(self).names_spec()[name@],
            ) ==> (match r {
                Some(e) => *e == old(self).entities_spec()[old(self).names_spec()[name@]] && final(self).entities_spec() == old(self).entities_spec().insert(
                    old(self).names_spec()[name@],
                    *final(e),
                ),
                None => false,
            }),
            !(old(self).names_spec().dom().contains(name@) && old(self).entities_spec().dom().contains(old(self).names_spec()[name@])) ==> r is None && final(self).entities_table() == old(self).entities_table(),
    {
        let key: String = name.to_owned();
        let id = match self.names.get(&key) {
            Some(id) => id,
            None => {
                return None;
            },
        };
        self.get_mut_entity_by_id(id)
    }

    /// Removes and returns the entity stored under `id`, if any.
    pub fn take_entity_by_id(&mut self, id: Id) -> (r: Option<T>)
        ensures
            final(self).entities_spec() == old(self).entities_spec().remove(id),
            match r {
                Some(e) => old(self).entities_spec().dom().contains(id) && e == old(self).entities_spec()[id],
                None => !old(self).entities_spec().dom().contains(id),
            },
            final(self).names_spec() == old(self).names_spec(),
            final(self).pending_spec() == old(self).pending_spec(),
            World::<T>::same_input(*old(self), *final(self)),
    {
        self.entities.remove(&id)
    }

    /// The entity registered under `name`, if the name is registered and
    /// its id is present.
    pub fn get_entity_by_name(&self, name: &str) -> (r: Option<&T>)
        ensures
            self.names_spec().dom().contains(name@) && self.entities_spec().dom().contains(
                self.names_spec()[name@],
            ) ==> r is Some && *r.unwrap() == self.entities_spec()[self.names_spec()[name@]],
            !(self.names_spec().dom().contains(name@) && self.entities_spec().dom().contains(
                self.names_spec()[name@],
            )) ==> r is None,
    {
        let key: String = name.to_owned();
        match self.names.get(&key) {
            Some(id) => self.get_entity_by_id(id),
            None => None,
        }
    }

    /// Registers `name` for `id`. A name already registered is refused
    /// with `NameTaken` and keeps mapping to the id registered first.
    pub fn register_name(&mut self, id: Id, name: &str) -> (r: Result<(), DorpErr>)
        ensures
            old(self).names_spec().dom().contains(name@) ==> r == Err::<(), DorpErr>(
                DorpErr::NameTaken,
            ) && final(self).names_spec() == old(self).names_spec(),
            !old(self).names_spec().dom().contains(name@) ==> r is Ok && final(self).names_spec()
                == old(self).names_spec().insert(name@, id),
            final(self).entities_table() == old(self).entities_table(),
            final(self).pending_spec() == old(self).pending_spec(),
            World::<T>::same_input(*old(self), *final(self)),
    {
        let key: String = name.to_owned();
        if self.names.register(key, id) {
            Ok(())
        } else {
            Err(DorpErr::NameTaken)
        }
    }

    /// Removes `name` from the registry. An unregistered name is refused
    /// with `NameNotRegistered` and leaves the registry unchanged.
    pub fn deregister_name(&mut self, name: &str) -> (r: Result<(), DorpErr>)
        ensures
            old(self).names_spec().dom().contains(name@) ==> r is Ok && final(self).names_spec()
                == old(self).names_spec().remove(name@),
            !old(self).names_spec().dom().contains(name@) ==> r == Err::<(), DorpErr>(
                DorpErr::NameNotRegistered,
            ) && final(self).names_spec() == old(self).names_spec(),
            final(self).entities_table() == old(self).entities_table(),
            final(self).pending_spec() == old(self).pending_spec(),
            World::<T>::same_input(*old(self), *final(self)),
    {
        let key: String = name.to_owned();
        if self.names.deregister(&key) {
            Ok(())
        } else {
            Err(DorpErr::NameNotRegistered)
        }
    }
}

impl<T: Entity> World<T> {
    /// Stores `entity` under the id it reports; an id collision keeps the
    /// last write.
    pub fn add_entity(&mut self, entity: T)
        ensures
            exists|i: Id| final(self).entities_spec() == old(self).entities_spec().insert(i, entity),
            final(self).names_spec() == old(self).names_spec(),
            final(self).pending_spec() == old(self).pending_spec(),
            World::<T>::same_input(*old(self), *final(self)),
    {
        let id = entity.get_id();
        self.entities.insert(id, entity);
        proof {
            assert(self.entities_spec() == old(self).entities_spec().insert(id, entity));
        }
    }
}

/// Queueing one id and then draining the queue removes exactly that entity
/// and no other; an id that is absent leaves the store unchanged.
pub proof fn lemma_remove_exactly_one<T>(entities: Map<Id, T>, id: Id)
    ensures
        entities.remove_keys(Seq::<Id>::empty().push(id).to_set()) =~= entities.remove(id),
        !entities.dom().contains(id) ==> entities.remove_keys(
            Seq::<Id>::empty().push(id).to_set(),
        ) =~= entities,
{
    let s = Seq::<Id>::empty().push(id);
    assert(s[0] == id);
    assert(s.contains(id));
    assert forall|a: Id| #[trigger] s.to_set().contains(a) implies a == id by {
        let j = choose|j: int| 0 <= j < s.len() && #[trigger] s[j] == a;
    }
    assert(s.to_set() =~= Set::<Id>::empty().insert(id));
}

proof fn lemma_take_set_step(s: Seq<Id>, i: int)
    requires
        0 <= i < s.len(),
    ensures
        s.take(i + 1).to_set() == s.take(i).to_set().insert(s[i]),
{
    assert(s.take(i + 1) =~= s.take(i).push(s[i]));
    assert forall|a: Id| #[trigger] s.take(i + 1).to_set().contains(a) implies s.take(
        i,
    ).to_set().insert(s[i]).contains(a) by {
        let j = choose|j: int| 0 <= j < s.take(i + 1).len() && #[trigger] s.take(i + 1)[j] == a;
        if j < i {
            assert(s.take(i)[j] == a);
            assert(s.take(i).contains(a));
        }
    }
    assert forall|a: Id| s.take(i).to_set().insert(s[i]).contains(a) implies #[trigger] s.take(
        i + 1,
    ).to_set().contains(a) by {
        if a == s[i] {
            assert(s.take(i + 1)[i] == a);
            assert(s.take(i + 1).contains(a));
        } else {
            let j = choose|j: int| 0 <= j < s.take(i).len() && #[trigger] s.take(i)[j] == a;
            assert(s.take(i + 1)[j] == a);
            assert(s.take(i + 1).contains(a));
        }
    }
    assert(s.take(i + 1).to_set() =~= s.take(i).to_set().insert(s[i]));
}

} // verus!
