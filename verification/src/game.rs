//! The scheduler: it owns the world, the uniform store and the tick
//! counter, runs the two-phase simulation tick, and runs the render pass.
//!
//! Phase 1 visits every entity read-only against the shared world; the
//! entity ticks are independent of each other and of visiting order, so a
//! worker pool may run them in any interleaving. Phase 2 is strictly
//! sequential: each enumerated entity is removed from the world, mutated
//! with exclusive access, and reinserted under its original key, so no two
//! mutating calls ever alias one entity. The wall clock, the event loop
//! and the worker pool live with the rendering backend, which drives this
//! scheduler with plain calls.

use vstd::prelude::*;

use crate::entity::{Entity, TickCount};
use crate::err::DorpErr;
use crate::graphics::frame::{DrawCall, Frame};
use crate::graphics::renderers::Renderers;
use crate::graphics::sync_data::SyncData;
use crate::ids::IdManager;
use crate::table::KeyEq;
use crate::input::{Button, ButtonState, Display, KeyCode, Keyboard, Mouse, MouseButton};
use crate::math::Vec2;
use crate::world::World;

verus! {

/// How many whole timesteps an accumulator holds, and what remains after
/// running them: the fixed-step decision the outer loop makes each turn.
pub fn accumulator_steps(accumulator_ns: u64, step_ns: u64) -> (r: (u64, u64))
    requires
        step_ns > 0,
    ensures
        r.0 == accumulator_ns / step_ns,
        r.1 == accumulator_ns % step_ns,
        r.1 < step_ns,
        accumulator_ns == r.0 * step_ns + r.1,
{
    proof {
        assert(accumulator_ns == (accumulator_ns / step_ns) * step_ns + accumulator_ns % step_ns)
            by (nonlinear_arith)
            requires
                step_ns > 0,
        ;
    }
    (accumulator_ns / step_ns, accumulator_ns % step_ns)
}

pub struct Game<T> {
    world: World<T>,
    sync_data: SyncData,
    thread_count: u32,
    tick_count: TickCount,
}

impl<T: Entity> Game<T> {
    pub closed spec fn world_spec(&self) -> World<T> {
        self.world
    }

    pub closed spec fn sync_data_spec(&self) -> SyncData {
        self.sync_data
    }

    pub closed spec fn tick_count_spec(&self) -> TickCount {
        self.tick_count
    }

    /// How many workers the backend should give the parallel phase.
    pub closed spec fn thread_count_spec(&self) -> u32 {
        self.thread_count
    }

    /// A game with an empty world at the given resolution, tick zero.
    pub fn new(thread_count: u32, resolution: Vec2) -> (r: Game<T>)
        ensures
            r.world_spec().entities_spec() == Map::<crate::ids::Id, T>::empty(),
            r.world_spec().names_spec() == Map::<Seq<char>, crate::ids::Id>::empty(),
            r.world_spec().pending_spec() == Seq::<crate::ids::Id>::empty(),
            r.world_spec().display_spec().resolution_spec() == resolution,
            r.tick_count_spec() == 0,
            r.thread_count_spec() == thread_count,
    {
        let keyboard = Keyboard::new();
        let mouse = Mouse::new();
        let display = Display::new(resolution);
        Game {
            world: World::new(keyboard, mouse, display),
            sync_data: SyncData::new(),
            thread_count,
            tick_count: 0,
        }
    }

    /// Shared access to the world.
    pub fn get_world(&self) -> (r: &World<T>)
        ensures
            *r == self.world_spec(),
    {
        &self.world
    }

    /// Exclusive access to the world. The world is owned outright, so
    /// exclusivity is the borrow itself and cannot fail.
    pub fn get_mut_world(&mut self) -> (r: &mut World<T>)
        ensures
            *r == old(self).world_spec(),
            final(self).world_spec() == *final(r),
            final(self).sync_data_spec() == old(self).sync_data_spec(),
            final(self).tick_count_spec() == old(self).tick_count_spec(),
            final(self).thread_count_spec() == old(self).thread_count_spec(),
    {
        &mut self.world
    }

    /// The number of workers the backend should give the parallel phase.
    pub fn get_thread_count(&self) -> (r: u32)
        ensures
            r == self.thread_count_spec(),
    {
        self.thread_count
    }

    /// The number of completed simulation ticks.
    pub fn get_tick_count(&self) -> (r: TickCount)
        ensures
            r == self.tick_count_spec(),
    {
        self.tick_count
    }

    /// Records a key event in the world's keyboard state.
    pub fn update_keyboard(&mut self, tick_number: u64, key_code: KeyCode, state: ButtonState)
        ensures
            final(self).world_spec().keyboard_spec().keys_spec() == old(self).world_spec().keyboard_spec().keys_spec().insert(
                key_code,
                Button { tick: tick_number, state },
            ),
            final(self).world_spec().mouse_spec() == old(self).world_spec().mouse_spec(),
            final(self).world_spec().display_spec() == old(self).world_spec().display_spec(),
            final(self).world_spec().entities_table() == old(self).world_spec().entities_table(),
            final(self).world_spec().names_spec() == old(self).world_spec().names_spec(),
            final(self).world_spec().pending_spec() == old(self).world_spec().pending_spec(),
            final(self).sync_data_spec() == old(self).sync_data_spec(),
            final(self).tick_count_spec() == old(self).tick_count_spec(),
    {
        self.world.set_key(key_code, Button::new(tick_number, state));
    }

    /// Records a mouse-button event in the world's mouse state.
    pub fn update_mouse_button(&mut self, tick_number: u64, mouse_button: MouseButton, state: ButtonState)
        ensures
            final(self).world_spec().mouse_spec().buttons_spec() == old(self).world_spec().mouse_spec().buttons_spec().insert(
                mouse_button,
                Button { tick: tick_number, state },
            ),
            final(self).world_spec().mouse_spec().position_spec() == old(self).world_spec().mouse_spec().position_spec(),
            final(self).world_spec().keyboard_spec() == old(self).world_spec().keyboard_spec(),
            final(self).world_spec().display_spec() == old(self).world_spec().display_spec(),
            final(self).world_spec().entities_table() == old(self).world_spec().entities_table(),
            final(self).world_spec().names_spec() == old(self).world_spec().names_spec(),
            final(self).world_spec().pending_spec() == old(self).world_spec().pending_spec(),
            final(self).sync_data_spec() == old(self).sync_data_spec(),
            final(self).tick_count_spec() == old(self).tick_count_spec(),
    {
        self.world.set_mouse_button(mouse_button, Button::new(tick_number, state));
    }

    /// Records the pointer position in the world's mouse state.
    pub fn update_mouse_pos(&mut self, mouse_pos: Vec2)
        ensures
            final(self).world_spec().mouse_spec().position_spec() == mouse_pos,
            final(self).world_spec().mouse_spec().buttons_spec() == old(self).world_spec().mouse_spec().buttons_spec(),
            final(self).world_spec().keyboard_spec() == old(self).world_spec().keyboard_spec(),
            final(self).world_spec().display_spec() == old(self).world_spec().display_spec(),
            final(self).world_spec().entities_table() == old(self).world_spec().entities_table(),
            final(self).world_spec().names_spec() == old(self).world_spec().names_spec(),
            final(self).world_spec().pending_spec() == old(self).world_spec().pending_spec(),
            final(self).sync_data_spec() == old(self).sync_data_spec(),
            final(self).tick_count_spec() == old(self).tick_count_spec(),
    {
        self.world.set_mouse_position(mouse_pos);
    }

    /// Records the display resolution in the world's display state.
    pub fn update_resolution(&mut self, resolution: Vec2)
        ensures
            final(self).world_spec().display_spec().resolution_spec() == resolution,
            final(self).world_spec().keyboard_spec() == old(self).world_spec().keyboard_spec(),
            final(self).world_spec().mouse_spec() == old(self).world_spec().mouse_spec(),
            final(self).world_spec().entities_table() == old(self).world_spec().entities_table(),
            final(self).world_spec().names_spec() == old(self).world_spec().names_spec(),
            final(self).world_spec().pending_spec() == old(self).world_spec().pending_spec(),
            final(self).sync_data_spec() == old(self).sync_data_spec(),
            final(self).tick_count_spec() == old(self).tick_count_spec(),
    {
        self.world.set_resolution(resolution);
    }

    /// The read-only phase of one simulation tick: every entity's
    /// read-only tick runs against the shared world, any failure is fatal
    /// to the tick. The world is borrowed shared, so the phase mutates
    /// nothing; only the entity ticks themselves (user code) can refuse,
    /// and with no entity there is nothing to refuse.
    pub fn tick_phase_one(&self, delta_ns: u64) -> (r: Result<(), DorpErr>)
        ensures
            self.world_spec().entities_spec() == Map::<crate::ids::Id, T>::empty() ==> r is Ok,
    {
        let entity_count = self.world.get_entities().len();
        let mut i: usize = 0;
        #[verifier::loop_isolation(false)]
        while i < entity_count
            invariant
                entity_count == self.world.entities_table().kvs().len(),
            decreases entity_count - i,
        {
            let pair = self.world.get_entities().get_index(i);
            match pair.1.tick(self.tick_count, delta_ns, &self.world) {
                Ok(()) => {},
                Err(err) => {
                    return Err(err);
                },
            }
            i = i + 1;
        }
        Ok(())
    }

    /// The mutating phase of one simulation tick: the entity keys are
    /// enumerated once and, for each, that single entity is removed from
    /// the world, runs its mutating tick with exclusive access to itself
    /// and to the rest of the world, and is reinserted under the original
    /// key; mutations one entity makes are visible to the next. The key
    /// is immutable: an entity that reports a changed id is reinserted
    /// under its original key and the change is refused as an error. What
    /// the entity ticks do to the world is the entities' own — with no
    /// entity the phase owes success and changes nothing — and on success
    /// the tick counter moves up by one; a failed phase leaves it alone.
    pub fn tick_phase_two(&mut self, manager: &mut IdManager) -> (r: Result<(), DorpErr>)
        requires
            old(self).tick_count_spec() < TickCount::MAX,
        ensures
            r is Ok ==> final(self).tick_count_spec() == old(self).tick_count_spec() + 1,
            r is Err ==> final(self).tick_count_spec() == old(self).tick_count_spec(),
            final(self).thread_count_spec() == old(self).thread_count_spec(),
            old(self).world_spec().entities_spec() == Map::<crate::ids::Id, T>::empty() ==> {
                &&& r is Ok
                &&& final(self).world_spec() == old(self).world_spec()
                &&& final(self).sync_data_spec() == old(self).sync_data_spec()
            },
    {
        let keys = self.world.get_entities().keys();
        let mut i: usize = 0;
        #[verifier::loop_isolation(false)]
        while i < keys.len()
            invariant
                self.tick_count == old(self).tick_count,
                self.thread_count == old(self).thread_count,
                old(self).world_spec().entities_spec() == Map::<crate::ids::Id, T>::empty()
                    ==> self.world == old(self).world && self.sync_data == old(self).sync_data,
            decreases keys@.len() - i,
        {
            let id = keys[i];
            let mut entity = match self.world.take_entity_by_id(id) {
                Some(entity) => entity,
                None => {
                    return Err(DorpErr::EntityMissing);
                },
            };
            match entity.tick_mut(self.tick_count, manager, &mut self.world, &mut self.sync_data) {
                Ok(()) => {},
                Err(err) => {
                    return Err(err);
                },
            }
            let reported = entity.get_id();
            self.world.get_mut_entities().insert(id, entity);
            if !reported.key_eq(&id) {
                return Err(DorpErr::EntityIdChanged);
            }
            i = i + 1;
        }
        self.tick_count = self.tick_count + 1;
        Ok(())
    }

    /// One simulation tick: the read-only phase, then the mutating phase.
    /// A rendering backend with a worker pool runs the read-only phase
    /// itself (one task per entity, joined before any mutation) and then
    /// calls `tick_phase_two` directly.
    pub fn tick(&mut self, delta_ns: u64, manager: &mut IdManager) -> (r: Result<(), DorpErr>)
        requires
            old(self).tick_count_spec() < TickCount::MAX,
        ensures
            r is Ok ==> final(self).tick_count_spec() == old(self).tick_count_spec() + 1,
            r is Err ==> final(self).tick_count_spec() == old(self).tick_count_spec(),
            final(self).thread_count_spec() == old(self).thread_count_spec(),
            old(self).world_spec().entities_spec() == Map::<crate::ids::Id, T>::empty() ==> {
                &&& r is Ok
                &&& final(self).world_spec() == old(self).world_spec()
                &&& final(self).sync_data_spec() == old(self).sync_data_spec()
            },
    {
        match self.tick_phase_one(delta_ns) {
            Ok(()) => {},
            Err(err) => {
                return Err(err);
            },
        }
        self.tick_phase_two(manager)
    }

    /// One render pass: every entity flushes its staged changes into the
    /// renderer tables and the uniform store (again by exclusive
    /// remove-and-reinsert), the world drains its deferred removals, and
    /// the remaining entities with populated renderables each contribute
    /// one draw call. On success the deferred-removal queue is empty, the
    /// surviving entity keys are exactly those that were present less
    /// those whose removal was queued, and the tables come back with the
    /// frame's draw calls, in entity order, at most one per surviving
    /// entity. The name registry and the input state pass through
    /// untouched on every path.
    pub fn render(&mut self, renderers: Renderers) -> (r: Result<(Renderers, Vec<DrawCall>), DorpErr>)
        ensures
            final(self).tick_count_spec() == old(self).tick_count_spec(),
            final(self).thread_count_spec() == old(self).thread_count_spec(),
            final(self).world_spec().names_spec() == old(self).world_spec().names_spec(),
            World::<T>::same_input(old(self).world_spec(), final(self).world_spec()),
            r is Ok ==> {
                &&& final(self).world_spec().pending_spec() == Seq::<crate::ids::Id>::empty()
                &&& final(self).world_spec().entities_spec().dom() == old(self).world_spec().entities_spec().dom().difference(
                    old(self).world_spec().pending_spec().to_set(),
                )
            },
            r matches Ok(out) ==> out.1@.len() <= final(self).world_spec().entities_table().kvs().len(),
            old(self).world_spec().entities_spec() == Map::<crate::ids::Id, T>::empty() ==> (
            match r {
                Ok(out) => out.0 == renderers && out.1@ == Seq::<DrawCall>::empty() && final(self).world_spec().entities_spec() == Map::<crate::ids::Id, T>::empty() && final(self).sync_data_spec() == old(self).sync_data_spec(),
                Err(_) => false,
            }),
    {
        let ghost renderers_in = renderers;
        let ghost is_empty = self.world.entities_spec() == Map::<crate::ids::Id, T>::empty();
        let mut renderers = renderers;
        let keys = self.world.get_entities().keys();
        let mut i: usize = 0;
        #[verifier::loop_isolation(false)]
        while i < keys.len()
            invariant
                self.tick_count == old(self).tick_count,
                self.thread_count == old(self).thread_count,
                self.world.names_spec() == old(self).world_spec().names_spec(),
                self.world.pending_spec() == old(self).world_spec().pending_spec(),
                World::<T>::same_input(old(self).world_spec(), self.world),
                self.world.entities_spec().dom() == old(self).world_spec().entities_spec().dom(),
                is_empty ==> self.world == old(self).world && self.sync_data == old(self).sync_data
                    && renderers == renderers_in,
            decreases keys@.len() - i,
        {
            let id = keys[i];
            let mut entity = match self.world.take_entity_by_id(id) {
                Some(entity) => entity,
                None => {
                    return Err(DorpErr::EntityMissing);
                },
            };
            let res = entity.render(&mut self.sync_data, &mut renderers);
            self.world.get_mut_entities().insert(id, entity);
            proof {
                assert(self.world.entities_spec().dom() =~= old(self).world_spec().entities_spec().dom());
            }
            match res {
                Ok(()) => {},
                Err(err) => {
                    return Err(err);
                },
            }
            i = i + 1;
        }
        self.world.tick_mut();
        proof {
            assert(self.world.entities_spec().dom() =~= old(self).world_spec().entities_spec().dom().difference(
                old(self).world_spec().pending_spec().to_set(),
            ));
            if is_empty {
                assert(self.world.entities_spec() =~= Map::<crate::ids::Id, T>::empty());
            }
        }
        let ghost world_drained = self.world;
        let ghost sync_drained = self.sync_data;
        let mut frame = Frame::new(renderers);
        let live = self.world.get_entities().keys();
        let mut i: usize = 0;
        #[verifier::loop_isolation(false)]
        while i < live.len()
            invariant
                i <= live@.len(),
                self.world == world_drained,
                self.sync_data == sync_drained,
                frame.draws_spec().len() <= i,
                is_empty ==> frame.draws_spec() == Seq::<DrawCall>::empty()
                    && frame.renderers_spec() == renderers_in,
            decreases live@.len() - i,
        {
            let id = live[i];
            match self.world.get_entity_by_id(id) {
                Some(entity) => {
                    match frame.draw_entity(entity, &self.sync_data) {
                        Ok(()) => {},
                        Err(err) => {
                            return Err(err);
                        },
                    }
                },
                None => {},
            }
            i = i + 1;
        }
        let (renderers_out, draws) = frame.end();
        Ok((renderers_out, draws))
    }
}

} // verus!
