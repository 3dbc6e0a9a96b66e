use dorp::{
    Button, ButtonState, Display, DorpErr, Entity, Id, IdManager, IdType, Keyboard, Mouse, Named,
    Renderable, Renderers, SyncData, TickCount, Transform, Vec2, World,
};

struct Unit {
    id: Id,
}

impl Entity for Unit {
    fn tick(&self, _tick_count: TickCount, _delta_ns: u64, _world: &World<Unit>) -> Result<
        (),
        DorpErr,
    > {
        Ok(())
    }

    fn tick_mut(
        &mut self,
        _tick_count: TickCount,
        _manager: &mut IdManager,
        _world: &mut World<Unit>,
        _sync_data: &mut SyncData,
    ) -> Result<(), DorpErr> {
        Ok(())
    }

    fn render(&mut self, _sync_data: &mut SyncData, _renderers: &mut Renderers) -> Result<
        (),
        DorpErr,
    > {
        Ok(())
    }

    fn get_renderable(&self) -> Option<&Renderable> {
        None
    }

    fn get_named(&self) -> Option<&Named> {
        None
    }

    fn get_transform(&self) -> Option<&Transform> {
        None
    }

    fn get_id(&self) -> Id {
        self.id
    }
}

fn new_world() -> World<Unit> {
    World::new(Keyboard::new(), Mouse::new(), Display::new(Vec2::new(0, 0)))
}

#[test]
fn add_then_look_up_by_id() {
    let mut manager = IdManager::new();
    let mut world = new_world();
    let a = Id::new(&mut manager, IdType::Entity);
    let b = Id::new(&mut manager, IdType::Entity);
    world.add_entity(Unit { id: a });
    world.add_entity(Unit { id: b });
    assert!(world.get_entity_by_id(a).is_some());
    assert!(world.get_entity_by_id(b).is_some());
    let c = Id::new(&mut manager, IdType::Entity);
    assert!(world.get_entity_by_id(c).is_none());
}

#[test]
fn queue_remove_then_tick_removes_exactly_that_entity() {
    let mut manager = IdManager::new();
    let mut world = new_world();
    let a = Id::new(&mut manager, IdType::Entity);
    let b = Id::new(&mut manager, IdType::Entity);
    let c = Id::new(&mut manager, IdType::Entity);
    world.add_entity(Unit { id: a });
    world.add_entity(Unit { id: b });
    world.add_entity(Unit { id: c });
    world.queue_remove_entity(b);
    assert!(world.get_entity_by_id(b).is_some());
    world.tick_mut();
    assert!(world.get_entity_by_id(a).is_some());
    assert!(world.get_entity_by_id(b).is_none());
    assert!(world.get_entity_by_id(c).is_some());
}

#[test]
fn queue_remove_of_absent_or_removed_id_is_a_no_op() {
    let mut manager = IdManager::new();
    let mut world = new_world();
    let a = Id::new(&mut manager, IdType::Entity);
    let ghost = Id::new(&mut manager, IdType::Entity);
    world.add_entity(Unit { id: a });
    world.queue_remove_entity(ghost);
    world.tick_mut();
    assert!(world.get_entity_by_id(a).is_some());
    world.queue_remove_entity(a);
    world.tick_mut();
    world.queue_remove_entity(a);
    world.tick_mut();
    assert!(world.get_entity_by_id(a).is_none());
}

#[test]
fn register_name_twice_fails_and_keeps_the_first_id() {
    let mut manager = IdManager::new();
    let mut world = new_world();
    let first = Id::new(&mut manager, IdType::Entity);
    let second = Id::new(&mut manager, IdType::Entity);
    world.add_entity(Unit { id: first });
    world.add_entity(Unit { id: second });
    assert!(world.register_name(first, "x").is_ok());
    assert_eq!(world.register_name(second, "x"), Err(DorpErr::NameTaken));
    let found = world.get_entity_by_name("x").expect("name should resolve");
    assert_eq!(found.get_id(), first);
}

#[test]
fn deregister_of_unregistered_name_fails_and_changes_nothing() {
    let mut manager = IdManager::new();
    let mut world = new_world();
    let a = Id::new(&mut manager, IdType::Entity);
    world.add_entity(Unit { id: a });
    world.register_name(a, "here").unwrap();
    assert_eq!(world.deregister_name("gone"), Err(DorpErr::NameNotRegistered));
    assert!(world.get_entity_by_name("here").is_some());
    assert!(world.deregister_name("here").is_ok());
    assert!(world.get_entity_by_name("here").is_none());
    assert_eq!(world.deregister_name("here"), Err(DorpErr::NameNotRegistered));
}

#[test]
fn named_component_registers_and_reports_its_name() {
    let mut manager = IdManager::new();
    let mut world = new_world();
    let a = Id::new(&mut manager, IdType::Entity);
    let b = Id::new(&mut manager, IdType::Entity);
    world.add_entity(Unit { id: a });
    let named = Named::new("hero", a, &mut world).expect("fresh name");
    assert_eq!(named.get_name(), "hero");
    match Named::new("hero", b, &mut world) {
        Err(DorpErr::NameTaken) => {},
        other => panic!("expected the name to be taken, got {:?}", other.map(|n| n.get_name().to_string())),
    }
}

#[test]
fn take_entity_by_id_removes_it() {
    let mut manager = IdManager::new();
    let mut world = new_world();
    let a = Id::new(&mut manager, IdType::Entity);
    world.add_entity(Unit { id: a });
    let taken = world.take_entity_by_id(a).expect("present");
    assert_eq!(taken.get_id(), a);
    assert!(world.take_entity_by_id(a).is_none());
}

#[test]
fn input_state_lives_on_the_world() {
    let mut world = new_world();
    world.set_key(10, Button::new(3, ButtonState::Pressed));
    let key = world.get_key(10);
    assert_eq!(key.get_tick(), 3);
    assert_eq!(key.get_state(), ButtonState::Pressed);
    let untouched = world.get_key(11);
    assert_eq!(untouched.get_state(), ButtonState::Released);
    assert_eq!(untouched.get_tick(), 0);
    world.set_mouse_button(1, Button::new(4, ButtonState::Pressed));
    assert_eq!(world.get_mouse_button(1).get_tick(), 4);
    world.set_mouse_position(Vec2::new(8, 9));
    assert_eq!(world.get_mouse_position(), Vec2::new(8, 9));
    world.set_resolution(Vec2::new(100, 200));
    assert_eq!(world.get_resolution(), Vec2::new(100, 200));
}

#[test]
fn get_mut_entity_by_id_lets_one_entity_change_in_place() {
    let mut manager = IdManager::new();
    let mut world = new_world();
    let a = Id::new(&mut manager, IdType::Entity);
    let b = Id::new(&mut manager, IdType::Entity);
    world.add_entity(Unit { id: a });
    world.add_entity(Unit { id: b });
    {
        let entity = world.get_mut_entity_by_id(a).expect("present");
        entity.id = b;
    }
    assert_eq!(world.get_entity_by_id(a).expect("key unchanged").get_id(), b);
    assert_eq!(world.get_entity_by_id(b).expect("untouched").get_id(), b);
    let ghost_id = Id::new(&mut manager, IdType::Entity);
    assert!(world.get_mut_entity_by_id(ghost_id).is_none());
}

#[test]
fn get_mut_entity_by_name_resolves_through_the_registry() {
    let mut manager = IdManager::new();
    let mut world = new_world();
    let a = Id::new(&mut manager, IdType::Entity);
    let b = Id::new(&mut manager, IdType::Entity);
    world.add_entity(Unit { id: a });
    world.register_name(a, "hero").unwrap();
    {
        let entity = world.get_mut_entity_by_name("hero").expect("registered and present");
        entity.id = b;
    }
    assert_eq!(world.get_entity_by_id(a).expect("still under its key").get_id(), b);
    assert!(world.get_mut_entity_by_name("villain").is_none());
    // A registered name whose entity is gone resolves to nothing.
    world.register_name(b, "ghost").unwrap();
    assert!(world.get_mut_entity_by_name("ghost").is_none());
}
