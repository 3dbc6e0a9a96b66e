use dorp::{
    Display, DorpErr, Entity, Id, IdManager, IdType, Keyboard, Mouse, Named, Renderable,
    Renderers, Scene, SceneSetup, SyncData, TickCount, Transform, Vec2, World,
};

struct Unit {
    id: Id,
}

impl Entity for Unit {
    fn tick(&self, _tick_count: TickCount, _delta_ns: u64, _world: &World<Unit>) -> Result<
        (),
        DorpErr,
    > {
        Ok(())
    }

    fn tick_mut(
        &mut self,
        _tick_count: TickCount,
        _manager: &mut IdManager,
        _world: &mut World<Unit>,
        _sync_data: &mut SyncData,
    ) -> Result<(), DorpErr> {
        Ok(())
    }

    fn render(&mut self, _sync_data: &mut SyncData, _renderers: &mut Renderers) -> Result<
        (),
        DorpErr,
    > {
        Ok(())
    }

    fn get_renderable(&self) -> Option<&Renderable> {
        None
    }

    fn get_named(&self) -> Option<&Named> {
        None
    }

    fn get_transform(&self) -> Option<&Transform> {
        None
    }

    fn get_id(&self) -> Id {
        self.id
    }
}

struct LevelSetup {
    fail: bool,
}

impl SceneSetup<Unit> for LevelSetup {
    fn setup(
        &mut self,
        manager: &mut IdManager,
        world: &mut World<Unit>,
        _sync_data: &mut SyncData,
    ) -> Result<(), DorpErr> {
        if self.fail {
            return Err(DorpErr::Base("level failed to load".to_string()));
        }
        let id = Id::new(manager, IdType::Entity);
        world.add_entity(Unit { id });
        world.register_name(id, "spawned")?;
        Ok(())
    }
}

fn new_world() -> World<Unit> {
    World::new(Keyboard::new(), Mouse::new(), Display::new(Vec2::new(0, 0)))
}

#[test]
fn scene_runs_its_setup_once_and_queues_its_own_removal() {
    let mut manager = IdManager::new();
    let mut world = new_world();
    let mut sync = SyncData::new();
    let scene_id = Id::new(&mut manager, IdType::Entity);
    world.add_entity(Unit { id: scene_id });

    let mut scene = Scene::new(LevelSetup { fail: false });
    scene.tick_mut(scene_id, &mut manager, &mut world, &mut sync).expect("setup runs");

    // The setup's work is visible at once.
    assert!(world.get_entity_by_name("spawned").is_some());
    // The scene queued itself: the next drain removes it, and only it.
    assert!(world.get_entity_by_id(scene_id).is_some());
    world.tick_mut();
    assert!(world.get_entity_by_id(scene_id).is_none());
    assert!(world.get_entity_by_name("spawned").is_some());
}

#[test]
fn a_failing_setup_surfaces_its_error() {
    let mut manager = IdManager::new();
    let mut world = new_world();
    let mut sync = SyncData::new();
    let scene_id = Id::new(&mut manager, IdType::Entity);
    let mut scene = Scene::new(LevelSetup { fail: true });
    assert!(scene.tick_mut(scene_id, &mut manager, &mut world, &mut sync).is_err());
}
