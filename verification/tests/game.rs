use dorp::graphics::solid_color::Vertex as SolidVertex;
use dorp::{
    CullingMethod, DepthTestMethod, DorpErr, DrawMethod, Entity, Id, IdManager, IdType, Mat4,
    Named, Renderable, RenderableSolidColor, RendererType, Renderers, SyncData, TickCount,
    Transform, Vec2, Vec3, Vec4, World,
};

fn mat(tag: u32) -> Mat4 {
    Mat4::new(
        Vec4::new(tag, 0, 0, 0),
        Vec4::new(0, tag, 0, 0),
        Vec4::new(0, 0, tag, 0),
        Vec4::new(0, 0, 0, tag),
    )
}

/// A test entity: optionally named, optionally renderable, optionally
/// watching another entity's transform during the read phase, optionally
/// queueing another entity's removal during the mutate phase.
struct Actor {
    id: Id,
    named: Option<Named>,
    transform: Option<Transform>,
    renderable: Option<Renderable>,
    watch: Option<(&'static str, Vec3)>,
    remove_target: Option<Id>,
    steal_target: Option<Id>,
    become_id: Option<Id>,
}

impl Actor {
    fn plain(id: Id) -> Actor {
        Actor {
            id,
            named: None,
            transform: None,
            renderable: None,
            watch: None,
            remove_target: None,
            steal_target: None,
            become_id: None,
        }
    }
}

fn solid_renderable(manager: &mut IdManager) -> Renderable {
    let mut component = RenderableSolidColor::new(manager);
    component.set_vertices(vec![SolidVertex::new(Vec3::new(1, 0, 0))]);
    component.set_indices(vec![0]);
    component.set_draw_method(DrawMethod::Both(DepthTestMethod::IfLess, CullingMethod::Clockwise));
    component.set_perspective(mat(1), mat(1));
    component.set_view(mat(2), mat(2));
    component.set_model(mat(3), mat(3));
    component.set_color(Vec4::new(1, 2, 3, 4));
    let mut renderable = Renderable::new();
    renderable.set_solid_color(component);
    renderable
}

impl Entity for Actor {
    fn tick(&self, _tick_count: TickCount, _delta_ns: u64, world: &World<Actor>) -> Result<
        (),
        DorpErr,
    > {
        if let Some((name, expected)) = self.watch {
            match world.get_entity_by_name(name) {
                Some(other) => match other.get_transform() {
                    Some(transform) => {
                        if transform.get_position() != expected {
                            return Err(DorpErr::Base("watched transform moved".to_string()));
                        }
                    },
                    None => return Err(DorpErr::Base("watched entity has no transform".to_string())),
                },
                None => return Err(DorpErr::Base("watched entity not found".to_string())),
            }
        }
        Ok(())
    }

    fn tick_mut(
        &mut self,
        _tick_count: TickCount,
        _manager: &mut IdManager,
        world: &mut World<Actor>,
        _sync_data: &mut SyncData,
    ) -> Result<(), DorpErr> {
        if let Some(target) = self.remove_target {
            world.queue_remove_entity(target);
        }
        if let Some(target) = self.steal_target {
            let _ = world.take_entity_by_id(target);
        }
        if let Some(new_id) = self.become_id.take() {
            self.id = new_id;
        }
        Ok(())
    }

    fn render(&mut self, sync_data: &mut SyncData, renderers: &mut Renderers) -> Result<
        (),
        DorpErr,
    > {
        match &mut self.renderable {
            Some(renderable) => renderable.render(sync_data, renderers),
            None => Ok(()),
        }
    }

    fn get_renderable(&self) -> Option<&Renderable> {
        self.renderable.as_ref()
    }

    fn get_named(&self) -> Option<&Named> {
        self.named.as_ref()
    }

    fn get_transform(&self) -> Option<&Transform> {
        self.transform.as_ref()
    }

    fn get_id(&self) -> Id {
        self.id
    }
}

#[test]
fn two_phase_tick_and_render_pass_end_to_end() {
    let mut manager = IdManager::new();
    let mut game: dorp::Game<Actor> = dorp::Game::new(4, Vec2::new(640, 480));

    let a_id = Id::new(&mut manager, IdType::Entity);
    let b_id = Id::new(&mut manager, IdType::Entity);
    let c_id = Id::new(&mut manager, IdType::Entity);

    {
        let world = game.get_mut_world();

        let mut b_transform = Transform::new();
        b_transform.set_position(Vec3::new(5, 6, 7));
        let b_named = Named::new("B", b_id, world).expect("fresh name");
        let mut b = Actor::plain(b_id);
        b.named = Some(b_named);
        b.transform = Some(b_transform);
        b.renderable = Some(solid_renderable(&mut manager));
        b.remove_target = Some(c_id);

        let mut a = Actor::plain(a_id);
        a.watch = Some(("B", Vec3::new(5, 6, 7)));
        a.renderable = Some(solid_renderable(&mut manager));

        let c = Actor::plain(c_id);

        world.add_entity(a);
        world.add_entity(b);
        world.add_entity(c);
    }

    // Phase 1 reads B's transform from A without mutating anything;
    // phase 2 lets B queue C's removal.
    game.tick(16_000_000, &mut manager).expect("tick succeeds");
    assert_eq!(game.get_tick_count(), 1);

    // The removal is deferred: C is still present until the render pass
    // drains the queue.
    assert!(game.get_world().get_entity_by_id(c_id).is_some());

    let (renderers, draws) = game.render(Renderers::new()).expect("render succeeds");
    assert!(game.get_world().get_entity_by_id(a_id).is_some());
    assert!(game.get_world().get_entity_by_id(b_id).is_some());
    assert!(game.get_world().get_entity_by_id(c_id).is_none());
    assert_eq!(draws.len(), 2);
    assert!(draws.iter().all(|call| call.kind == RendererType::SolidColor));
    assert!(draws.iter().all(|call| call.color == Some(Vec4::new(1, 2, 3, 4))));

    // A second tick still sees a consistent world of two entities.
    game.tick(16_000_000, &mut manager).expect("second tick succeeds");
    assert_eq!(game.get_tick_count(), 2);
    let _ = renderers;
}

#[test]
fn a_failing_read_phase_is_fatal_and_leaves_the_counter_alone() {
    let mut manager = IdManager::new();
    let mut game: dorp::Game<Actor> = dorp::Game::new(1, Vec2::new(640, 480));
    let watcher_id = Id::new(&mut manager, IdType::Entity);
    {
        let world = game.get_mut_world();
        let mut watcher = Actor::plain(watcher_id);
        watcher.watch = Some(("nobody", Vec3::zero()));
        world.add_entity(watcher);
    }
    assert!(game.tick(16_000_000, &mut manager).is_err());
    assert_eq!(game.get_tick_count(), 0);
}

#[test]
fn input_events_update_the_world_through_the_game() {
    let mut game: dorp::Game<Actor> = dorp::Game::new(1, Vec2::new(640, 480));
    game.update_keyboard(7, 42, dorp::ButtonState::Pressed);
    assert_eq!(game.get_world().get_key(42).get_tick(), 7);
    game.update_mouse_button(8, 1, dorp::ButtonState::Pressed);
    assert_eq!(game.get_world().get_mouse_button(1).get_tick(), 8);
    game.update_mouse_pos(Vec2::new(3, 4));
    assert_eq!(game.get_world().get_mouse_position(), Vec2::new(3, 4));
    game.update_resolution(Vec2::new(800, 600));
    assert_eq!(game.get_world().get_resolution(), Vec2::new(800, 600));
    assert_eq!(game.get_thread_count(), 1);
}

#[test]
fn rendering_an_entity_with_an_empty_renderable_is_fatal() {
    let mut manager = IdManager::new();
    let mut game: dorp::Game<Actor> = dorp::Game::new(1, Vec2::new(640, 480));
    let id = Id::new(&mut manager, IdType::Entity);
    {
        let world = game.get_mut_world();
        let mut actor = Actor::plain(id);
        actor.renderable = Some(Renderable::new());
        world.add_entity(actor);
    }
    assert!(game.render(Renderers::new()).is_err());
}

#[test]
fn an_entity_taken_out_of_band_fails_the_mutating_phase() {
    let mut manager = IdManager::new();
    let mut game: dorp::Game<Actor> = dorp::Game::new(1, Vec2::new(640, 480));
    let thief_id = Id::new(&mut manager, IdType::Entity);
    let victim_id = Id::new(&mut manager, IdType::Entity);
    {
        let world = game.get_mut_world();
        let mut thief = Actor::plain(thief_id);
        thief.steal_target = Some(victim_id);
        world.add_entity(thief);
        world.add_entity(Actor::plain(victim_id));
    }
    // The thief removes the victim outright instead of queueing it, so the
    // phase-two enumeration misses the victim under its key.
    assert_eq!(game.tick(16_000_000, &mut manager), Err(DorpErr::EntityMissing));
    assert_eq!(game.get_tick_count(), 0);
}

#[test]
fn an_entity_that_changes_its_id_is_refused_and_kept_under_its_key() {
    let mut manager = IdManager::new();
    let mut game: dorp::Game<Actor> = dorp::Game::new(1, Vec2::new(640, 480));
    let old_id = Id::new(&mut manager, IdType::Entity);
    let new_id = Id::new(&mut manager, IdType::Entity);
    {
        let world = game.get_mut_world();
        let mut shifty = Actor::plain(old_id);
        shifty.become_id = Some(new_id);
        world.add_entity(shifty);
    }
    assert_eq!(game.tick(16_000_000, &mut manager), Err(DorpErr::EntityIdChanged));
    // The entity is still stored under the key it was enumerated with.
    assert!(game.get_world().get_entity_by_id(old_id).is_some());
    assert!(game.get_world().get_entity_by_id(new_id).is_none());
}

#[test]
fn the_phases_compose_like_one_tick()
{
    let mut manager = IdManager::new();
    let mut game: dorp::Game<Actor> = dorp::Game::new(1, Vec2::new(640, 480));
    let id = Id::new(&mut manager, IdType::Entity);
    game.get_mut_world().add_entity(Actor::plain(id));
    game.tick_phase_one(16_000_000).expect("read phase succeeds");
    assert_eq!(game.get_tick_count(), 0);
    game.tick_phase_two(&mut manager).expect("mutate phase succeeds");
    assert_eq!(game.get_tick_count(), 1);
}

#[test]
fn an_empty_world_ticks_and_renders_successfully() {
    let mut manager = IdManager::new();
    let mut game: dorp::Game<Actor> = dorp::Game::new(1, Vec2::new(640, 480));
    game.tick(16_000_000, &mut manager).expect("nothing can refuse");
    assert_eq!(game.get_tick_count(), 1);
    let (renderers, draws) = game.render(Renderers::new()).expect("nothing to draw");
    assert!(draws.is_empty());
    let _ = renderers;
}

#[test]
fn queued_removals_leave_the_store_during_the_render_pass() {
    let mut manager = IdManager::new();
    let mut game: dorp::Game<Actor> = dorp::Game::new(1, Vec2::new(640, 480));
    let keep = Id::new(&mut manager, IdType::Entity);
    let drop_one = Id::new(&mut manager, IdType::Entity);
    {
        let world = game.get_mut_world();
        world.add_entity(Actor::plain(keep));
        world.add_entity(Actor::plain(drop_one));
        world.queue_remove_entity(drop_one);
    }
    let (_, draws) = game.render(Renderers::new()).expect("render succeeds");
    assert!(draws.is_empty());
    assert!(game.get_world().get_entity_by_id(keep).is_some());
    assert!(game.get_world().get_entity_by_id(drop_one).is_none());
}

#[test]
fn accumulator_steps_counts_whole_timesteps() {
    assert_eq!(dorp::accumulator_steps(0, 16), (0, 0));
    assert_eq!(dorp::accumulator_steps(15, 16), (0, 15));
    assert_eq!(dorp::accumulator_steps(16, 16), (1, 0));
    assert_eq!(dorp::accumulator_steps(53, 16), (3, 5));
}
