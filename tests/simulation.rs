use bounce_sim::{
    random_velocities, setup, setup_with, AssetHandle, AssetTable, AttributeStore, DrawCommand,
    EntityId, KindSet, MissingAttribute, Position, RenderError, Renderable, Schedule, Stage,
    Velocity, World, GRID_SIZE, MAX_SPEED, SUBPIXELS, TEXTURE_NAME,
};

fn world_with(p: Position, v: Velocity) -> (World, EntityId) {
    let mut w = World::new();
    let e = w.create_entity();
    w.attach_position(e, p);
    w.attach_velocity(e, v);
    (w, e)
}

#[test]
fn update_without_crossing_adds_velocity() {
    let (mut w, e) = world_with(Position { x: 100_000, y: 200_000 }, Velocity { dx: 3_000, dy: -2_500 });
    w.run_update();
    assert_eq!(w.position(e), Ok(Position { x: 103_000, y: 197_500 }));
    assert_eq!(w.velocity(e), Ok(Velocity { dx: 3_000, dy: -2_500 }));
}

#[test]
fn update_reflects_at_right_and_bottom_edges() {
    let (mut w, e) = world_with(Position { x: 1_279_500, y: 719_900 }, Velocity { dx: 1_000, dy: 200 });
    w.run_update();
    assert_eq!(w.position(e), Ok(Position { x: 1_280_500, y: 720_100 }));
    assert_eq!(w.velocity(e), Ok(Velocity { dx: -1_000, dy: -200 }));
}

#[test]
fn update_keeps_velocity_exactly_on_the_edge() {
    let (mut w, e) = world_with(Position { x: 1_279_000, y: 1_000 }, Velocity { dx: 1_000, dy: -1_000 });
    w.run_update();
    assert_eq!(w.position(e), Ok(Position { x: 1_280_000, y: 0 }));
    assert_eq!(w.velocity(e), Ok(Velocity { dx: 1_000, dy: -1_000 }));
}

#[test]
fn corner_entity_overshoots_then_returns() {
    let (mut w, e) = world_with(Position { x: 0, y: 0 }, Velocity { dx: -SUBPIXELS, dy: -SUBPIXELS });
    w.run_update();
    assert_eq!(w.velocity(e), Ok(Velocity { dx: SUBPIXELS, dy: SUBPIXELS }));
    assert_eq!(w.position(e), Ok(Position { x: -SUBPIXELS, y: -SUBPIXELS }));
    w.run_update();
    assert_eq!(w.position(e), Ok(Position { x: 0, y: 0 }));
    assert_eq!(w.velocity(e), Ok(Velocity { dx: SUBPIXELS, dy: SUBPIXELS }));
}

#[test]
fn repeated_updates_extrapolate_linearly() {
    let (mut w, e) = world_with(Position { x: 10_000, y: 500_000 }, Velocity { dx: 1_500, dy: -700 });
    for _ in 0..25 {
        w.run_update();
    }
    assert_eq!(w.position(e), Ok(Position { x: 10_000 + 25 * 1_500, y: 500_000 - 25 * 700 }));
    assert_eq!(w.velocity(e), Ok(Velocity { dx: 1_500, dy: -700 }));
}

#[test]
fn update_skips_entities_without_velocity() {
    let mut w = World::new();
    let e = w.create_entity();
    w.attach_position(e, Position { x: 5, y: 6 });
    w.run_update();
    assert_eq!(w.position(e), Ok(Position { x: 5, y: 6 }));
    assert_eq!(w.velocity(e), Err(MissingAttribute { entity: e }));
}

#[test]
fn update_saturates_at_the_integer_limit() {
    let (mut w, e) = world_with(Position { x: i64::MAX - 1, y: 0 }, Velocity { dx: 5, dy: 0 });
    w.run_update();
    assert_eq!(w.position(e), Ok(Position { x: i64::MAX, y: 0 }));
    assert_eq!(w.velocity(e), Ok(Velocity { dx: -5, dy: 0 }));
}

#[test]
fn registry_issues_fresh_identities_and_tracks_kinds() {
    let mut w = World::new();
    let a = w.create_entity();
    let b = w.create_entity();
    assert_ne!(a, b);
    assert_eq!(w.len(), 2);
    w.attach_velocity(b, Velocity { dx: 1, dy: 1 });
    let moving = KindSet { position: true, velocity: true, renderable: false };
    assert!(!w.has(b, &moving));
    w.attach_position(b, Position { x: 0, y: 0 });
    assert!(w.has(b, &moving));
    assert!(!w.has(a, &moving));
    assert!(w.has(a, &KindSet::none()));
    assert!(!w.has(EntityId(7), &KindSet::none()));
    w.attach_position(b, Position { x: 9, y: 9 });
    assert_eq!(w.position(b), Ok(Position { x: 9, y: 9 }));
}

#[test]
fn store_reports_missing_attribute() {
    let mut s: AttributeStore<u32> = AttributeStore::new();
    assert_eq!(s.get(EntityId(3)), Err(MissingAttribute { entity: EntityId(3) }));
    s.set(EntityId(3), 42);
    s.set(EntityId(1), 7);
    assert_eq!(s.get(EntityId(3)), Ok(&42));
    assert!(s.contains(EntityId(1)));
    assert!(!s.contains(EntityId(2)));
    assert_eq!(s.entities(), vec![EntityId(1), EntityId(3)]);
    s.set(EntityId(3), 5);
    assert_eq!(s.get(EntityId(3)), Ok(&5));
}

#[test]
fn asset_lookup_is_idempotent() {
    let mut t = AssetTable::new();
    t.insert("goblin".to_string(), AssetHandle(4));
    t.insert("orc".to_string(), AssetHandle(9));
    let name = "goblin".to_string();
    let first = t.resolve(&name);
    let second = t.resolve(&name);
    assert_eq!(first, Some(AssetHandle(4)));
    assert_eq!(first, second);
    assert_eq!(t.resolve(&"troll".to_string()), None);
    t.insert("goblin".to_string(), AssetHandle(2));
    assert_eq!(t.resolve(&name), Some(AssetHandle(2)));
    assert_eq!(t.resolve(&"orc".to_string()), Some(AssetHandle(9)));
}

#[test]
fn render_truncates_positions_toward_zero() {
    let mut t = AssetTable::new();
    t.insert("goblin".to_string(), AssetHandle(0));
    let mut w = World::new();
    let a = w.create_entity();
    w.attach_position(a, Position { x: 1_999, y: -1_500 });
    w.attach_renderable(a, Renderable { resource_name: "goblin".to_string() });
    let b = w.create_entity();
    w.attach_position(b, Position { x: 3_000, y: 3_000 });
    let c = w.create_entity();
    w.attach_position(c, Position { x: -999, y: i64::MAX });
    w.attach_renderable(c, Renderable { resource_name: "goblin".to_string() });
    let draws = w.plan_frame(&t).unwrap();
    assert_eq!(
        draws,
        vec![
            DrawCommand { handle: AssetHandle(0), x: 1, y: -1 },
            DrawCommand { handle: AssetHandle(0), x: 0, y: i32::MAX },
        ]
    );
}

#[test]
fn render_rejects_an_unresolved_asset() {
    let t = AssetTable::new();
    let mut w = World::new();
    let a = w.create_entity();
    w.attach_position(a, Position { x: 0, y: 0 });
    w.attach_renderable(a, Renderable { resource_name: "missing".to_string() });
    assert_eq!(w.plan_frame(&t), Err(RenderError::UnresolvedAsset { entity: a }));
}

#[test]
fn stage_trace_reads_setup_then_frames() {
    let mut s = Schedule::new();
    let frames = 5;
    let mut trace = Vec::new();
    for _ in 0..(1 + 2 * frames) {
        trace.push(s.next_stage(false).unwrap());
    }
    let mut expected = vec![Stage::Setup];
    for _ in 0..frames {
        expected.push(Stage::Render);
        expected.push(Stage::Update);
    }
    assert_eq!(trace, expected);
    assert_eq!(trace.iter().filter(|st| **st == Stage::Setup).count(), 1);
    assert_eq!(s.next_stage(true), None);
    assert!(s.finished());
    assert_eq!(s.next_stage(false), None);
}

#[test]
fn close_signal_waits_for_the_frame_end() {
    let mut s = Schedule::new();
    assert_eq!(s.next_stage(true), Some(Stage::Setup));
    assert_eq!(s.next_stage(true), Some(Stage::Render));
    assert_eq!(s.next_stage(true), Some(Stage::Update));
    assert_eq!(s.next_stage(true), None);
    assert_eq!(s.issued(), 3);
}

#[test]
fn grid_setup_renders_every_entity_every_frame() {
    let mut w = World::new();
    let mut t = AssetTable::new();
    setup(&mut w, &mut t, AssetHandle(0));
    assert_eq!(w.len(), 400);
    assert_eq!(t.resolve(&TEXTURE_NAME.to_string()), Some(AssetHandle(0)));
    assert_eq!(w.position(EntityId(21)), Ok(Position { x: SUBPIXELS, y: SUBPIXELS }));
    for _ in 0..50 {
        let draws = w.plan_frame(&t).unwrap();
        assert_eq!(draws.len(), 400);
        w.run_update();
    }
}

#[test]
fn grid_setup_places_the_lattice() {
    let mut w = World::new();
    let mut t = AssetTable::new();
    let velocities: Vec<Velocity> = (0..GRID_SIZE as i64).map(|k| Velocity { dx: k, dy: -k }).collect();
    setup_with(&mut w, &mut t, AssetHandle(3), &velocities);
    assert_eq!(w.position(EntityId(0)), Ok(Position { x: 0, y: 0 }));
    assert_eq!(w.position(EntityId(19)), Ok(Position { x: 0, y: 19 * SUBPIXELS }));
    assert_eq!(w.position(EntityId(20)), Ok(Position { x: SUBPIXELS, y: 0 }));
    assert_eq!(w.position(EntityId(399)), Ok(Position { x: 19 * SUBPIXELS, y: 19 * SUBPIXELS }));
    assert_eq!(w.velocity(EntityId(57)), Ok(Velocity { dx: 57, dy: -57 }));
    assert_eq!(w.renderable(EntityId(57)).unwrap().resource_name, "goblin");
}

#[test]
fn random_velocities_stay_in_range() {
    let v = random_velocities(400);
    assert_eq!(v.len(), 400);
    for x in &v {
        assert!(-MAX_SPEED <= x.dx && x.dx < MAX_SPEED);
        assert!(-MAX_SPEED <= x.dy && x.dy < MAX_SPEED);
    }
    assert!(v.iter().any(|x| x.dx != -MAX_SPEED));
    assert!(v.iter().any(|x| x.dx != v[0].dx));
}
