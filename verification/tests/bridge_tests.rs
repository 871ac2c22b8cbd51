use unrust::bridge::BridgeError;
use unrust::bridge::LogLevel;
use unrust::bridge::Phase;
use unrust::bridge::PrefabData;
use unrust::bridge::init;
use unrust::bridge::load;
use unrust::bridge::log_event;
use unrust::bridge::log_level_to_ordinal;
use unrust::bridge::register_prefabs;
use unrust::bridge::spawn;
use unrust::bridge::tick;
use unrust::bridge::unload;
use unrust::inbuilt::InbuiltData;
use unrust::inbuilt::UnityEntity;
use unrust::inbuilt::UnityTransform;
use unrust::sample::AssetServer;
use unrust::sample::CubePrefabs;
use unrust::sample::GameState;
use unrust::sample::cube_prefab_to_variant;
use unrust::sample::game_state_to_ordinal;
use unrust::sample::load_spawn_cube_settings;
use unrust::sample::sample_schema;
use unrust::schema::ComponentDecl;
use unrust::schema::FieldDecl;
use unrust::schema::PrefabDecl;
use unrust::schema::Schema;
use unrust::schema::StateDecl;
use unrust::tags::DispatchOp;
use unrust::tags::build_custom_dispatch;
use unrust::tags::build_inbuilt_dispatch;
use unrust::tags::ordinal_to_variant;
use unrust::world::DestroyEntity;
use unrust::world::InstantiateEntity;

fn speed_schema() -> Schema {
    Schema {
        components: vec![ComponentDecl {
            name: "Speed".to_string(),
            fields: vec![FieldDecl { name: "value".to_string(), ty: "f32".to_string() }],
        }],
        states: Vec::new(),
        prefabs: Vec::new(),
    }
}

fn two_prefab_schema() -> Schema {
    Schema {
        components: Vec::new(),
        states: Vec::new(),
        prefabs: vec![
            PrefabDecl { name: "FirstSet".to_string(), variants: vec!["A".to_string()] },
            PrefabDecl {
                name: "SecondSet".to_string(),
                variants: vec!["B".to_string(), "C".to_string()],
            },
        ],
    }
}

fn unity(ix: i32) -> UnityEntity {
    UnityEntity { index: ix, version: 1 }
}

#[test]
fn lifecycle_runs_loaded_initialized_running_unloaded() {
    let mut ctx = load(true);
    assert_eq!(ctx.phase, Phase::Loaded);
    assert!(ctx.log_attached);
    init(&mut ctx, sample_schema());
    assert_eq!(ctx.phase, Phase::Initialized);
    let out = tick(&mut ctx);
    assert_eq!(ctx.phase, Phase::Running);
    assert_eq!(out.create.entities.len(), 0);
    assert_eq!(out.update.entities.len(), 0);
    assert_eq!(out.destroy.len(), 0);
    unload(&mut ctx);
    assert_eq!(ctx.phase, Phase::Unloaded);
    assert!(!ctx.log_attached);
}

#[test]
fn init_allocates_empty_prefab_resources_and_caches_layout() {
    let mut ctx = load(false);
    init(&mut ctx, sample_schema());
    assert_eq!(ctx.prefabs.len(), 1);
    assert_eq!(ctx.prefabs[0].entries, vec![None]);
    assert_eq!(ctx.custom_sizes, vec![4]);
    assert_eq!(ctx.custom_value_off, 4);
    assert_eq!(ctx.custom_stride, 8);
}

#[test]
fn register_prefabs_populates_only_the_named_resource() {
    let mut ctx = load(false);
    init(&mut ctx, two_prefab_schema());
    let registered = register_prefabs(
        &mut ctx,
        PrefabData { ref_id: 1, guids: vec![unity(10), unity(20)] },
    );
    assert!(registered);
    // Only the resource with ref-id 1 is populated.
    assert_eq!(ctx.prefabs[0].entries, vec![None]);
    assert_eq!(ctx.prefabs[1].entries, vec![Some(unity(10)), Some(unity(20))]);
    // A registered variant resolves; an unregistered one is absent.
    assert_eq!(ctx.prefabs[1].get_unity_prefab(0), Some(unity(10)));
    assert_eq!(ctx.prefabs[0].get_unity_prefab(0), None);
    // A variant index the enumeration does not declare is absent.
    assert_eq!(ctx.prefabs[1].get_unity_prefab(9), None);
}

#[test]
fn register_prefabs_with_unknown_ref_id_is_a_no_op() {
    let mut ctx = load(false);
    init(&mut ctx, two_prefab_schema());
    assert!(!register_prefabs(&mut ctx, PrefabData { ref_id: 7, guids: vec![unity(1)] }));
    assert!(!register_prefabs(&mut ctx, PrefabData { ref_id: -1, guids: vec![unity(1)] }));
    assert_eq!(ctx.prefabs[0].entries, vec![None]);
    assert_eq!(ctx.prefabs[1].entries, vec![None, None]);
}

#[test]
fn spawn_rejects_malformed_blobs() {
    let mut ctx = load(false);
    init(&mut ctx, speed_schema());
    // Wrong blob length for the record count.
    let r = spawn(&mut ctx, unity(1), &Vec::new(), &vec![0u8; 7], 1, &Vec::new(), 0);
    assert_eq!(r, Err(BridgeError::MalformedCustomBlob));
    // A state tag the schema does not declare.
    let r = spawn(&mut ctx, unity(1), &Vec::new(), &Vec::new(), 0, &vec![0u8, 1u8], 1);
    assert_eq!(r, Err(BridgeError::MalformedStateBlob));
}

#[test]
fn end_to_end_spawn_then_tick_delivers_update_with_payload_preserved() {
    // load -> init with a single project component Speed { value: f32 }.
    let mut ctx = load(true);
    init(&mut ctx, speed_schema());
    // spawn with one Speed record whose payload is 2.5f32.
    let payload = 2.5f32.to_bits().to_le_bytes();
    let blob = vec![
        0u8, 0, 0, 0, // tag 0 and padding up to the payload offset
        payload[0], payload[1], payload[2], payload[3],
    ];
    let handle = spawn(&mut ctx, unity(42), &Vec::new(), &blob, 1, &Vec::new(), 0).unwrap();
    assert!(ctx.world.is_live(handle));
    // One tick: the tracked-field change is delivered through the Update
    // callback's batch as one record tagged Speed with the payload intact.
    let out = tick(&mut ctx);
    assert_eq!(out.create.entities.len(), 0);
    assert_eq!(out.destroy.len(), 0);
    assert_eq!(out.update.entities.len(), 1);
    let desc = out.update.entities[0];
    assert_eq!(desc.entity, unity(42));
    assert_eq!(desc.inbuilt_len, 0);
    assert_eq!(desc.custom_offset, 0);
    assert_eq!(desc.custom_len, 1);
    assert_eq!(out.update.customs.len(), 1);
    assert_eq!(out.update.customs[0].tag, 0);
    assert_eq!(out.update.customs[0].payload, payload.to_vec());
    assert_eq!(f32::from_bits(u32::from_le_bytes(payload)), 2.5f32);
    // The change tracking was cleared: the next tick delivers nothing.
    let out2 = tick(&mut ctx);
    assert_eq!(out2.update.entities.len(), 0);
}

#[test]
fn create_system_encodes_and_strips_host_origin_markers() {
    let mut ctx = load(false);
    init(&mut ctx, speed_schema());
    let h = spawn(&mut ctx, unity(5), &Vec::new(), &Vec::new(), 0, &Vec::new(), 0).unwrap();
    // Mark the entity as newly host-spawned and give it a transform, as a
    // spawning demo system would.
    let idx = h.index as usize;
    ctx.world.slots[idx].data.unity = None;
    ctx.world.slots[idx].data.instantiate = Some(InstantiateEntity { entity: unity(77) });
    ctx.world.slots[idx].data.transform = Some(UnityTransform { mat: [0x40000000; 16] });
    let out = tick(&mut ctx);
    assert_eq!(out.update.entities.len(), 0);
    assert_eq!(out.create.entities.len(), 1);
    let desc = out.create.entities[0];
    assert_eq!(desc.entity, unity(77));
    assert_eq!(desc.inbuilt_offset, 0);
    assert_eq!(desc.inbuilt_len, 1);
    assert!(matches!(out.create.inbuilt[0], InbuiltData::UnityTransform(_)));
    // The transient marker entity was despawned.
    assert!(!ctx.world.is_live(h));
}

#[test]
fn destroy_system_encodes_and_despawns_marked_entities() {
    let mut ctx = load(false);
    init(&mut ctx, speed_schema());
    let h = spawn(&mut ctx, unity(6), &Vec::new(), &Vec::new(), 0, &Vec::new(), 0).unwrap();
    let idx = h.index as usize;
    ctx.world.slots[idx].data.destroy = Some(DestroyEntity { entity: unity(6) });
    let out = tick(&mut ctx);
    assert_eq!(out.destroy, vec![unity(6)]);
    assert!(!ctx.world.is_live(h));
}

#[test]
fn state_ordinal_conversion_is_range_checked() {
    let decl = StateDecl {
        name: "GameState".to_string(),
        variants: vec!["A".to_string(), "B".to_string(), "C".to_string()],
    };
    assert_eq!(ordinal_to_variant(&decl, 0), Some(0));
    assert_eq!(ordinal_to_variant(&decl, 2), Some(2));
    assert_eq!(ordinal_to_variant(&decl, 3), None);
    assert_eq!(ordinal_to_variant(&decl, 255), None);
}

#[test]
fn dispatch_tables_follow_tag_order() {
    let inbuilt = build_inbuilt_dispatch();
    assert_eq!(
        inbuilt,
        vec![
            DispatchOp::InsertAndReparent,
            DispatchOp::Ignore,
            DispatchOp::Insert,
            DispatchOp::InsertTransform,
        ]
    );
    let custom = build_custom_dispatch(3);
    assert_eq!(custom, vec![DispatchOp::Custom; 3]);
}

#[test]
fn logging_is_dropped_without_a_sink() {
    assert!(log_event(false, LogLevel::Info, "lost".to_string()).is_none());
    let delivered = log_event(true, LogLevel::Warning, "kept".to_string());
    assert_eq!(delivered, Some((LogLevel::Warning, "kept".to_string())));
    assert_eq!(log_level_to_ordinal(LogLevel::Error), 0);
    assert_eq!(log_level_to_ordinal(LogLevel::Debug), 3);
}

#[test]
fn sample_declarations_expose_their_ordinals() {
    assert_eq!(game_state_to_ordinal(GameState::HelloCubeSimple), 0);
    assert_eq!(game_state_to_ordinal(GameState::Boids), 4);
    assert_eq!(game_state_to_ordinal(GameState::default()), 0);
    assert_eq!(cube_prefab_to_variant(CubePrefabs::HelloCube), 0);
}

#[test]
fn update_tracks_builtin_transform_changes() {
    let mut ctx = load(false);
    init(&mut ctx, speed_schema());
    let transform = UnityTransform { mat: [0x3fc00000; 16] };
    let records = vec![InbuiltData::UnityTransform(transform)];
    let h = spawn(&mut ctx, unity(9), &records, &Vec::new(), 0, &Vec::new(), 0).unwrap();
    assert!(ctx.world.is_live(h));
    let out = tick(&mut ctx);
    assert_eq!(out.update.entities.len(), 1);
    let desc = out.update.entities[0];
    assert_eq!(desc.entity, unity(9));
    assert_eq!(desc.inbuilt_len, 1);
    assert_eq!(out.update.inbuilt[0], InbuiltData::UnityTransform(transform));
    // Once delivered, the change is no longer pending.
    let out2 = tick(&mut ctx);
    assert_eq!(out2.update.entities.len(), 0);
}

#[test]
fn batch_offsets_are_contiguous_in_iteration_order() {
    let mut ctx = load(false);
    init(&mut ctx, speed_schema());
    // First changed entity: a transform and a Speed record.
    let payload = 1.5f32.to_bits().to_le_bytes();
    let blob = vec![0u8, 0, 0, 0, payload[0], payload[1], payload[2], payload[3]];
    let t = UnityTransform { mat: [7; 16] };
    spawn(&mut ctx, unity(1), &vec![InbuiltData::UnityTransform(t)], &blob, 1, &Vec::new(), 0)
        .unwrap();
    // Second changed entity: only a Speed record.
    spawn(&mut ctx, unity(2), &Vec::new(), &blob, 1, &Vec::new(), 0).unwrap();
    let out = tick(&mut ctx);
    assert_eq!(out.update.entities.len(), 2);
    let first = out.update.entities[0];
    let second = out.update.entities[1];
    // Output order equals iteration order.
    assert_eq!(first.entity, unity(1));
    assert_eq!(second.entity, unity(2));
    // Offsets into each flat buffer are contiguous and exhaust it.
    assert_eq!(first.inbuilt_offset, 0);
    assert_eq!(first.inbuilt_len, 1);
    assert_eq!(second.inbuilt_offset, 1);
    assert_eq!(second.inbuilt_len, 0);
    assert_eq!(out.update.inbuilt.len(), 1);
    assert_eq!(first.custom_offset, 0);
    assert_eq!(first.custom_len, 1);
    assert_eq!(second.custom_offset, 1);
    assert_eq!(second.custom_len, 1);
    assert_eq!(out.update.customs.len(), 2);
    assert_eq!(out.update.customs[0].payload, payload.to_vec());
    assert_eq!(out.update.customs[1].payload, payload.to_vec());
}

#[test]
fn settings_asset_handles_are_fresh() {
    let mut server = AssetServer { next_handle: 0 };
    let first = load_spawn_cube_settings(&mut server);
    let second = load_spawn_cube_settings(&mut server);
    assert_ne!(first.0, second.0);
}
