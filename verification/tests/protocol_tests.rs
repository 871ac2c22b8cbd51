use unrust::inbuilt::InbuiltData;
use unrust::inbuilt::UnityGUID;
use unrust::inbuilt::UnityParent;
use unrust::inbuilt::UnityTransform;
use unrust::layout::component_size_exec;
use unrust::protocol::apply_custom_records_exec;
use unrust::protocol::apply_state_records_exec;
use unrust::protocol::decode_custom_blob;
use unrust::protocol::decode_state_blob;
use unrust::protocol::encode_custom_exec;
use unrust::protocol::encode_inbuilt_exec;
use unrust::schema::ComponentDecl;
use unrust::schema::FieldDecl;
use unrust::world::EntityHandle;
use unrust::world::World;
use unrust::world::empty_entity_data;
use unrust::world::handle_of_unity_parent;
use unrust::world::ingest_component;
use unrust::world::unity_parent_of;

fn component(name: &str, fields: &[(&str, &str)]) -> ComponentDecl {
    ComponentDecl {
        name: name.to_string(),
        fields: fields
            .iter()
            .map(|(f, t)| FieldDecl { name: f.to_string(), ty: t.to_string() })
            .collect(),
    }
}

#[test]
fn layout_sizes_follow_primitive_rules() {
    // A single 32-bit field occupies 4 bytes.
    assert_eq!(component_size_exec(&component("A", &[("x", "f32")])), 4);
    // A 32-bit field followed by a 64-bit field is padded to offset 8,
    // and the record is padded to its 8-byte alignment.
    assert_eq!(component_size_exec(&component("B", &[("x", "f32"), ("y", "f64")])), 16);
    // Two 32-bit fields pack tightly.
    assert_eq!(component_size_exec(&component("C", &[("x", "u32"), ("y", "i32")])), 8);
    // A 64-bit field followed by a 32-bit field still pads to 16.
    assert_eq!(component_size_exec(&component("D", &[("x", "u64"), ("y", "u32")])), 16);
    // An empty record has no bytes.
    assert_eq!(component_size_exec(&component("E", &[])), 0);
}

#[test]
fn handle_bits_pack_generation_and_index() {
    let h = EntityHandle { index: 7, generation: 3 };
    assert_eq!(h.to_bits(), (3u64 << 32) | 7u64);
    let back = EntityHandle::from_bits(h.to_bits());
    assert_eq!(back, h);
    let max = EntityHandle { index: u32::MAX, generation: u32::MAX };
    assert_eq!(EntityHandle::from_bits(max.to_bits()), max);
}

#[test]
fn parent_component_carries_handle_bits() {
    let h = EntityHandle { index: 2, generation: 5 };
    let p = unity_parent_of(h);
    assert_eq!(p.entity, h.to_bits());
    assert_eq!(handle_of_unity_parent(&p), h);
}

#[test]
fn custom_component_set_round_trips() {
    // An entity with components {0, 2} attached.
    let attached: Vec<Option<Vec<u8>>> =
        vec![Some(vec![1, 2, 3, 4]), None, Some(vec![9, 8, 7, 6, 5, 4, 3, 2])];
    let records = encode_custom_exec(&attached);
    assert_eq!(records.len(), 2);
    assert_eq!(records[0].tag, 0);
    assert_eq!(records[0].payload, vec![1, 2, 3, 4]);
    assert_eq!(records[1].tag, 2);
    // Decoding into a fresh entity of the same schema restores the set.
    let mut fresh: Vec<Option<Vec<u8>>> = vec![None, None, None];
    let ok = apply_custom_records_exec(&mut fresh, &records);
    assert!(ok);
    assert_eq!(fresh, attached);
}

#[test]
fn inbuilt_component_set_round_trips() {
    let mut source = empty_entity_data(0, 0);
    source.parent = Some(UnityParent { entity: 0x500000002 });
    source.guid = Some(UnityGUID { hash: [1, 2, 3, 4] });
    source.transform = Some(UnityTransform { mat: [0x3f800000; 16] });
    let records = encode_inbuilt_exec(&source);
    assert_eq!(records.len(), 3);
    assert!(matches!(records[0], InbuiltData::UnityParent(_)));
    assert!(matches!(records[1], InbuiltData::UnityGUID(_)));
    assert!(matches!(records[2], InbuiltData::UnityTransform(_)));
    let mut fresh = empty_entity_data(0, 0);
    ingest_component(&mut fresh, &records);
    assert_eq!(fresh.parent, source.parent);
    assert_eq!(fresh.guid, source.guid);
    assert_eq!(fresh.transform, source.transform);
    // The decoded parent record re-establishes the parent relation.
    assert_eq!(fresh.parent_link, Some(0x500000002));
    assert!(fresh.transform_changed);
}

#[test]
fn state_records_apply_at_their_tag() {
    let mut states: Vec<Option<u8>> = vec![None, None];
    let records = decode_state_blob(&vec![1, 7], 1).unwrap();
    assert_eq!(records.len(), 1);
    assert_eq!(records[0].tag, 1);
    assert_eq!(records[0].value, 7);
    let ok = apply_state_records_exec(&mut states, &records);
    assert!(ok);
    assert_eq!(states, vec![None, Some(7)]);
}

#[test]
fn custom_blob_decodes_fixed_size_records() {
    // One component of 4 bytes: payload offset 4, stride 8.
    let sizes = vec![4usize];
    let blob = vec![0u8, 0xaa, 0xaa, 0xaa, 10, 20, 30, 40];
    let records = decode_custom_blob(&blob, 1, &sizes, 4, 8).unwrap();
    assert_eq!(records.len(), 1);
    assert_eq!(records[0].tag, 0);
    assert_eq!(records[0].payload, vec![10, 20, 30, 40]);
}

#[test]
fn malformed_custom_blob_is_a_decode_error() {
    let sizes = vec![4usize];
    // Wrong length for the record count.
    assert!(decode_custom_blob(&vec![0u8; 7], 1, &sizes, 4, 8).is_none());
    // A tag the schema does not declare.
    let blob = vec![1u8, 0, 0, 0, 0, 0, 0, 0];
    assert!(decode_custom_blob(&blob, 1, &sizes, 4, 8).is_none());
}

#[test]
fn malformed_state_blob_is_a_decode_error() {
    assert!(decode_state_blob(&vec![1u8, 2, 3], 1).is_none());
    assert!(decode_state_blob(&vec![1u8, 2], 2).is_none());
}

#[test]
fn world_handles_are_valid_exactly_between_spawn_and_despawn() {
    let mut world = World::new(0, 0);
    let h1 = world.spawn_empty();
    assert!(world.is_live(h1));
    world.despawn(h1);
    assert!(!world.is_live(h1));
    // The slot is reused at a new generation; the old handle stays dead.
    let h2 = world.spawn_empty();
    assert!(world.is_live(h2));
    assert!(!world.is_live(h1));
    assert_eq!(h2.index, h1.index);
    assert_ne!(h2.generation, h1.generation);
}
