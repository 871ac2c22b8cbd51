use unrust::codegen::GenError;
use unrust::codegen::authoring_file_name_exec;
use unrust::codegen::clear_contents;
use unrust::codegen::generate_components_csharp;
use unrust::codegen::generate_components_with_authoring;
use unrust::codegen::generate_csharp;
use unrust::codegen::generate_hooks;
use unrust::codegen::generate_prefab_authoring;
use unrust::codegen::generate_state_authoring;
use unrust::codegen::generate_states_csharp;
use unrust::inbuilt::UnityEntity_CSHARP_TOKEN;
use unrust::inbuilt::UnityGUID_CSHARP_TOKEN;
use unrust::inbuilt::UnityParent_CSHARP_TOKEN;
use unrust::inbuilt::UnityTransform_CSHARP_TOKEN;
use unrust::inbuilt::write_csharp_inbuilt;
use unrust::sample::sample_schema;
use unrust::schema::ComponentDecl;
use unrust::schema::FieldDecl;
use unrust::schema::PrefabDecl;
use unrust::schema::Schema;
use unrust::schema::StateDecl;
use unrust::schema::map_rust_type;
use unrust::text::usize_to_string;

fn component(name: &str, fields: &[(&str, &str)]) -> ComponentDecl {
    ComponentDecl {
        name: name.to_string(),
        fields: fields
            .iter()
            .map(|(f, t)| FieldDecl { name: f.to_string(), ty: t.to_string() })
            .collect(),
    }
}

fn schema_of(components: Vec<ComponentDecl>) -> Schema {
    Schema { components, states: Vec::new(), prefabs: Vec::new() }
}

#[test]
fn maps_every_supported_primitive() {
    let cases = [
        ("f32", "float"),
        ("f64", "double"),
        ("i32", "int"),
        ("i64", "long"),
        ("u32", "uint"),
        ("u64", "ulong"),
    ];
    for (rust, cs) in cases {
        assert_eq!(map_rust_type(&rust.to_string()), Some(cs.to_string()));
    }
    assert_eq!(map_rust_type(&"String".to_string()), None);
    assert_eq!(map_rust_type(&"i8".to_string()), None);
    assert_eq!(map_rust_type(&"bool".to_string()), None);
}

#[test]
fn decimal_rendering_is_exact() {
    assert_eq!(usize_to_string(0), "0");
    assert_eq!(usize_to_string(7), "7");
    assert_eq!(usize_to_string(10), "10");
    assert_eq!(usize_to_string(255), "255");
    assert_eq!(usize_to_string(12345), "12345");
}

#[test]
fn authoring_file_names_follow_declaration_name() {
    assert_eq!(authoring_file_name_exec(&"DoRotate".to_string()), "DoRotateAuthoring.cs");
}

#[test]
fn component_mirror_text_is_exact() {
    let c = component("Speed", &[("value", "f32")]);
    let text = generate_components_with_authoring(&c);
    let expected = [
        "namespace unrust.userland",
        "{",
        "    [StructLayout(LayoutKind.Sequential)]",
        "    public struct Speed : IComponentData",
        "    {",
        "        public float value;",
        "    }",
        "",
        "    public class SpeedAuthoring : MonoBehaviour",
        "    {",
        "        public float value;",
        "",
        "        class Baker : Baker<SpeedAuthoring>",
        "        {",
        "            public override void Bake(SpeedAuthoring authoring)",
        "            {",
        "                var entity = GetEntity(TransformUsageFlags.Dynamic);",
        "                AddComponent(entity, new Speed",
        "                {",
        "                    value = authoring.value,",
        "                });",
        "            }",
        "        }",
        "    }",
        "}",
        "",
    ]
    .join("\n");
    assert_eq!(text, expected);
}

#[test]
fn rerunning_generation_gives_byte_identical_output() {
    let files1 = generate_csharp(&sample_schema()).unwrap();
    let files2 = generate_csharp(&sample_schema()).unwrap();
    assert_eq!(files1.len(), files2.len());
    for (a, b) in files1.iter().zip(files2.iter()) {
        assert_eq!(a.name, b.name);
        assert_eq!(a.contents, b.contents);
    }
}

#[test]
fn tags_equal_declaration_order_position() {
    let decls = vec![
        component("Alpha", &[("x", "u32")]),
        component("Beta", &[("x", "u32")]),
        component("Gamma", &[("x", "u32")]),
    ];
    let aggregate = generate_components_csharp(&decls);
    assert!(aggregate.contains("        Alpha = 0,\n"));
    assert!(aggregate.contains("        Beta = 1,\n"));
    assert!(aggregate.contains("        Gamma = 2,\n"));
    assert!(aggregate.contains("ComponentCount = 3"));
}

#[test]
fn reordering_declarations_changes_tags_accordingly() {
    let reordered = vec![
        component("Beta", &[("x", "u32")]),
        component("Alpha", &[("x", "u32")]),
    ];
    let aggregate = generate_components_csharp(&reordered);
    assert!(aggregate.contains("        Beta = 0,\n"));
    assert!(aggregate.contains("        Alpha = 1,\n"));
}

#[test]
fn unsupported_field_type_fails_with_no_output() {
    let bad = schema_of(vec![
        component("Good", &[("x", "f32")]),
        component("Bad", &[("s", "String")]),
    ]);
    match generate_csharp(&bad) {
        Err(GenError::UnsupportedFieldType) => {}
        Ok(_) => panic!("generation accepted an unsupported field type"),
    }
}

#[test]
fn generation_succeeds_on_supported_schema() {
    let files = generate_csharp(&sample_schema()).unwrap();
    // One file per declaration plus three aggregates.
    assert_eq!(files.len(), 1 + 1 + 1 + 3);
    let names: Vec<&str> = files.iter().map(|f| f.name.as_str()).collect();
    assert_eq!(
        names,
        vec![
            "DoRotateAuthoring.cs",
            "UnrustComponent.cs",
            "GameStateAuthoring.cs",
            "UnrustState.cs",
            "CubePrefabsAuthoring.cs",
            "UnrustHooks.cs",
        ]
    );
}

#[test]
fn removing_a_declaration_removes_exactly_its_file_and_shifts_tags() {
    let three = schema_of(vec![
        component("Alpha", &[("x", "u32")]),
        component("Beta", &[("x", "u32")]),
        component("Gamma", &[("x", "u32")]),
    ]);
    let two = schema_of(vec![
        component("Alpha", &[("x", "u32")]),
        component("Gamma", &[("x", "u32")]),
    ]);
    let files3 = generate_csharp(&three).unwrap();
    let files2 = generate_csharp(&two).unwrap();
    let names3: Vec<String> = files3.iter().map(|f| f.name.clone()).collect();
    let names2: Vec<String> = files2.iter().map(|f| f.name.clone()).collect();
    let expected: Vec<String> = names3
        .iter()
        .filter(|n| n.as_str() != "BetaAuthoring.cs")
        .cloned()
        .collect();
    assert_eq!(names2, expected);
    let aggregate = generate_components_csharp(&two.components);
    assert!(aggregate.contains("        Alpha = 0,\n"));
    assert!(aggregate.contains("        Gamma = 1,\n"));
    assert!(!aggregate.contains("Beta"));
}

#[test]
fn state_mirror_has_one_byte_record_and_ordinal_enum() {
    let s = StateDecl {
        name: "GameState".to_string(),
        variants: vec!["A".to_string(), "B".to_string(), "C".to_string()],
    };
    let text = generate_state_authoring(&s);
    assert!(text.contains("public struct GameState : IComponentData"));
    assert!(text.contains("public sbyte Value;"));
    assert!(text.contains("            A = 0,\n"));
    assert!(text.contains("            B = 1,\n"));
    assert!(text.contains("            C = 2,\n"));
    assert!(text.contains("Value = (sbyte)authoring.GameState"));
}

#[test]
fn state_aggregate_counts_and_tags_states() {
    let decls = vec![
        StateDecl { name: "First".to_string(), variants: vec!["X".to_string()] },
        StateDecl { name: "Second".to_string(), variants: vec!["Y".to_string()] },
    ];
    let text = generate_states_csharp(&decls);
    assert!(text.contains("CustomStateCount = 2"));
    assert!(text.contains("        First = 0,\n"));
    assert!(text.contains("        Second = 1,\n"));
}

#[test]
fn prefab_mirror_embeds_its_resource_id() {
    let p = PrefabDecl {
        name: "CubePrefabs".to_string(),
        variants: vec!["HelloCube".to_string(), "OtherCube".to_string()],
    };
    let text = generate_prefab_authoring(&p, 3);
    assert!(text.contains("public const int RESOURCE_ID = 3;"));
    assert!(text.contains("public GameObject HelloCube;"));
    assert!(text.contains("public GameObject OtherCube;"));
    assert!(text.contains("buffer.Add(GetEntity(authoring.HelloCube, TransformUsageFlags.Dynamic));"));
    assert!(text.contains("new UnrustResourceID { Value = 3 }"));
}

#[test]
fn hooks_encode_components_in_tag_order() {
    let s = sample_schema();
    let text = generate_hooks(&s);
    assert!(text.contains("manager.HasComponent<DoRotate>(entity)"));
    assert!(text.contains("ty = CustomType.DoRotate,"));
    assert!(text.contains("ty = CustomStateType.GameState,"));
    let first = text.find("HasComponent<DoRotate>").unwrap();
    let second = text.find("HasComponent<GameState>").unwrap();
    assert!(first < second);
}

#[test]
fn inbuilt_mirror_fixes_builtin_tags() {
    let text = write_csharp_inbuilt();
    assert!(text.contains("        UnityParent = 0,\n"));
    assert!(text.contains("        UnityEntity = 1,\n"));
    assert!(text.contains("        UnityGUID = 2,\n"));
    assert!(text.contains("        UnityTransform = 3,\n"));
    assert!(text.contains("ComponentCount = 4"));
    assert!(text.contains(&UnityEntity_CSHARP_TOKEN()));
    assert!(text.contains(&UnityGUID_CSHARP_TOKEN()));
    assert!(text.contains(&UnityParent_CSHARP_TOKEN()));
    assert!(text.contains(&UnityTransform_CSHARP_TOKEN()));
}

#[test]
fn clearing_selects_only_generated_artifacts() {
    let names = vec![
        "DoRotateAuthoring.cs".to_string(),
        "readme.md".to_string(),
        "UnrustHooks.cs".to_string(),
        "cs".to_string(),
    ];
    let to_clear = clear_contents(&names, "cs");
    assert_eq!(
        to_clear,
        vec!["DoRotateAuthoring.cs".to_string(), "UnrustHooks.cs".to_string()]
    );
}
