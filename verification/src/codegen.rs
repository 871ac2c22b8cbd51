//! The mirror code generator.
//!
//! From the schema it emits, deterministically, one host-language (C#)
//! mirror source artifact per declared type plus the aggregate wire types
//! and the static encoder hooks.  Ordering is always declaration order —
//! never alphabetical or otherwise derived — because the embedded side's
//! fixed tag assignment must match without a side channel.  Every emitted
//! byte is pinned by a specification function of the schema alone, so
//! re-running generation on an unchanged schema yields byte-identical
//! output.
//!
//! Generation is all-or-nothing: a field type outside the supported
//! primitive numeric set is a fatal error reported before any artifact is
//! produced, because a partially generated mirror would silently corrupt
//! the wire format.

use vstd::prelude::*;

use crate::schema::ComponentDecl;
use crate::schema::FieldDecl;
use crate::schema::PrefabDecl;
use crate::schema::Schema;
use crate::schema::StateDecl;
use crate::schema::component_fields_supported;
use crate::schema::component_supported;
use crate::schema::csharp_type_of;
use crate::schema::map_rust_type;
use crate::schema::schema_supported;
use crate::text::dec_str;
use crate::text::ends_with;
use crate::text::usize_to_string;

verus! {

/// A build-time failure of the schema compiler or the mirror generator.
#[derive(PartialEq, Eq, Structural, Clone, Copy, Debug)]
pub enum GenError {
    /// A declared field type is outside the supported primitive numeric
    /// set, so no byte-identical mirror can be derived for it.
    UnsupportedFieldType,
}

/// One generated mirror source artifact.
pub struct GeneratedFile {
    pub name: String,
    pub contents: String,
}

/// File name of the per-declaration mirror artifact for a declared type.
pub open spec fn authoring_file_name(name: Seq<char>) -> Seq<char> {
    name + "Authoring.cs"@
}

/// Builds the file name of the per-declaration mirror artifact.
pub fn authoring_file_name_exec(name: &String) -> (r: String)
    ensures
        r@ == authoring_file_name(name@),
{
    let mut out = name.clone();
    out.append("Authoring.cs");
    out
}

/// One mirror struct field declaration line.
pub open spec fn field_decl_line(f: FieldDecl) -> Seq<char>
    recommends
        csharp_type_of(f.ty@) is Some,
{
    "        public "@ + csharp_type_of(f.ty@).unwrap() + " "@ + f.name@ + ";\n"@
}

/// The mirror struct field declaration lines, in field order.
pub open spec fn field_decl_lines(fields: Seq<FieldDecl>) -> Seq<char>
    decreases fields.len(),
{
    if fields.len() == 0 {
        Seq::empty()
    } else {
        field_decl_lines(fields.drop_last()) + field_decl_line(fields.last())
    }
}

/// One bake-time field copy line of the authoring wrapper.
pub open spec fn field_copy_line(f: FieldDecl) -> Seq<char> {
    "                    "@ + f.name@ + " = authoring."@ + f.name@ + ",\n"@
}

/// The bake-time field copy lines, in field order.
pub open spec fn field_copy_lines(fields: Seq<FieldDecl>) -> Seq<char>
    decreases fields.len(),
{
    if fields.len() == 0 {
        Seq::empty()
    } else {
        field_copy_lines(fields.drop_last()) + field_copy_line(fields.last())
    }
}

/// The complete mirror artifact for one project component: a fixed-layout
/// mirror record (field order preserved) and an authoring wrapper whose
/// bake step copies each field from the editable instance into the record.
pub open spec fn component_authoring_text(c: ComponentDecl) -> Seq<char>
    recommends
        component_supported(c),
{
    "namespace unrust.userland\n{\n    [StructLayout(LayoutKind.Sequential)]\n    public struct "@
        + c.name@ + " : IComponentData\n    {\n"@ + field_decl_lines(c.fields@)
        + "    }\n\n    public class "@ + c.name@ + "Authoring : MonoBehaviour\n    {\n"@
        + field_decl_lines(c.fields@) + "\n        class Baker : Baker<"@ + c.name@
        + "Authoring>\n        {\n            public override void Bake("@ + c.name@
        + "Authoring authoring)\n            {\n                var entity = GetEntity(TransformUsageFlags.Dynamic);\n                AddComponent(entity, new "@
        + c.name@ + "\n                {\n"@ + field_copy_lines(c.fields@)
        + "                });\n            }\n        }\n    }\n}\n"@
}

/// Appends the mirror struct field declaration lines to `out`.
fn push_field_decl_lines(out: &mut String, fields: &Vec<FieldDecl>)
    requires
        forall|i: int| 0 <= i < fields@.len() ==> csharp_type_of(fields@[i].ty@) is Some,
    ensures
        final(out)@ == old(out)@ + field_decl_lines(fields@),
{
    let ghost entry = out@;
    let mut i: usize = 0;
    proof {
        assert(fields@.take(0) =~= Seq::<FieldDecl>::empty());
        assert(out@ =~= entry + field_decl_lines(fields@.take(0)));
    }
    while i < fields.len()
        invariant
            0 <= i <= fields@.len(),
            forall|j: int| 0 <= j < fields@.len() ==> csharp_type_of(fields@[j].ty@) is Some,
            out@ == entry + field_decl_lines(fields@.take(i as int)),
        decreases fields@.len() - i,
    {
        let f = &fields[i];
        let ty = map_rust_type(&f.ty).unwrap();
        out.append("        public ");
        out.append(ty.as_str());
        out.append(" ");
        out.append(f.name.as_str());
        out.append(";\n");
        proof {
            assert(fields@.take(i + 1).drop_last() =~= fields@.take(i as int));
            assert(fields@.take(i + 1).last() == fields@[i as int]);
            assert(out@ =~= entry + field_decl_lines(fields@.take(i + 1)));
        }
        i = i + 1;
    }
    proof {
        assert(fields@.take(fields@.len() as int) =~= fields@);
    }
}

/// Appends the bake-time field copy lines to `out`.
fn push_field_copy_lines(out: &mut String, fields: &Vec<FieldDecl>)
    ensures
        final(out)@ == old(out)@ + field_copy_lines(fields@),
{
    let ghost entry = out@;
    let mut i: usize = 0;
    proof {
        assert(fields@.take(0) =~= Seq::<FieldDecl>::empty());
        assert(out@ =~= entry + field_copy_lines(fields@.take(0)));
    }
    while i < fields.len()
        invariant
            0 <= i <= fields@.len(),
            out@ == entry + field_copy_lines(fields@.take(i as int)),
        decreases fields@.len() - i,
    {
        let f = &fields[i];
        out.append("                    ");
        out.append(f.name.as_str());
        out.append(" = authoring.");
        out.append(f.name.as_str());
        out.append(",\n");
        proof {
            assert(fields@.take(i + 1).drop_last() =~= fields@.take(i as int));
            assert(fields@.take(i + 1).last() == fields@[i as int]);
            assert(out@ =~= entry + field_copy_lines(fields@.take(i + 1)));
        }
        i = i + 1;
    }
    proof {
        assert(fields@.take(fields@.len() as int) =~= fields@);
    }
}

/// Emits the mirror artifact for one project component.
pub fn generate_components_with_authoring(c: &ComponentDecl) -> (r: String)
    requires
        component_supported(*c),
    ensures
        r@ == component_authoring_text(*c),
{
    let mut out =
        "namespace unrust.userland\n{\n    [StructLayout(LayoutKind.Sequential)]\n    public struct ".to_owned();
    out.append(c.name.as_str());
    out.append(" : IComponentData\n    {\n");
    push_field_decl_lines(&mut out, &c.fields);
    out.append("    }\n\n    public class ");
    out.append(c.name.as_str());
    out.append("Authoring : MonoBehaviour\n    {\n");
    push_field_decl_lines(&mut out, &c.fields);
    out.append("\n        class Baker : Baker<");
    out.append(c.name.as_str());
    out.append("Authoring>\n        {\n            public override void Bake(");
    out.append(c.name.as_str());
    out.append(
        "Authoring authoring)\n            {\n                var entity = GetEntity(TransformUsageFlags.Dynamic);\n                AddComponent(entity, new ",
    );
    out.append(c.name.as_str());
    out.append("\n                {\n");
    push_field_copy_lines(&mut out, &c.fields);
    out.append("                });\n            }\n        }\n    }\n}\n");
    proof {
        assert(out@ =~= component_authoring_text(*c));
    }
    out
}

/// The tag enumeration entries of the project component category: each
/// declared name equated to its zero-based declaration position.
pub open spec fn custom_type_entries(decls: Seq<ComponentDecl>, n: int) -> Seq<char>
    decreases n,
{
    if n <= 0 {
        Seq::empty()
    } else {
        custom_type_entries(decls, n - 1) + "        "@ + decls[n - 1].name@ + " = "@ + dec_str(
            (n - 1) as nat,
        ) + ",\n"@
    }
}

/// The overlapped union members of the project component wire union.
pub open spec fn union_member_lines(decls: Seq<ComponentDecl>, n: int) -> Seq<char>
    decreases n,
{
    if n <= 0 {
        Seq::empty()
    } else {
        union_member_lines(decls, n - 1) + "        [FieldOffset(0)] public "@ + decls[n
            - 1].name@ + " "@ + decls[n - 1].name@ + ";\n"@
    }
}

/// The aggregate wire-type artifact of the project component category:
/// the tagged data record, the dense tag enumeration in declaration order,
/// and the union of all category members.
pub open spec fn custom_component_file_text(decls: Seq<ComponentDecl>) -> Seq<char> {
    "namespace unrust.userland\n{\n    [StructLayout(LayoutKind.Sequential)]\n    public struct CustomData\n    {\n        public CustomType ty;\n        public CustomComponents value;\n    }\n\n    public enum CustomType : byte\n    {\n"@
        + custom_type_entries(decls, decls.len() as int)
        + "    }\n\n    [StructLayout(LayoutKind.Explicit)]\n    public struct CustomComponents\n    {\n        public const int ComponentCount = "@
        + dec_str(decls.len()) + ";\n"@ + union_member_lines(decls, decls.len() as int)
        + "    }\n}\n"@
}

/// Appends the project component tag enumeration entries to `out`.
fn push_custom_type_entries(out: &mut String, decls: &Vec<ComponentDecl>)
    ensures
        final(out)@ == old(out)@ + custom_type_entries(decls@, decls@.len() as int),
{
    let ghost entry = out@;
    let mut i: usize = 0;
    while i < decls.len()
        invariant
            0 <= i <= decls@.len(),
            out@ == entry + custom_type_entries(decls@, i as int),
        decreases decls@.len() - i,
    {
        let tag = usize_to_string(i);
        out.append("        ");
        out.append(decls[i].name.as_str());
        out.append(" = ");
        out.append(tag.as_str());
        out.append(",\n");
        proof {
            assert(out@ =~= entry + custom_type_entries(decls@, i + 1));
        }
        i = i + 1;
    }
    proof {
        assert(custom_type_entries(decls@, 0) =~= Seq::<char>::empty());
    }
}

/// Appends the union member lines to `out`.
fn push_union_member_lines(out: &mut String, decls: &Vec<ComponentDecl>)
    ensures
        final(out)@ == old(out)@ + union_member_lines(decls@, decls@.len() as int),
{
    let ghost entry = out@;
    let mut i: usize = 0;
    while i < decls.len()
        invariant
            0 <= i <= decls@.len(),
            out@ == entry + union_member_lines(decls@, i as int),
        decreases decls@.len() - i,
    {
        out.append("        [FieldOffset(0)] public ");
        out.append(decls[i].name.as_str());
        out.append(" ");
        out.append(decls[i].name.as_str());
        out.append(";\n");
        proof {
            assert(out@ =~= entry + union_member_lines(decls@, i + 1));
        }
        i = i + 1;
    }
    proof {
        assert(union_member_lines(decls@, 0) =~= Seq::<char>::empty());
    }
}

/// Emits the aggregate wire-type artifact of the project component
/// category.
pub fn generate_components_csharp(decls: &Vec<ComponentDecl>) -> (r: String)
    ensures
        r@ == custom_component_file_text(decls@),
{
    let mut out =
        "namespace unrust.userland\n{\n    [StructLayout(LayoutKind.Sequential)]\n    public struct CustomData\n    {\n        public CustomType ty;\n        public CustomComponents value;\n    }\n\n    public enum CustomType : byte\n    {\n".to_owned();
    push_custom_type_entries(&mut out, decls);
    out.append(
        "    }\n\n    [StructLayout(LayoutKind.Explicit)]\n    public struct CustomComponents\n    {\n        public const int ComponentCount = ",
    );
    let count = usize_to_string(decls.len());
    out.append(count.as_str());
    out.append(";\n");
    push_union_member_lines(&mut out, decls);
    out.append("    }\n}\n");
    proof {
        assert(out@ =~= custom_component_file_text(decls@));
    }
    out
}

/// The ordinal enumeration entries of one state enumeration: each declared
/// variant equated to its zero-based declaration position, which is the
/// byte value that selects it on the wire.
pub open spec fn state_variant_entries(variants: Seq<String>, n: int) -> Seq<char>
    decreases n,
{
    if n <= 0 {
        Seq::empty()
    } else {
        state_variant_entries(variants, n - 1) + "            "@ + variants[n - 1]@ + " = "@
            + dec_str((n - 1) as nat) + ",\n"@
    }
}

/// The complete mirror artifact for one state enumeration: a one-byte
/// mirror record, a named ordinal enumeration matching declared variant
/// order, and bake-time logic copying the selected ordinal into the byte.
pub open spec fn state_authoring_text(s: StateDecl) -> Seq<char> {
    "namespace unrust.userland\n{\n    [StructLayout(LayoutKind.Sequential)]\n    public struct "@
        + s.name@ + " : IComponentData\n    {\n        public sbyte Value;\n    }\n\n    public class "@
        + s.name@ + "Authoring : MonoBehaviour\n    {\n        public enum ENUM_"@ + s.name@
        + " : sbyte\n        {\n"@ + state_variant_entries(s.variants@, s.variants@.len() as int)
        + "        }\n\n        [SerializeField]\n        public ENUM_"@ + s.name@ + " "@ + s.name@
        + ";\n\n        class Baker : Baker<"@ + s.name@
        + "Authoring>\n        {\n            public override void Bake("@ + s.name@
        + "Authoring authoring)\n            {\n                var entity = GetEntity(TransformUsageFlags.None);\n                AddComponent(entity, new "@
        + s.name@
        + "\n                {\n                    Value = (sbyte)authoring."@ + s.name@
        + "\n                });\n            }\n        }\n    }\n}\n"@
}

/// Appends the ordinal enumeration entries of one state enumeration.
fn push_state_variant_entries(out: &mut String, variants: &Vec<String>)
    ensures
        final(out)@ == old(out)@ + state_variant_entries(variants@, variants@.len() as int),
{
    let ghost entry = out@;
    let mut i: usize = 0;
    while i < variants.len()
        invariant
            0 <= i <= variants@.len(),
            out@ == entry + state_variant_entries(variants@, i as int),
        decreases variants@.len() - i,
    {
        let tag = usize_to_string(i);
        out.append("            ");
        out.append(variants[i].as_str());
        out.append(" = ");
        out.append(tag.as_str());
        out.append(",\n");
        proof {
            assert(out@ =~= entry + state_variant_entries(variants@, i + 1));
        }
        i = i + 1;
    }
    proof {
        assert(state_variant_entries(variants@, 0) =~= Seq::<char>::empty());
    }
}

/// Emits the mirror artifact for one state enumeration.
pub fn generate_state_authoring(s: &StateDecl) -> (r: String)
    ensures
        r@ == state_authoring_text(*s),
{
    let mut out =
        "namespace unrust.userland\n{\n    [StructLayout(LayoutKind.Sequential)]\n    public struct ".to_owned();
    out.append(s.name.as_str());
    out.append(
        " : IComponentData\n    {\n        public sbyte Value;\n    }\n\n    public class ",
    );
    out.append(s.name.as_str());
    out.append("Authoring : MonoBehaviour\n    {\n        public enum ENUM_");
    out.append(s.name.as_str());
    out.append(" : sbyte\n        {\n");
    push_state_variant_entries(&mut out, &s.variants);
    out.append("        }\n\n        [SerializeField]\n        public ENUM_");
    out.append(s.name.as_str());
    out.append(" ");
    out.append(s.name.as_str());
    out.append(";\n\n        class Baker : Baker<");
    out.append(s.name.as_str());
    out.append("Authoring>\n        {\n            public override void Bake(");
    out.append(s.name.as_str());
    out.append(
        "Authoring authoring)\n            {\n                var entity = GetEntity(TransformUsageFlags.None);\n                AddComponent(entity, new ",
    );
    out.append(s.name.as_str());
    out.append("\n                {\n                    Value = (sbyte)authoring.");
    out.append(s.name.as_str());
    out.append("\n                });\n            }\n        }\n    }\n}\n");
    proof {
        assert(out@ =~= state_authoring_text(*s));
    }
    out
}

/// The tag enumeration entries of the state category.
pub open spec fn state_type_entries(decls: Seq<StateDecl>, n: int) -> Seq<char>
    decreases n,
{
    if n <= 0 {
        Seq::empty()
    } else {
        state_type_entries(decls, n - 1) + "        "@ + decls[n - 1].name@ + " = "@ + dec_str(
            (n - 1) as nat,
        ) + ",\n"@
    }
}

/// The aggregate wire-type artifact of the state category: the tagged
/// single-byte state record and the dense state tag enumeration.
pub open spec fn state_file_text(decls: Seq<StateDecl>) -> Seq<char> {
    "namespace unrust.userland\n{\n    [StructLayout(LayoutKind.Sequential)]\n    public struct CustomState\n    {\n        public const int CustomStateCount = "@
        + dec_str(decls.len())
        + ";\n        public CustomStateType ty;\n        public sbyte value;\n    }\n\n    public enum CustomStateType : byte\n    {\n"@
        + state_type_entries(decls, decls.len() as int) + "    }\n}\n"@
}

/// Appends the state tag enumeration entries to `out`.
fn push_state_type_entries(out: &mut String, decls: &Vec<StateDecl>)
    ensures
        final(out)@ == old(out)@ + state_type_entries(decls@, decls@.len() as int),
{
    let ghost entry = out@;
    let mut i: usize = 0;
    while i < decls.len()
        invariant
            0 <= i <= decls@.len(),
            out@ == entry + state_type_entries(decls@, i as int),
        decreases decls@.len() - i,
    {
        let tag = usize_to_string(i);
        out.append("        ");
        out.append(decls[i].name.as_str());
        out.append(" = ");
        out.append(tag.as_str());
        out.append(",\n");
        proof {
            assert(out@ =~= entry + state_type_entries(decls@, i + 1));
        }
        i = i + 1;
    }
    proof {
        assert(state_type_entries(decls@, 0) =~= Seq::<char>::empty());
    }
}

/// Emits the aggregate wire-type artifact of the state category.
pub fn generate_states_csharp(decls: &Vec<StateDecl>) -> (r: String)
    ensures
        r@ == state_file_text(decls@),
{
    let mut out =
        "namespace unrust.userland\n{\n    [StructLayout(LayoutKind.Sequential)]\n    public struct CustomState\n    {\n        public const int CustomStateCount = ".to_owned();
    let count = usize_to_string(decls.len());
    out.append(count.as_str());
    out.append(
        ";\n        public CustomStateType ty;\n        public sbyte value;\n    }\n\n    public enum CustomStateType : byte\n    {\n",
    );
    push_state_type_entries(&mut out, decls);
    out.append("    }\n}\n");
    proof {
        assert(out@ =~= state_file_text(decls@));
    }
    out
}

/// The per-variant template reference fields of one prefab enumeration.
pub open spec fn prefab_field_lines(variants: Seq<String>, n: int) -> Seq<char>
    decreases n,
{
    if n <= 0 {
        Seq::empty()
    } else {
        prefab_field_lines(variants, n - 1) + "        public GameObject "@ + variants[n - 1]@
            + ";\n"@
    }
}

/// The bake-time lines registering each referenced template into the
/// prefab buffer, in declared variant order.
pub open spec fn prefab_bake_lines(variants: Seq<String>, n: int) -> Seq<char>
    decreases n,
{
    if n <= 0 {
        Seq::empty()
    } else {
        prefab_bake_lines(variants, n - 1) + "                buffer.Add(GetEntity(authoring."@
            + variants[n - 1]@ + ", TransformUsageFlags.Dynamic));\n"@
    }
}

/// The complete mirror artifact for one prefab enumeration: a per-variant
/// reference list and bake-time logic registering each referenced template
/// as a buffer entry tagged with the enumeration's resource id (its
/// zero-based declaration index).
pub open spec fn prefab_authoring_text(p: PrefabDecl, index: nat) -> Seq<char> {
    "namespace unrust.userland\n{\n    public class "@ + p.name@
        + "Authoring : MonoBehaviour\n    {\n"@ + prefab_field_lines(
        p.variants@,
        p.variants@.len() as int,
    ) + "\n        public const int RESOURCE_ID = "@ + dec_str(index)
        + ";\n\n        class Baker : Baker<"@ + p.name@
        + "Authoring>\n        {\n            public override void Bake("@ + p.name@
        + "Authoring authoring)\n            {\n                var containerEntity = GetEntity(TransformUsageFlags.None);\n                var buffer = AddBuffer<UnrustSpawnable>(containerEntity).Reinterpret<Entity>();\n"@
        + prefab_bake_lines(p.variants@, p.variants@.len() as int)
        + "                AddComponent<UnrustResourceID>(containerEntity, new UnrustResourceID { Value = "@
        + dec_str(index) + " });\n            }\n        }\n    }\n}\n"@
}

/// Appends the per-variant reference fields to `out`.
fn push_prefab_field_lines(out: &mut String, variants: &Vec<String>)
    ensures
        final(out)@ == old(out)@ + prefab_field_lines(variants@, variants@.len() as int),
{
    let ghost entry = out@;
    let mut i: usize = 0;
    while i < variants.len()
        invariant
            0 <= i <= variants@.len(),
            out@ == entry + prefab_field_lines(variants@, i as int),
        decreases variants@.len() - i,
    {
        out.append("        public GameObject ");
        out.append(variants[i].as_str());
        out.append(";\n");
        proof {
            assert(out@ =~= entry + prefab_field_lines(variants@, i + 1));
        }
        i = i + 1;
    }
    proof {
        assert(prefab_field_lines(variants@, 0) =~= Seq::<char>::empty());
    }
}

/// Appends the bake-time buffer registration lines to `out`.
fn push_prefab_bake_lines(out: &mut String, variants: &Vec<String>)
    ensures
        final(out)@ == old(out)@ + prefab_bake_lines(variants@, variants@.len() as int),
{
    let ghost entry = out@;
    let mut i: usize = 0;
    while i < variants.len()
        invariant
            0 <= i <= variants@.len(),
            out@ == entry + prefab_bake_lines(variants@, i as int),
        decreases variants@.len() - i,
    {
        out.append("                buffer.Add(GetEntity(authoring.");
        out.append(variants[i].as_str());
        out.append(", TransformUsageFlags.Dynamic));\n");
        proof {
            assert(out@ =~= entry + prefab_bake_lines(variants@, i + 1));
        }
        i = i + 1;
    }
    proof {
        assert(prefab_bake_lines(variants@, 0) =~= Seq::<char>::empty());
    }
}

/// Emits the mirror artifact for one prefab enumeration; `index` is the
/// enumeration's resource id, its zero-based declaration position.
pub fn generate_prefab_authoring(p: &PrefabDecl, index: usize) -> (r: String)
    ensures
        r@ == prefab_authoring_text(*p, index as nat),
{
    let mut out = "namespace unrust.userland\n{\n    public class ".to_owned();
    out.append(p.name.as_str());
    out.append("Authoring : MonoBehaviour\n    {\n");
    push_prefab_field_lines(&mut out, &p.variants);
    out.append("\n        public const int RESOURCE_ID = ");
    let id = usize_to_string(index);
    out.append(id.as_str());
    out.append(";\n\n        class Baker : Baker<");
    out.append(p.name.as_str());
    out.append("Authoring>\n        {\n            public override void Bake(");
    out.append(p.name.as_str());
    out.append(
        "Authoring authoring)\n            {\n                var containerEntity = GetEntity(TransformUsageFlags.None);\n                var buffer = AddBuffer<UnrustSpawnable>(containerEntity).Reinterpret<Entity>();\n",
    );
    push_prefab_bake_lines(&mut out, &p.variants);
    out.append(
        "                AddComponent<UnrustResourceID>(containerEntity, new UnrustResourceID { Value = ",
    );
    out.append(id.as_str());
    out.append(" });\n            }\n        }\n    }\n}\n");
    proof {
        assert(out@ =~= prefab_authoring_text(*p, index as nat));
    }
    out
}

/// The static-encoder fragment for one project component: test for
/// presence, then append one tagged record.  The fragments appear in
/// declaration order, which is tag order.
pub open spec fn custom_create_entry(name: Seq<char>) -> Seq<char> {
    "                if (manager.HasComponent<"@ + name
        + ">(entity))\n                {\n                    arr[count] = new CustomData\n                    {\n                        ty = CustomType."@
        + name + ",\n                        value = new CustomComponents { "@ + name
        + " = manager.GetComponentData<"@ + name
        + ">(entity) },\n                    };\n                    count++;\n                }\n"@
}

/// The static-encoder fragments of all project components, in tag order.
pub open spec fn custom_create_entries(decls: Seq<ComponentDecl>, n: int) -> Seq<char>
    decreases n,
{
    if n <= 0 {
        Seq::empty()
    } else {
        custom_create_entries(decls, n - 1) + custom_create_entry(decls[n - 1].name@)
    }
}

/// The parallel encoder fragment for one state enumeration.
pub open spec fn state_create_entry(name: Seq<char>) -> Seq<char> {
    "                if (manager.HasComponent<"@ + name
        + ">(entity))\n                {\n                    stateArr[stateCount] = new CustomState\n                    {\n                        ty = CustomStateType."@
        + name + ",\n                        value = manager.GetComponentData<"@ + name
        + ">(entity).Value,\n                    };\n                    stateCount++;\n                }\n"@
}

/// The parallel encoder fragments of all state enumerations, in tag order.
pub open spec fn state_create_entries(decls: Seq<StateDecl>, n: int) -> Seq<char>
    decreases n,
{
    if n <= 0 {
        Seq::empty()
    } else {
        state_create_entries(decls, n - 1) + state_create_entry(decls[n - 1].name@)
    }
}

/// The hooks artifact: the host-side registration hook and the static
/// encoder that walks a live host entity and serializes its attached known
/// components, in tag order, into the tagged-union arrays the embedded
/// side expects.
pub open spec fn hooks_file_text(s: Schema) -> Seq<char> {
    "namespace unrust.userland\n{\n    public static class UnrustHooks\n    {\n        [RuntimeInitializeOnLoadMethod(RuntimeInitializeLoadType.BeforeSceneLoad)]\n        static void Initialize()\n        {\n            NativeWrapper.CustomCreates = CreateCallback;\n        }\n\n        public static unsafe ulong CreateCallback(EntityManager manager, Entity entity, CustomCreateCallback cb)\n        {\n            var count = 0;\n            var arr = new CustomData[CustomComponents.ComponentCount];\n\n"@
        + custom_create_entries(s.components@, s.components@.len() as int)
        + "\n            var stateCount = 0;\n            var stateArr = new CustomState[CustomState.CustomStateCount];\n\n"@
        + state_create_entries(s.states@, s.states@.len() as int)
        + "\n            fixed (void* ptr = arr)\n            {\n                fixed (void* state = stateArr)\n                {\n                    return cb(ptr, (nuint)count, state, (nuint)stateCount);\n                }\n            }\n        }\n    }\n}\n"@
}

/// Appends the static-encoder fragments of the project components.
fn push_custom_create_entries(out: &mut String, decls: &Vec<ComponentDecl>)
    ensures
        final(out)@ == old(out)@ + custom_create_entries(decls@, decls@.len() as int),
{
    let ghost entry = out@;
    let mut i: usize = 0;
    while i < decls.len()
        invariant
            0 <= i <= decls@.len(),
            out@ == entry + custom_create_entries(decls@, i as int),
        decreases decls@.len() - i,
    {
        out.append("                if (manager.HasComponent<");
        out.append(decls[i].name.as_str());
        out.append(
            ">(entity))\n                {\n                    arr[count] = new CustomData\n                    {\n                        ty = CustomType.",
        );
        out.append(decls[i].name.as_str());
        out.append(",\n                        value = new CustomComponents { ");
        out.append(decls[i].name.as_str());
        out.append(" = manager.GetComponentData<");
        out.append(decls[i].name.as_str());
        out.append(
            ">(entity) },\n                    };\n                    count++;\n                }\n",
        );
        proof {
            assert(out@ =~= entry + custom_create_entries(decls@, i + 1));
        }
        i = i + 1;
    }
    proof {
        assert(custom_create_entries(decls@, 0) =~= Seq::<char>::empty());
    }
}

/// Appends the parallel encoder fragments of the state enumerations.
fn push_state_create_entries(out: &mut String, decls: &Vec<StateDecl>)
    ensures
        final(out)@ == old(out)@ + state_create_entries(decls@, decls@.len() as int),
{
    let ghost entry = out@;
    let mut i: usize = 0;
    while i < decls.len()
        invariant
            0 <= i <= decls@.len(),
            out@ == entry + state_create_entries(decls@, i as int),
        decreases decls@.len() - i,
    {
        out.append("                if (manager.HasComponent<");
        out.append(decls[i].name.as_str());
        out.append(
            ">(entity))\n                {\n                    stateArr[stateCount] = new CustomState\n                    {\n                        ty = CustomStateType.",
        );
        out.append(decls[i].name.as_str());
        out.append(",\n                        value = manager.GetComponentData<");
        out.append(decls[i].name.as_str());
        out.append(
            ">(entity).Value,\n                    };\n                    stateCount++;\n                }\n",
        );
        proof {
            assert(out@ =~= entry + state_create_entries(decls@, i + 1));
        }
        i = i + 1;
    }
    proof {
        assert(state_create_entries(decls@, 0) =~= Seq::<char>::empty());
    }
}

/// Emits the hooks artifact.
pub fn generate_hooks(s: &Schema) -> (r: String)
    ensures
        r@ == hooks_file_text(*s),
{
    let mut out =
        "namespace unrust.userland\n{\n    public static class UnrustHooks\n    {\n        [RuntimeInitializeOnLoadMethod(RuntimeInitializeLoadType.BeforeSceneLoad)]\n        static void Initialize()\n        {\n            NativeWrapper.CustomCreates = CreateCallback;\n        }\n\n        public static unsafe ulong CreateCallback(EntityManager manager, Entity entity, CustomCreateCallback cb)\n        {\n            var count = 0;\n            var arr = new CustomData[CustomComponents.ComponentCount];\n\n".to_owned();
    push_custom_create_entries(&mut out, &s.components);
    out.append(
        "\n            var stateCount = 0;\n            var stateArr = new CustomState[CustomState.CustomStateCount];\n\n",
    );
    push_state_create_entries(&mut out, &s.states);
    out.append(
        "\n            fixed (void* ptr = arr)\n            {\n                fixed (void* state = stateArr)\n                {\n                    return cb(ptr, (nuint)count, state, (nuint)stateCount);\n                }\n            }\n        }\n    }\n}\n",
    );
    proof {
        assert(out@ =~= hooks_file_text(*s));
    }
    out
}

/// The per-declaration artifacts of the project component category, as
/// (file name, contents) pairs in declaration order.
pub open spec fn component_files(decls: Seq<ComponentDecl>, n: int) -> Seq<(Seq<char>, Seq<char>)>
    decreases n,
{
    if n <= 0 {
        Seq::empty()
    } else {
        component_files(decls, n - 1) + seq![
            (authoring_file_name(decls[n - 1].name@), component_authoring_text(decls[n - 1])),
        ]
    }
}

/// The per-declaration artifacts of the state category.
pub open spec fn state_files(decls: Seq<StateDecl>, n: int) -> Seq<(Seq<char>, Seq<char>)>
    decreases n,
{
    if n <= 0 {
        Seq::empty()
    } else {
        state_files(decls, n - 1) + seq![
            (authoring_file_name(decls[n - 1].name@), state_authoring_text(decls[n - 1])),
        ]
    }
}

/// The per-declaration artifacts of the prefab category; the artifact of
/// the n-th declaration embeds its resource id n.
pub open spec fn prefab_files(decls: Seq<PrefabDecl>, n: int) -> Seq<(Seq<char>, Seq<char>)>
    decreases n,
{
    if n <= 0 {
        Seq::empty()
    } else {
        prefab_files(decls, n - 1) + seq![
            (
                authoring_file_name(decls[n - 1].name@),
                prefab_authoring_text(decls[n - 1], (n - 1) as nat),
            ),
        ]
    }
}

/// Every artifact one generation run produces, in emission order: one
/// mirror file per declared component, the component aggregate, one file
/// per state enumeration, the state aggregate, one file per prefab
/// enumeration, and the hooks file.
pub open spec fn generated_files(s: Schema) -> Seq<(Seq<char>, Seq<char>)> {
    component_files(s.components@, s.components@.len() as int) + seq![
        ("UnrustComponent.cs"@, custom_component_file_text(s.components@)),
    ] + state_files(s.states@, s.states@.len() as int) + seq![
        ("UnrustState.cs"@, state_file_text(s.states@)),
    ] + prefab_files(s.prefabs@, s.prefabs@.len() as int) + seq![
        ("UnrustHooks.cs"@, hooks_file_text(s)),
    ]
}

/// The (name, contents) views of a generated file list.
pub open spec fn file_views(files: Seq<GeneratedFile>) -> Seq<(Seq<char>, Seq<char>)> {
    files.map_values(|f: GeneratedFile| (f.name@, f.contents@))
}

proof fn lemma_file_views_push(files: Seq<GeneratedFile>, f: GeneratedFile)
    ensures
        file_views(files.push(f)) == file_views(files).push((f.name@, f.contents@)),
{
    assert(file_views(files.push(f)) =~~= file_views(files).push((f.name@, f.contents@)));
}

/// Runs the mirror code generator on the schema.  Generation either fails,
/// before any artifact is produced, because a component field type is
/// outside the supported primitive numeric set, or yields the complete
/// artifact list pinned by [`generated_files`].
pub fn generate_csharp(s: &Schema) -> (r: Result<Vec<GeneratedFile>, GenError>)
    ensures
        r is Ok <==> schema_supported(*s),
        r matches Err(e) ==> e == GenError::UnsupportedFieldType,
        r matches Ok(files) ==> file_views(files@) == generated_files(*s),
{
    let mut check: usize = 0;
    while check < s.components.len()
        invariant
            0 <= check <= s.components@.len(),
            forall|j: int| 0 <= j < check ==> component_supported(s.components@[j]),
        decreases s.components@.len() - check,
    {
        if !component_fields_supported(&s.components[check]) {
            return Err(GenError::UnsupportedFieldType);
        }
        check = check + 1;
    }
    let mut files: Vec<GeneratedFile> = Vec::new();
    let ghost comps = s.components@;
    let mut i: usize = 0;
    proof {
        assert(file_views(files@) =~~= component_files(comps, 0));
    }
    while i < s.components.len()
        invariant
            0 <= i <= comps.len(),
            comps == s.components@,
            forall|j: int| 0 <= j < comps.len() ==> component_supported(comps[j]),
            file_views(files@) == component_files(comps, i as int),
        decreases comps.len() - i,
    {
        let name = authoring_file_name_exec(&s.components[i].name);
        let contents = generate_components_with_authoring(&s.components[i]);
        files.push(GeneratedFile { name, contents });
        proof {
            assert(file_views(files@) =~~= component_files(comps, i + 1));
        }
        i = i + 1;
    }
    let ghost base1 = component_files(comps, comps.len() as int);
    files.push(
        GeneratedFile {
            name: "UnrustComponent.cs".to_owned(),
            contents: generate_components_csharp(&s.components),
        },
    );
    let ghost base2 = base1 + seq![("UnrustComponent.cs"@, custom_component_file_text(comps))];
    proof {
        assert(file_views(files@) =~~= base2);
    }
    let ghost states = s.states@;
    let mut i: usize = 0;
    while i < s.states.len()
        invariant
            0 <= i <= states.len(),
            states == s.states@,
            file_views(files@) == base2 + state_files(states, i as int),
        decreases states.len() - i,
    {
        let name = authoring_file_name_exec(&s.states[i].name);
        let contents = generate_state_authoring(&s.states[i]);
        let gfile = GeneratedFile { name, contents };
        let ghost pre = files@;
        let ghost gf = gfile;
        files.push(gfile);
        proof {
            lemma_file_views_push(pre, gf);
            assert(file_views(files@) =~~= base2 + state_files(states, i + 1));
        }
        i = i + 1;
    }
    files.push(
        GeneratedFile {
            name: "UnrustState.cs".to_owned(),
            contents: generate_states_csharp(&s.states),
        },
    );
    let ghost base3 = base2 + state_files(states, states.len() as int) + seq![
        ("UnrustState.cs"@, state_file_text(states)),
    ];
    proof {
        assert(file_views(files@) =~~= base3);
    }
    let ghost prefabs = s.prefabs@;
    let mut i: usize = 0;
    while i < s.prefabs.len()
        invariant
            0 <= i <= prefabs.len(),
            prefabs == s.prefabs@,
            file_views(files@) == base3 + prefab_files(prefabs, i as int),
        decreases prefabs.len() - i,
    {
        let name = authoring_file_name_exec(&s.prefabs[i].name);
        let contents = generate_prefab_authoring(&s.prefabs[i], i);
        let gfile = GeneratedFile { name, contents };
        let ghost pre = files@;
        let ghost gf = gfile;
        files.push(gfile);
        proof {
            lemma_file_views_push(pre, gf);
            assert(file_views(files@) =~~= base3 + prefab_files(prefabs, i + 1));
        }
        i = i + 1;
    }
    files.push(
        GeneratedFile { name: "UnrustHooks.cs".to_owned(), contents: generate_hooks(s) },
    );
    proof {
        assert(file_views(files@) =~~= generated_files(*s));
    }
    Ok(files)
}

/// The views of a list of strings.
pub open spec fn string_views(ss: Seq<String>) -> Seq<Seq<char>> {
    ss.map_values(|s: String| s@)
}

/// The names among the first `n` that end in `suffix`: the stale artifacts
/// a regeneration must remove, in their original order.
pub open spec fn files_to_clear(names: Seq<Seq<char>>, suffix: Seq<char>, n: int) -> Seq<Seq<char>>
    decreases n,
{
    if n <= 0 {
        Seq::empty()
    } else {
        files_to_clear(names, suffix, n - 1) + (if ends_with(names[n - 1], suffix) {
            seq![names[n - 1]]
        } else {
            Seq::empty()
        })
    }
}

/// Whether `name` ends in `suffix`, executably.
pub fn str_ends_with(name: &String, suffix: &str) -> (r: bool)
    ensures
        r == ends_with(name@, suffix@),
{
    let nlen = name.as_str().unicode_len();
    let slen = suffix.unicode_len();
    if nlen < slen {
        return false;
    }
    let tail = name.as_str().substring_char(nlen - slen, nlen);
    let tail_string: String = tail.to_owned();
    let suffix_string: String = suffix.to_owned();
    tail_string == suffix_string
}

/// Selects the files a regeneration must first remove from its output
/// directory: those whose name ends in a dot and the generated-artifact
/// extension.  Stale artifacts from removed declarations must not linger,
/// or they would silently keep stale tags valid.
pub fn clear_contents(names: &Vec<String>, extension: &str) -> (r: Vec<String>)
    ensures
        string_views(r@) == files_to_clear(string_views(names@), "."@ + extension@, names@.len() as int),
{
    let mut suffix: String = ".".to_owned();
    suffix.append(extension);
    let ghost sfx = "."@ + extension@;
    let ghost views = string_views(names@);
    let mut r: Vec<String> = Vec::new();
    let mut i: usize = 0;
    proof {
        assert(string_views(r@) =~= files_to_clear(views, sfx, 0));
    }
    while i < names.len()
        invariant
            0 <= i <= names@.len(),
            suffix@ == sfx,
            views == string_views(names@),
            string_views(r@) == files_to_clear(views, sfx, i as int),
        decreases names@.len() - i,
    {
        if str_ends_with(&names[i], suffix.as_str()) {
            r.push(names[i].clone());
        }
        proof {
            assert(string_views(r@) =~~= files_to_clear(views, sfx, i + 1));
        }
        i = i + 1;
    }
    r
}

/// Positions and lengths of the per-declaration component artifacts.
pub proof fn lemma_component_files_index(decls: Seq<ComponentDecl>, n: int)
    requires
        0 <= n <= decls.len(),
    ensures
        component_files(decls, n).len() == n,
        forall|j: int|
            0 <= j < n ==> component_files(decls, n)[j] == (
                authoring_file_name(decls[j].name@),
                component_authoring_text(decls[j]),
            ),
    decreases n,
{
    if n > 0 {
        lemma_component_files_index(decls, n - 1);
    }
}

/// The mirror code generator is a function of the schema alone: running
/// it twice on equal schemas yields byte-identical artifact lists, name
/// for name and byte for byte.  Together with `generate_csharp`'s
/// contract, which pins its output to `generated_files`, this is the
/// determinism of regeneration.
pub proof fn lemma_generation_deterministic(s1: Schema, s2: Schema)
    requires
        s1 == s2,
    ensures
        generated_files(s1) == generated_files(s2),
{
}

/// Regenerating after removing the j-th component declaration removes
/// exactly that component's mirror file from the per-declaration
/// artifacts: the remaining per-declaration artifacts are unchanged, in
/// order.  (The tags embedded in the aggregate artifacts shift down by
/// one for every later declaration: see
/// [`crate::tags::lemma_removal_shifts_tags`].)
pub proof fn lemma_removed_component_removes_file(decls: Seq<ComponentDecl>, j: int)
    requires
        0 <= j < decls.len(),
    ensures
        component_files(decls.remove(j), decls.len() - 1) == component_files(
            decls,
            decls.len() as int,
        ).remove(j),
{
    let removed = decls.remove(j);
    lemma_component_files_index(decls, decls.len() as int);
    lemma_component_files_index(removed, removed.len() as int);
    assert(component_files(removed, decls.len() - 1) =~~= component_files(
        decls,
        decls.len() as int,
    ).remove(j));
}

} // verus!
