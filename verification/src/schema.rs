//! The schema model: a declarative description of every type that crosses
//! the host/embedded boundary.
//!
//! Declarations fall into fixed categories: project components (fixed-size
//! records of primitive numeric fields), project finite-state enumerations
//! (one byte of state on the wire), and prefab enumerations (named sets of
//! template-entity references).  The builtin component category is fixed by
//! the framework and lives in [`crate::inbuilt`].
//!
//! The schema is the single source of truth: the schema compiler
//! ([`crate::tags`]) and the mirror code generator ([`crate::codegen`])
//! both consume it, and must always run against the same schema, because
//! tag assignment is closed-world and never negotiated at runtime.

use vstd::prelude::*;

verus! {

/// One field of a declared component: the field name and the declared
/// type name, exactly as written in the declaration.
pub struct FieldDecl {
    pub name: String,
    pub ty: String,
}

/// A project component declaration: a fixed-size record of primitive
/// numeric fields, in declaration order.
pub struct ComponentDecl {
    pub name: String,
    pub fields: Vec<FieldDecl>,
}

/// A project finite-state enumeration: its declared variant order defines
/// the byte-to-variant mapping on both sides of the boundary.
pub struct StateDecl {
    pub name: String,
    pub variants: Vec<String>,
}

/// A prefab enumeration: each variant is resolved at runtime to a
/// previously spawned template entity.
pub struct PrefabDecl {
    pub name: String,
    pub variants: Vec<String>,
}

/// The project half of the schema model.  Order matters everywhere:
/// a declaration's zero-based position within its category is its wire tag.
pub struct Schema {
    pub components: Vec<ComponentDecl>,
    pub states: Vec<StateDecl>,
    pub prefabs: Vec<PrefabDecl>,
}

/// The host-language type name a supported primitive numeric type maps to,
/// or `None` for any type name outside the supported set.
pub open spec fn csharp_type_of(ty: Seq<char>) -> Option<Seq<char>> {
    if ty == "f32"@ {
        Some("float"@)
    } else if ty == "f64"@ {
        Some("double"@)
    } else if ty == "i32"@ {
        Some("int"@)
    } else if ty == "i64"@ {
        Some("long"@)
    } else if ty == "u32"@ {
        Some("uint"@)
    } else if ty == "u64"@ {
        Some("ulong"@)
    } else {
        None
    }
}

/// Whether every field of the component has a supported primitive numeric
/// type.  A component that fails this cannot be mirrored: its byte layout
/// could not be derived identically on both sides.
pub open spec fn component_supported(c: ComponentDecl) -> bool {
    forall|i: int| 0 <= i < c.fields@.len() ==> csharp_type_of(c.fields@[i].ty@) is Some
}

/// Whether every component of the schema is supported.
pub open spec fn schema_supported(s: Schema) -> bool {
    forall|i: int| 0 <= i < s.components@.len() ==> component_supported(s.components@[i])
}

/// Compares a string against a string slice.
pub fn str_eq(a: &String, b: &str) -> (r: bool)
    ensures
        r == (a@ == b@),
{
    let bs: String = b.to_owned();
    *a == bs
}

/// Maps a declared field type to the host-language (C#) type with the same
/// byte representation.  Returns `None` for a type outside the supported
/// primitive numeric set; generation must then refuse to proceed.
pub fn map_rust_type(ty: &String) -> (r: Option<String>)
    ensures
        r matches Some(s) ==> csharp_type_of(ty@) == Some(s@),
        r is None <==> csharp_type_of(ty@) is None,
{
    if str_eq(ty, "f32") {
        Some("float".to_owned())
    } else if str_eq(ty, "f64") {
        Some("double".to_owned())
    } else if str_eq(ty, "i32") {
        Some("int".to_owned())
    } else if str_eq(ty, "i64") {
        Some("long".to_owned())
    } else if str_eq(ty, "u32") {
        Some("uint".to_owned())
    } else if str_eq(ty, "u64") {
        Some("ulong".to_owned())
    } else {
        None
    }
}

/// Whether every field type of `c` is in the supported set, executably.
pub fn component_fields_supported(c: &ComponentDecl) -> (r: bool)
    ensures
        r == component_supported(*c),
{
    let mut i: usize = 0;
    while i < c.fields.len()
        invariant
            0 <= i <= c.fields@.len(),
            forall|j: int| 0 <= j < i ==> csharp_type_of(c.fields@[j].ty@) is Some,
        decreases c.fields@.len() - i,
    {
        if map_rust_type(&c.fields[i].ty).is_none() {
            return false;
        }
        i = i + 1;
    }
    true
}

} // verus!
