//! The builtin component category: the components shipped with the
//! framework that every project exchanges across the boundary.
//!
//! Builtin declaration order is fixed — the parent relation, the host
//! entity identity, the asset reference, the transform — and each builtin
//! receives the tag equal to its position in that order.  The transform's
//! matrix cells cross the boundary as raw 32-bit IEEE-754 bit patterns;
//! the bridge never interprets them, it only moves them, so they are held
//! here as opaque `u32` bit patterns.

use vstd::prelude::*;

verus! {

/// The host's identity for an entity: an opaque copy of the host engine's
/// own index/version handle.  The bridge never interprets it.
#[derive(PartialEq, Eq, Structural, Clone, Copy, Debug)]
pub struct UnityEntity {
    pub index: i32,
    pub version: i32,
}

/// A host asset reference: a 128-bit content hash in four 32-bit words.
#[derive(PartialEq, Eq, Clone, Copy, Debug)]
pub struct UnityGUID {
    pub hash: [u32; 4],
}

/// The parent (ownership) relation: the bit representation of the embedded
/// engine's handle for the parent entity.
#[derive(PartialEq, Eq, Structural, Clone, Copy, Debug)]
pub struct UnityParent {
    pub entity: u64,
}

/// A column-major 4x4 transform matrix; each cell is the raw bit pattern
/// of one 32-bit float, carried opaquely.
#[derive(PartialEq, Eq, Clone, Copy, Debug)]
pub struct UnityTransform {
    pub mat: [u32; 16],
}

/// One tagged data record of the builtin category.  The variant is the
/// wire tag; the payload's meaning is defined entirely by it.
#[derive(PartialEq, Eq, Clone, Copy, Debug)]
pub enum InbuiltData {
    UnityParent(UnityParent),
    UnityEntity(UnityEntity),
    UnityGUID(UnityGUID),
    UnityTransform(UnityTransform),
}

/// The wire tag of a builtin record: its variant's zero-based position in
/// the fixed builtin declaration order.
pub open spec fn inbuilt_tag(d: InbuiltData) -> int {
    match d {
        InbuiltData::UnityParent(_) => 0,
        InbuiltData::UnityEntity(_) => 1,
        InbuiltData::UnityGUID(_) => 2,
        InbuiltData::UnityTransform(_) => 3,
    }
}

/// Mirror source text for the host entity identity wire type.
pub open spec fn unity_entity_csharp_text() -> Seq<char> {
    "[StructLayout(LayoutKind.Sequential)]\npublic struct UnityEntity\n{\n    public int Index;\n    public int Version;\n\n    public static implicit operator Unity.Entities.Entity(UnityEntity val) => new Unity.Entities.Entity\n    {\n        Index = val.Index,\n        Version = val.Version,\n    };\n\n    public static implicit operator UnityEntity(Unity.Entities.Entity val) => new UnityEntity\n    {\n        Index = val.Index,\n        Version = val.Version,\n    };\n}\n"@
}

/// Emits the mirror source for the host entity identity wire type.
#[allow(non_snake_case)]
pub fn UnityEntity_CSHARP_TOKEN() -> (r: String)
    ensures
        r@ == unity_entity_csharp_text(),
{
    "[StructLayout(LayoutKind.Sequential)]\npublic struct UnityEntity\n{\n    public int Index;\n    public int Version;\n\n    public static implicit operator Unity.Entities.Entity(UnityEntity val) => new Unity.Entities.Entity\n    {\n        Index = val.Index,\n        Version = val.Version,\n    };\n\n    public static implicit operator UnityEntity(Unity.Entities.Entity val) => new UnityEntity\n    {\n        Index = val.Index,\n        Version = val.Version,\n    };\n}\n".to_owned()
}

/// Mirror source text for the asset reference wire type, together with the
/// prefab registration message record.
pub open spec fn unity_guid_csharp_text() -> Seq<char> {
    "[StructLayout(LayoutKind.Sequential)]\npublic unsafe struct UnityGUID\n{\n    public fixed uint hash[4];\n\n    public static implicit operator Unity.Entities.Serialization.EntityPrefabReference(UnityGUID val) => new Unity.Entities.Serialization.EntityPrefabReference(new Unity.Entities.Hash128(val.hash[0], val.hash[1], val.hash[2], val.hash[3]));\n\n    public static implicit operator UnityGUID(Unity.Entities.Serialization.EntityPrefabReference val)\n    {\n        var guid = new UnityGUID();\n        var hashes = val.AssetGUID.Value;\n        guid.hash[0] = hashes[0];\n        guid.hash[1] = hashes[1];\n        guid.hash[2] = hashes[2];\n        guid.hash[3] = hashes[3];\n        return guid;\n    }\n}\n\n[StructLayout(LayoutKind.Sequential)]\npublic unsafe struct UnityPrefab\n{\n    public int ResourceID;\n    public UnityEntity* Guid;\n    public nuint Length;\n}\n"@
}

/// Emits the mirror source for the asset reference wire type.
#[allow(non_snake_case)]
pub fn UnityGUID_CSHARP_TOKEN() -> (r: String)
    ensures
        r@ == unity_guid_csharp_text(),
{
    "[StructLayout(LayoutKind.Sequential)]\npublic unsafe struct UnityGUID\n{\n    public fixed uint hash[4];\n\n    public static implicit operator Unity.Entities.Serialization.EntityPrefabReference(UnityGUID val) => new Unity.Entities.Serialization.EntityPrefabReference(new Unity.Entities.Hash128(val.hash[0], val.hash[1], val.hash[2], val.hash[3]));\n\n    public static implicit operator UnityGUID(Unity.Entities.Serialization.EntityPrefabReference val)\n    {\n        var guid = new UnityGUID();\n        var hashes = val.AssetGUID.Value;\n        guid.hash[0] = hashes[0];\n        guid.hash[1] = hashes[1];\n        guid.hash[2] = hashes[2];\n        guid.hash[3] = hashes[3];\n        return guid;\n    }\n}\n\n[StructLayout(LayoutKind.Sequential)]\npublic unsafe struct UnityPrefab\n{\n    public int ResourceID;\n    public UnityEntity* Guid;\n    public nuint Length;\n}\n".to_owned()
}

/// Mirror source text for the parent relation wire type.
pub open spec fn unity_parent_csharp_text() -> Seq<char> {
    "[StructLayout(LayoutKind.Sequential)]\npublic unsafe struct UnityParent\n{\n    public ulong parent;\n}\n"@
}

/// Emits the mirror source for the parent relation wire type.
#[allow(non_snake_case)]
pub fn UnityParent_CSHARP_TOKEN() -> (r: String)
    ensures
        r@ == unity_parent_csharp_text(),
{
    "[StructLayout(LayoutKind.Sequential)]\npublic unsafe struct UnityParent\n{\n    public ulong parent;\n}\n".to_owned()
}

/// Mirror source text for the transform wire type.
pub open spec fn unity_transform_csharp_text() -> Seq<char> {
    "[StructLayout(LayoutKind.Sequential)]\npublic unsafe struct UnityTransform\n{\n    public fixed float matrix[16];\n\n    public static implicit operator Unity.Transforms.LocalTransform(UnityTransform val) => Unity.Transforms.LocalTransform.FromMatrix(new Unity.Mathematics.float4x4(\n        val.matrix[0], val.matrix[4], val.matrix[8], val.matrix[12],\n        val.matrix[1], val.matrix[5], val.matrix[9], val.matrix[13],\n        val.matrix[2], val.matrix[6], val.matrix[10], val.matrix[14],\n        val.matrix[3], val.matrix[7], val.matrix[11], val.matrix[15]\n    ));\n\n    public static implicit operator Unity.Transforms.LocalToWorld(UnityTransform val) => new Unity.Transforms.LocalToWorld\n    {\n        Value = new Unity.Mathematics.float4x4(\n            val.matrix[0], val.matrix[4], val.matrix[8], val.matrix[12],\n            val.matrix[1], val.matrix[5], val.matrix[9], val.matrix[13],\n            val.matrix[2], val.matrix[6], val.matrix[10], val.matrix[14],\n            val.matrix[3], val.matrix[7], val.matrix[11], val.matrix[15]\n        )\n    };\n}\n"@
}

/// Emits the mirror source for the transform wire type.
#[allow(non_snake_case)]
pub fn UnityTransform_CSHARP_TOKEN() -> (r: String)
    ensures
        r@ == unity_transform_csharp_text(),
{
    "[StructLayout(LayoutKind.Sequential)]\npublic unsafe struct UnityTransform\n{\n    public fixed float matrix[16];\n\n    public static implicit operator Unity.Transforms.LocalTransform(UnityTransform val) => Unity.Transforms.LocalTransform.FromMatrix(new Unity.Mathematics.float4x4(\n        val.matrix[0], val.matrix[4], val.matrix[8], val.matrix[12],\n        val.matrix[1], val.matrix[5], val.matrix[9], val.matrix[13],\n        val.matrix[2], val.matrix[6], val.matrix[10], val.matrix[14],\n        val.matrix[3], val.matrix[7], val.matrix[11], val.matrix[15]\n    ));\n\n    public static implicit operator Unity.Transforms.LocalToWorld(UnityTransform val) => new Unity.Transforms.LocalToWorld\n    {\n        Value = new Unity.Mathematics.float4x4(\n            val.matrix[0], val.matrix[4], val.matrix[8], val.matrix[12],\n            val.matrix[1], val.matrix[5], val.matrix[9], val.matrix[13],\n            val.matrix[2], val.matrix[6], val.matrix[10], val.matrix[14],\n            val.matrix[3], val.matrix[7], val.matrix[11], val.matrix[15]\n        )\n    };\n}\n".to_owned()
}

/// The dense tag enumeration entries of the builtin category, in its fixed
/// declaration order.
pub open spec fn unity_types_text() -> Seq<char> {
    "        UnityParent = 0,\n        UnityEntity = 1,\n        UnityGUID = 2,\n        UnityTransform = 3,\n"@
}

/// The overlapped union members of the builtin wire union.
pub open spec fn unity_union_text() -> Seq<char> {
    "        [FieldOffset(0)] public UnityParent UnityParent;\n        [FieldOffset(0)] public UnityEntity UnityEntity;\n        [FieldOffset(0)] public UnityGUID UnityGUID;\n        [FieldOffset(0)] public UnityTransform UnityTransform;\n"@
}

/// The complete builtin mirror artifact: the per-type mirror sources, the
/// builtin tagged data record, the builtin tag enumeration, the builtin
/// union, and the entity snapshot batch record.
pub open spec fn inbuilt_file_text() -> Seq<char> {
    "namespace unrust.runtime\n{\n"@ + unity_entity_csharp_text() + "\n"@
        + unity_guid_csharp_text() + "\n"@ + unity_parent_csharp_text() + "\n"@
        + unity_transform_csharp_text()
        + "\n[StructLayout(LayoutKind.Sequential)]\npublic struct UnityData\n{\n    public UnityTypes ty;\n    public UnityComponents value;\n}\n\npublic enum UnityTypes : sbyte\n{\n"@
        + unity_types_text()
        + "}\n\n[StructLayout(LayoutKind.Explicit)]\npublic unsafe struct UnityComponents\n{\n    public const int ComponentCount = 4;\n\n"@
        + unity_union_text()
        + "}\n\n[StructLayout(LayoutKind.Sequential)]\npublic unsafe struct EntityData\n{\n    public UnityEntity entity;\n    public UnityData* data;\n    public nuint len;\n}\n}\n"@
}

/// Emits the complete builtin mirror artifact.  The builtin category is
/// fixed, so this text does not depend on the project schema.
pub fn write_csharp_inbuilt() -> (r: String)
    ensures
        r@ == inbuilt_file_text(),
{
    let mut out = "namespace unrust.runtime\n{\n".to_owned();
    let entity_text = UnityEntity_CSHARP_TOKEN();
    out.append(entity_text.as_str());
    out.append("\n");
    let guid_text = UnityGUID_CSHARP_TOKEN();
    out.append(guid_text.as_str());
    out.append("\n");
    let parent_text = UnityParent_CSHARP_TOKEN();
    out.append(parent_text.as_str());
    out.append("\n");
    let transform_text = UnityTransform_CSHARP_TOKEN();
    out.append(transform_text.as_str());
    out.append(
        "\n[StructLayout(LayoutKind.Sequential)]\npublic struct UnityData\n{\n    public UnityTypes ty;\n    public UnityComponents value;\n}\n\npublic enum UnityTypes : sbyte\n{\n",
    );
    out.append(
        "        UnityParent = 0,\n        UnityEntity = 1,\n        UnityGUID = 2,\n        UnityTransform = 3,\n",
    );
    out.append(
        "}\n\n[StructLayout(LayoutKind.Explicit)]\npublic unsafe struct UnityComponents\n{\n    public const int ComponentCount = 4;\n\n",
    );
    out.append(
        "        [FieldOffset(0)] public UnityParent UnityParent;\n        [FieldOffset(0)] public UnityEntity UnityEntity;\n        [FieldOffset(0)] public UnityGUID UnityGUID;\n        [FieldOffset(0)] public UnityTransform UnityTransform;\n",
    );
    out.append(
        "}\n\n[StructLayout(LayoutKind.Sequential)]\npublic unsafe struct EntityData\n{\n    public UnityEntity entity;\n    public UnityData* data;\n    public nuint len;\n}\n}\n",
    );
    proof {
        assert(out@ =~= inbuilt_file_text());
    }
    out
}

} // verus!
