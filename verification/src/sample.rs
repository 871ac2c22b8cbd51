//! The demonstration project: the schema a small example game declares,
//! and the handful of plain types its systems share with the bridge.
//!
//! The example declares one project component (`DoRotate`, a single
//! 32-bit float field), one finite-state enumeration ([`GameState`]) and
//! one prefab enumeration ([`CubePrefabs`]).  The gameplay systems
//! themselves (rotation, parenting, falling) are host-side demo logic and
//! live outside the library.

use vstd::prelude::*;

use crate::schema::ComponentDecl;
use crate::schema::FieldDecl;
use crate::schema::PrefabDecl;
use crate::schema::Schema;
use crate::schema::StateDecl;
use crate::schema::schema_supported;
use crate::world::EntityHandle;

verus! {

/// The example game's finite-state enumeration.  Declared variant order
/// defines the byte-to-variant mapping on both sides of the boundary.
#[derive(PartialEq, Eq, Structural, Clone, Copy, Debug, Hash, Default)]
pub enum GameState {
    #[default]
    HelloCubeSimple,
    PrefabCube,
    Parenting,
    Enableable,
    Boids,
}

/// The wire ordinal of a game state: its zero-based declaration position.
pub open spec fn game_state_ordinal(s: GameState) -> u8 {
    match s {
        GameState::HelloCubeSimple => 0,
        GameState::PrefabCube => 1,
        GameState::Parenting => 2,
        GameState::Enableable => 3,
        GameState::Boids => 4,
    }
}

/// Converts a game state to its wire ordinal.
pub fn game_state_to_ordinal(s: GameState) -> (r: u8)
    ensures
        r == game_state_ordinal(s),
{
    match s {
        GameState::HelloCubeSimple => 0,
        GameState::PrefabCube => 1,
        GameState::Parenting => 2,
        GameState::Enableable => 3,
        GameState::Boids => 4,
    }
}

/// The example game's prefab enumeration.
#[derive(PartialEq, Eq, Structural, Clone, Copy, Debug, Hash)]
pub enum CubePrefabs {
    HelloCube,
}

/// The variant index of a prefab: the key into its prefab resource.
pub open spec fn cube_prefab_variant(p: CubePrefabs) -> usize {
    match p {
        CubePrefabs::HelloCube => 0,
    }
}

/// Converts a prefab variant to its resource index.
pub fn cube_prefab_to_variant(p: CubePrefabs) -> (r: usize)
    ensures
        r == cube_prefab_variant(p),
{
    match p {
        CubePrefabs::HelloCube => 0,
    }
}

/// Remembers the parent an entity had before the reparenting demo detached
/// it, so it can be reattached later.
#[derive(PartialEq, Eq, Structural, Clone, Copy, Debug)]
pub struct OldParent {
    pub parent: EntityHandle,
}

/// Settings asset of the prefab-spawning demo: how many cubes to spawn.
#[derive(PartialEq, Eq, Structural, Clone, Copy, Debug)]
pub struct CubePrefabSpawnSettings {
    pub spawn_count: i32,
}

/// Resource holding the handle of the loaded spawn-settings asset.
#[derive(PartialEq, Eq, Structural, Clone, Copy, Debug)]
pub struct CubePrefabSpawnSettingsAsset(pub u64);

/// The host's asset service, at the interface the demo relies on: loading
/// a path mints the next fresh handle.
pub struct AssetServer {
    pub next_handle: u64,
}

/// Requests the spawn-settings asset from the asset service and returns
/// the resource holding its handle.  The handle is fresh: no earlier load
/// returned it.
pub fn load_spawn_cube_settings(asset_server: &mut AssetServer) -> (r: CubePrefabSpawnSettingsAsset)
    requires
        old(asset_server).next_handle < u64::MAX,
    ensures
        r.0 == old(asset_server).next_handle,
        final(asset_server).next_handle == old(asset_server).next_handle + 1,
{
    let handle = asset_server.next_handle;
    asset_server.next_handle = handle + 1;
    CubePrefabSpawnSettingsAsset(handle)
}

/// Builds the example game's schema: the single source of truth both the
/// schema compiler and the mirror code generator consume.
pub fn sample_schema() -> (s: Schema)
    ensures
        schema_supported(s),
        s.components@.len() == 1,
        s.components@[0].name@ == "DoRotate"@,
        s.components@[0].fields@.len() == 1,
        s.components@[0].fields@[0].name@ == "speed"@,
        s.components@[0].fields@[0].ty@ == "f32"@,
        s.states@.len() == 1,
        s.states@[0].name@ == "GameState"@,
        s.states@[0].variants@.len() == 5,
        s.states@[0].variants@[0]@ == "HelloCubeSimple"@,
        s.states@[0].variants@[1]@ == "PrefabCube"@,
        s.states@[0].variants@[2]@ == "Parenting"@,
        s.states@[0].variants@[3]@ == "Enableable"@,
        s.states@[0].variants@[4]@ == "Boids"@,
        s.prefabs@.len() == 1,
        s.prefabs@[0].name@ == "CubePrefabs"@,
        s.prefabs@[0].variants@.len() == 1,
        s.prefabs@[0].variants@[0]@ == "HelloCube"@,
{
    let mut fields: Vec<FieldDecl> = Vec::new();
    fields.push(FieldDecl { name: "speed".to_owned(), ty: "f32".to_owned() });
    let mut components: Vec<ComponentDecl> = Vec::new();
    components.push(ComponentDecl { name: "DoRotate".to_owned(), fields });
    let mut variants: Vec<String> = Vec::new();
    variants.push("HelloCubeSimple".to_owned());
    variants.push("PrefabCube".to_owned());
    variants.push("Parenting".to_owned());
    variants.push("Enableable".to_owned());
    variants.push("Boids".to_owned());
    let mut states: Vec<StateDecl> = Vec::new();
    states.push(StateDecl { name: "GameState".to_owned(), variants });
    let mut prefab_variants: Vec<String> = Vec::new();
    prefab_variants.push("HelloCube".to_owned());
    let mut prefabs: Vec<PrefabDecl> = Vec::new();
    prefabs.push(PrefabDecl { name: "CubePrefabs".to_owned(), variants: prefab_variants });
    Schema { components, states, prefabs }
}

} // verus!
