//! A model of the embedded engine's entity store, at the interface the
//! bridge relies on: spawn an entity, attach or read components, iterate
//! entities in stable (slot) order, despawn.
//!
//! An entity handle combines a dense slot index with a generation counter;
//! a handle is valid exactly while its slot is alive at the same
//! generation, so a handle held across a despawn can never alias a later
//! entity in the same slot.

use vstd::prelude::*;

use crate::inbuilt::InbuiltData;
use crate::inbuilt::UnityEntity;
use crate::inbuilt::UnityGUID;
use crate::inbuilt::UnityParent;
use crate::inbuilt::UnityTransform;

verus! {

/// An opaque identifier for one simulated entity: a dense slot index and
/// the generation at which the slot was claimed.
#[derive(PartialEq, Eq, Structural, Clone, Copy, Debug)]
pub struct EntityHandle {
    pub index: u32,
    pub generation: u32,
}

impl EntityHandle {
    /// The single 64-bit value a handle crosses the boundary as: the
    /// generation in the upper half, the slot index in the lower half.
    pub open spec fn spec_bits(self) -> u64 {
        (self.generation * 0x1_0000_0000 + self.index) as u64
    }

    /// Packs the handle into its 64-bit boundary representation.
    pub fn to_bits(&self) -> (r: u64)
        ensures
            r == self.spec_bits(),
    {
        (self.generation as u64) * 0x1_0000_0000u64 + (self.index as u64)
    }

    /// Unpacks a handle from its 64-bit boundary representation.
    pub fn from_bits(bits: u64) -> (h: EntityHandle)
        ensures
            h.index == bits % 0x1_0000_0000,
            h.generation == bits / 0x1_0000_0000,
            h.spec_bits() == bits,
    {
        let h = EntityHandle {
            index: (bits % 0x1_0000_0000u64) as u32,
            generation: (bits / 0x1_0000_0000u64) as u32,
        };
        proof {
            assert(h.spec_bits() == bits) by (nonlinear_arith)
                requires
                    h.index == bits % 0x1_0000_0000,
                    h.generation == bits / 0x1_0000_0000,
            ;
        }
        h
    }
}

/// Packing a handle and unpacking it again yields the same handle: the
/// 64-bit boundary representation is lossless.
pub proof fn lemma_handle_bits_roundtrip(h: EntityHandle)
    ensures
        h.spec_bits() % 0x1_0000_0000 == h.index,
        h.spec_bits() / 0x1_0000_0000 == h.generation,
{
    assert(h.spec_bits() % 0x1_0000_0000 == h.index && h.spec_bits() / 0x1_0000_0000
        == h.generation) by (nonlinear_arith)
        requires
            h.index < 0x1_0000_0000 && h.generation < 0x1_0000_0000,
    ;
}

/// Builds the parent-relation component that points at `h`.
pub fn unity_parent_of(h: EntityHandle) -> (p: UnityParent)
    ensures
        p.entity == h.spec_bits(),
{
    UnityParent { entity: h.to_bits() }
}

/// Recovers the embedded handle a parent-relation component points at.
pub fn handle_of_unity_parent(p: &UnityParent) -> (h: EntityHandle)
    ensures
        h.index == p.entity % 0x1_0000_0000,
        h.generation == p.entity / 0x1_0000_0000,
{
    EntityHandle::from_bits(p.entity)
}

/// Marker carried by an entity the host has spawned but the host side has
/// not yet materialized; the bridge encodes it into a Create batch and
/// strips the marker.
#[derive(PartialEq, Eq, Structural, Clone, Copy, Debug)]
pub struct InstantiateEntity {
    pub entity: UnityEntity,
}

/// Marker carried by an entity the embedded side wants destroyed on the
/// host; the bridge encodes it into a Destroy batch and despawns it.
#[derive(PartialEq, Eq, Structural, Clone, Copy, Debug)]
pub struct DestroyEntity {
    pub entity: UnityEntity,
}

/// The components one entity carries, as far as the bridge is concerned.
///
/// Builtin components are explicit fields; project components and states
/// are dense per-tag stores (`custom[tag]`, `states[tag]`), each entry the
/// opaque payload of that tag if the component is attached.  The `changed`
/// flags are the change tracking the per-frame Update encoding relies on:
/// set when a tracked component is attached or replaced, cleared when an
/// Update batch has encoded the entity.
pub struct EntityData {
    pub unity: Option<UnityEntity>,
    pub guid: Option<UnityGUID>,
    pub parent: Option<UnityParent>,
    pub parent_link: Option<u64>,
    pub transform: Option<UnityTransform>,
    pub transform_changed: bool,
    pub instantiate: Option<InstantiateEntity>,
    pub destroy: Option<DestroyEntity>,
    pub custom: Vec<Option<Vec<u8>>>,
    pub custom_changed: bool,
    pub states: Vec<Option<u8>>,
}

/// Whether `d` is the fresh state of a just-spawned entity: nothing
/// attached, no change pending, per-tag stores sized for the project
/// schema's `n_custom` components and `n_states` state enumerations.
pub open spec fn is_empty_data(d: EntityData, n_custom: nat, n_states: nat) -> bool {
    &&& d.unity is None
    &&& d.guid is None
    &&& d.parent is None
    &&& d.parent_link is None
    &&& d.transform is None
    &&& !d.transform_changed
    &&& d.instantiate is None
    &&& d.destroy is None
    &&& d.custom@.len() == n_custom
    &&& forall|i: int| 0 <= i < n_custom ==> d.custom@[i] is None
    &&& !d.custom_changed
    &&& d.states@.len() == n_states
    &&& forall|i: int| 0 <= i < n_states ==> d.states@[i] is None
}

/// Builds the fresh component state of a just-spawned entity.
pub fn empty_entity_data(n_custom: usize, n_states: usize) -> (d: EntityData)
    ensures
        is_empty_data(d, n_custom as nat, n_states as nat),
{
    let mut custom: Vec<Option<Vec<u8>>> = Vec::new();
    let mut i: usize = 0;
    while i < n_custom
        invariant
            0 <= i <= n_custom,
            custom@.len() == i,
            forall|j: int| 0 <= j < i ==> custom@[j] is None,
        decreases n_custom - i,
    {
        custom.push(None);
        i = i + 1;
    }
    let mut states: Vec<Option<u8>> = Vec::new();
    let mut i: usize = 0;
    while i < n_states
        invariant
            0 <= i <= n_states,
            states@.len() == i,
            forall|j: int| 0 <= j < i ==> states@[j] is None,
        decreases n_states - i,
    {
        states.push(None);
        i = i + 1;
    }
    EntityData {
        unity: None,
        guid: None,
        parent: None,
        parent_link: None,
        transform: None,
        transform_changed: false,
        instantiate: None,
        destroy: None,
        custom,
        custom_changed: false,
        states,
    }
}

/// One entity slot: whether it currently holds a live entity, the
/// generation at which it was last claimed, and the entity's components.
pub struct EntitySlot {
    pub alive: bool,
    pub generation: u32,
    pub data: EntityData,
}

/// The entity store: dense slots, plus the per-tag store sizes fixed by
/// the project schema at initialization.
pub struct World {
    pub slots: Vec<EntitySlot>,
    pub n_custom: usize,
    pub n_states: usize,
}

impl World {
    /// Whether `h` is currently a valid handle: its slot is alive at the
    /// same generation.  A handle is valid exactly from its spawn to its
    /// despawn.
    pub open spec fn live(self, h: EntityHandle) -> bool {
        &&& (h.index as int) < self.slots@.len()
        &&& self.slots@[h.index as int].alive
        &&& self.slots@[h.index as int].generation == h.generation
    }

    /// The components of the entity `h` names.
    pub open spec fn data_at(self, h: EntityHandle) -> EntityData {
        self.slots@[h.index as int].data
    }

    /// Well-formedness: every live slot's per-tag stores are sized for the
    /// project schema.
    pub open spec fn wf(self) -> bool {
        forall|i: int|
            0 <= i < self.slots@.len() && self.slots@[i].alive ==> (#[trigger] self.slots@[i]).data.custom@.len() == self.n_custom
                && self.slots@[i].data.states@.len() == self.n_states
    }

    /// Creates an empty world whose per-tag stores are sized for a project
    /// schema with `n_custom` components and `n_states` state
    /// enumerations.
    pub fn new(n_custom: usize, n_states: usize) -> (w: World)
        ensures
            w.wf(),
            w.slots@.len() == 0,
            w.n_custom == n_custom,
            w.n_states == n_states,
    {
        World { slots: Vec::new(), n_custom, n_states }
    }

    /// Whether `h` is currently valid, executably.
    pub fn is_live(&self, h: EntityHandle) -> (r: bool)
        ensures
            r == self.live(h),
    {
        (h.index as usize) < self.slots.len() && self.slots[h.index as usize].alive
            && self.slots[h.index as usize].generation == h.generation
    }

    /// Spawns a fresh, empty entity and returns its handle.  The handle
    /// was not valid before the call; every previously live entity is
    /// untouched and no other handle becomes valid.
    pub fn spawn_empty(&mut self) -> (h: EntityHandle)
        requires
            old(self).wf(),
            old(self).slots@.len() < 0x1_0000_0000,
        ensures
            final(self).wf(),
            final(self).n_custom == old(self).n_custom,
            final(self).n_states == old(self).n_states,
            final(self).live(h),
            !old(self).live(h),
            is_empty_data(
                final(self).data_at(h),
                old(self).n_custom as nat,
                old(self).n_states as nat,
            ),
            forall|h2: EntityHandle|
                h2 != h ==> (final(self).live(h2) <==> old(self).live(h2)),
            forall|h2: EntityHandle|
                h2 != h && old(self).live(h2) ==> final(self).data_at(h2) == old(self).data_at(h2),
            final(self).slots@.len() <= old(self).slots@.len() + 1,
    {
        let data = empty_entity_data(self.n_custom, self.n_states);
        let mut found: Option<usize> = None;
        let mut i: usize = 0;
        while i < self.slots.len() && found.is_none()
            invariant
                0 <= i <= self.slots@.len(),
                found matches Some(k) ==> 0 <= k < self.slots@.len()
                    && !self.slots@[k as int].alive && self.slots@[k as int].generation
                    < u32::MAX,
            decreases self.slots@.len() - i + (if found is None { 1int } else { 0int }),
        {
            if !self.slots[i].alive && self.slots[i].generation < u32::MAX {
                found = Some(i);
            } else {
                i = i + 1;
            }
        }
        match found {
            Some(k) => {
                let generation = self.slots[k].generation + 1;
                let slot = &mut self.slots[k];
                slot.alive = true;
                slot.generation = generation;
                slot.data = data;
                EntityHandle { index: k as u32, generation }
            },
            None => {
                let generation: u32 = 0;
                let index = self.slots.len();
                self.slots.push(EntitySlot { alive: true, generation, data });
                EntityHandle { index: index as u32, generation }
            },
        }
    }

    /// Despawns the entity `h` names.  Its handle stops being valid; every
    /// other entity is untouched.
    pub fn despawn(&mut self, h: EntityHandle)
        requires
            old(self).wf(),
            old(self).live(h),
        ensures
            final(self).wf(),
            final(self).n_custom == old(self).n_custom,
            final(self).n_states == old(self).n_states,
            final(self).slots@.len() == old(self).slots@.len(),
            !final(self).live(h),
            forall|h2: EntityHandle|
                h2 != h ==> (final(self).live(h2) <==> old(self).live(h2)),
            forall|h2: EntityHandle|
                h2 != h && old(self).live(h2) ==> final(self).data_at(h2) == old(self).data_at(h2),
    {
        let slot = &mut self.slots[h.index as usize];
        slot.alive = false;
    }
}

/// The entity state after one builtin record is applied through the
/// dispatch table: a parent record inserts the component and updates the
/// parent relation; a host identity record is carried by the batch but
/// applied by the bridge itself; an asset reference is a plain insert; a
/// transform record inserts the transform bundle and marks it changed.
pub open spec fn apply_inbuilt_record(d: EntityData, r: InbuiltData) -> EntityData {
    match r {
        InbuiltData::UnityParent(p) => EntityData {
            parent: Some(p),
            parent_link: Some(p.entity),
            ..d
        },
        InbuiltData::UnityEntity(_) => d,
        InbuiltData::UnityGUID(g) => EntityData { guid: Some(g), ..d },
        InbuiltData::UnityTransform(t) => EntityData {
            transform: Some(t),
            transform_changed: true,
            ..d
        },
    }
}

/// The entity state after a builtin record array is applied in order.
pub open spec fn apply_inbuilt_records(d: EntityData, rs: Seq<InbuiltData>) -> EntityData
    decreases rs.len(),
{
    if rs.len() == 0 {
        d
    } else {
        apply_inbuilt_record(apply_inbuilt_records(d, rs.drop_last()), rs.last())
    }
}

/// Applies one decoded parent record: inserts the component and reparents
/// the entity under the handle the record carries.
#[allow(non_snake_case)]
pub fn UnityParent_ingest_component(d: &mut EntityData, val: &UnityParent)
    ensures
        *final(d) == apply_inbuilt_record(*old(d), InbuiltData::UnityParent(*val)),
{
    d.parent = Some(*val);
    d.parent_link = Some(val.entity);
}

/// Applies one decoded host identity record: the identity is attached by
/// the bridge when the entity is spawned, so the record itself is a no-op.
#[allow(non_snake_case)]
pub fn UnityEntity_ingest_component(d: &mut EntityData, val: &UnityEntity)
    ensures
        *final(d) == apply_inbuilt_record(*old(d), InbuiltData::UnityEntity(*val)),
{
}

/// Applies one decoded asset reference record: a plain insert.
#[allow(non_snake_case)]
pub fn UnityGUID_ingest_component(d: &mut EntityData, val: &UnityGUID)
    ensures
        *final(d) == apply_inbuilt_record(*old(d), InbuiltData::UnityGUID(*val)),
{
    d.guid = Some(*val);
}

/// Applies one decoded transform record: inserts the transform bundle and
/// marks it changed, as any insert does.
#[allow(non_snake_case)]
pub fn UnityTransform_ingest_component(d: &mut EntityData, val: &UnityTransform)
    ensures
        *final(d) == apply_inbuilt_record(*old(d), InbuiltData::UnityTransform(*val)),
{
    d.transform = Some(*val);
    d.transform_changed = true;
}

/// Decodes a builtin record array into an entity, routing each record
/// through the dispatch table in array order.
pub fn ingest_component(d: &mut EntityData, components: &Vec<InbuiltData>)
    ensures
        *final(d) == apply_inbuilt_records(*old(d), components@),
{
    let mut i: usize = 0;
    while i < components.len()
        invariant
            0 <= i <= components@.len(),
            *d == apply_inbuilt_records(*old(d), components@.take(i as int)),
        decreases components@.len() - i,
    {
        match &components[i] {
            InbuiltData::UnityParent(p) => UnityParent_ingest_component(d, p),
            InbuiltData::UnityEntity(e) => UnityEntity_ingest_component(d, e),
            InbuiltData::UnityGUID(g) => UnityGUID_ingest_component(d, g),
            InbuiltData::UnityTransform(t) => UnityTransform_ingest_component(d, t),
        }
        proof {
            assert(components@.take(i + 1).drop_last() =~= components@.take(i as int));
            assert(components@.take(i + 1).last() == components@[i as int]);
        }
        i = i + 1;
    }
    proof {
        assert(components@.take(components@.len() as int) =~= components@);
    }
}

} // verus!
