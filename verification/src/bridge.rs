//! The runtime bridge: the lifecycle state machine and the per-step
//! systems that drive the embedded engine.
//!
//! The lifecycle is `Unloaded -> Loaded -> Initialized -> Running ->
//! Unloaded`.  All state lives in an explicit context created by [`load`]
//! and released by [`unload`]; every boundary call threads it through.
//! Inbound messages are decoded through the schema compiler's dispatch
//! table; outbound Create, Update and Destroy batches are encoded from the
//! entity store and handed back to the caller, who delivers each batch
//! synchronously to the corresponding host callback.

use vstd::prelude::*;

use crate::inbuilt::InbuiltData;
use crate::inbuilt::UnityEntity;
use crate::layout::component_size;
use crate::layout::component_size_exec;
use crate::layout::custom_stride;
use crate::layout::custom_value_offset;
use crate::layout::lemma_component_fits_union;
use crate::layout::lemma_round_up_bounds;
use crate::layout::lemma_union_align_positive;
use crate::layout::round_up_exec;
use crate::layout::union_align;
use crate::layout::union_align_exec;
use crate::layout::union_max_size;
use crate::layout::union_max_size_exec;
use crate::protocol::SnapshotBatch;
use crate::protocol::apply_custom_records;
use crate::protocol::apply_custom_records_exec;
use crate::protocol::apply_state_records;
use crate::protocol::apply_state_records_exec;
use crate::protocol::batch_sources;
use crate::protocol::blank_customs;
use crate::protocol::blank_states;
use crate::protocol::custom_blob_records;
use crate::protocol::custom_record_views;
use crate::protocol::customs_view;
use crate::protocol::decode_custom_blob;
use crate::protocol::decode_state_blob;
use crate::protocol::encode_snapshot;
use crate::protocol::last_guid;
use crate::protocol::last_parent;
use crate::protocol::last_transform;
use crate::protocol::lemma_apply_inbuilt_fields;
use crate::protocol::snapshot_batch_encodes;
use crate::protocol::state_blob_records;
use crate::protocol::state_record_views;
use crate::schema::ComponentDecl;
use crate::schema::Schema;
use crate::schema::schema_supported;
use crate::world::EntityData;
use crate::world::EntityHandle;
use crate::world::EntitySlot;
use crate::world::World;
use crate::world::ingest_component;

verus! {

/// Severity of one log event, as handed to the host's logging sink.
#[derive(PartialEq, Eq, Structural, Clone, Copy, Debug)]
pub enum LogLevel {
    Error,
    Warning,
    Info,
    Debug,
}

/// The wire ordinal of a log level, in declared severity order.
pub open spec fn log_level_ordinal(level: LogLevel) -> u8 {
    match level {
        LogLevel::Error => 0,
        LogLevel::Warning => 1,
        LogLevel::Info => 2,
        LogLevel::Debug => 3,
    }
}

/// Converts a log level to its wire ordinal.
pub fn log_level_to_ordinal(level: LogLevel) -> (r: u8)
    ensures
        r == log_level_ordinal(level),
{
    match level {
        LogLevel::Error => 0,
        LogLevel::Warning => 1,
        LogLevel::Info => 2,
        LogLevel::Debug => 3,
    }
}

/// Logging is best-effort: an event is delivered to the sink exactly when
/// a sink is attached, and dropped silently otherwise.  The caller hands
/// the returned event, if any, to the host sink.
pub fn log_event(sink_attached: bool, level: LogLevel, message: String) -> (r: Option<
    (LogLevel, String),
>)
    ensures
        r is Some <==> sink_attached,
        r matches Some(e) ==> e.0 == level && e.1@ == message@,
{
    if sink_attached {
        Some((level, message))
    } else {
        None
    }
}

/// The lifecycle phase of a bridge context.
#[derive(PartialEq, Eq, Structural, Clone, Copy, Debug)]
pub enum Phase {
    Unloaded,
    Loaded,
    Initialized,
    Running,
}

/// A prefab resource: the per-variant store of template-entity references
/// of one declared prefab enumeration.  It is allocated empty at
/// initialization — referenced entities do not exist until the host
/// supplies them — and populated exclusively by [`register_prefabs`].
pub struct PrefabResource {
    pub entries: Vec<Option<UnityEntity>>,
}

impl PrefabResource {
    /// The template reference registered for a variant, or `None` for an
    /// unregistered (or undeclared) variant.
    pub fn get_unity_prefab(&self, variant: usize) -> (r: Option<UnityEntity>)
        ensures
            (variant as int) < self.entries@.len() ==> r == self.entries@[variant as int],
            (variant as int) >= self.entries@.len() ==> r is None,
    {
        if variant < self.entries.len() {
            self.entries[variant]
        } else {
            None
        }
    }

    /// Registers one template reference per declared variant, in variant
    /// order.  References beyond the declared variant count are ignored.
    pub fn insert_prefabs(&mut self, vals: &Vec<UnityEntity>)
        requires
            vals@.len() >= old(self).entries@.len(),
        ensures
            final(self).entries@.len() == old(self).entries@.len(),
            forall|v: int|
                0 <= v < old(self).entries@.len() ==> final(self).entries@[v] == Some(vals@[v]),
    {
        let mut v: usize = 0;
        while v < self.entries.len()
            invariant
                0 <= v <= self.entries@.len(),
                vals@.len() >= self.entries@.len(),
                self.entries@.len() == old(self).entries@.len(),
                forall|j: int| 0 <= j < v ==> self.entries@[j] == Some(vals@[j]),
            decreases self.entries@.len() - v,
        {
            self.entries[v] = Some(vals[v]);
            v = v + 1;
        }
    }
}

/// The RegisterPrefabs message: a resource id selecting, by declaration
/// index, which prefab enumeration receives the references, and the
/// template-entity references themselves, in variant order.
pub struct PrefabData {
    pub ref_id: i32,
    pub guids: Vec<UnityEntity>,
}

/// Component carried by an entity that stands for a registered prefab
/// reference.
#[derive(PartialEq, Eq, Structural, Clone, Copy, Debug)]
pub struct PrefabComponent {
    pub ref_id: i32,
    pub guid: UnityEntity,
}

/// The bridge context: the exclusively-owned state behind every boundary
/// call.  Created by [`load`], initialized with the project schema by
/// [`init`], released by [`unload`].
pub struct UnrustContext {
    pub phase: Phase,
    pub log_attached: bool,
    pub schema: Schema,
    pub world: World,
    pub prefabs: Vec<PrefabResource>,
    pub custom_sizes: Vec<usize>,
    pub custom_value_off: usize,
    pub custom_stride: usize,
}

/// The per-tag component record sizes of a schema, in tag order.
pub open spec fn component_sizes(decls: Seq<ComponentDecl>) -> Seq<int> {
    Seq::new(decls.len(), |i: int| component_size(decls[i]) as int)
}

/// Well-formedness of a bridge context: the entity store, the prefab
/// resources and the cached wire layout all agree with the schema the
/// context was initialized with.
pub open spec fn ctx_wf(ctx: UnrustContext) -> bool {
    &&& ctx.world.wf()
    &&& ctx.world.n_custom == ctx.schema.components@.len()
    &&& ctx.world.n_states == ctx.schema.states@.len()
    &&& ctx.schema.components@.len() <= 256
    &&& schema_supported(ctx.schema)
    &&& ctx.prefabs@.len() == ctx.schema.prefabs@.len()
    &&& forall|i: int|
        0 <= i < ctx.prefabs@.len() ==> (#[trigger] ctx.prefabs@[i]).entries@.len()
            == ctx.schema.prefabs@[i].variants@.len()
    &&& ctx.custom_sizes@.len() == ctx.schema.components@.len()
    &&& forall|t: int|
        0 <= t < ctx.custom_sizes@.len() ==> (#[trigger] ctx.custom_sizes@[t]) as nat
            == component_size(ctx.schema.components@[t])
    &&& ctx.custom_value_off as nat == custom_value_offset(ctx.schema.components@)
    &&& ctx.custom_stride as nat == custom_stride(ctx.schema.components@)
}

/// The cached wire layout of a well-formed context is usable: the stride
/// is positive and every component payload fits inside one record.
pub proof fn lemma_ctx_layout(ctx: UnrustContext)
    requires
        ctx_wf(ctx),
    ensures
        ctx.custom_stride >= 1,
        forall|t: int|
            0 <= t < ctx.custom_sizes@.len() ==> ctx.custom_value_off + (
            #[trigger] ctx.custom_sizes@[t]) <= ctx.custom_stride,
{
    let decls = ctx.schema.components@;
    let n = decls.len() as int;
    lemma_union_align_positive(decls, n);
    lemma_round_up_bounds(1, union_align(decls, n));
    lemma_round_up_bounds(union_max_size(decls, n), union_align(decls, n));
    assert forall|t: int| 0 <= t < ctx.custom_sizes@.len() implies ctx.custom_value_off + (
    #[trigger] ctx.custom_sizes@[t]) <= ctx.custom_stride by {
        lemma_component_fits_union(decls, t, n);
    }
}

/// Allocates the bridge context, with the host's logging sink attached if
/// one was supplied.  Logs are dropped silently while no sink is attached.
pub fn load(log_attached: bool) -> (ctx: UnrustContext)
    ensures
        ctx_wf(ctx),
        ctx.phase == Phase::Loaded,
        ctx.log_attached == log_attached,
        ctx.world.slots@.len() == 0,
        ctx.schema.components@.len() == 0,
        ctx.schema.states@.len() == 0,
        ctx.schema.prefabs@.len() == 0,
{
    let schema = Schema { components: Vec::new(), states: Vec::new(), prefabs: Vec::new() };
    let ctx = UnrustContext {
        phase: Phase::Loaded,
        log_attached,
        schema,
        world: World::new(0, 0),
        prefabs: Vec::new(),
        custom_sizes: Vec::new(),
        custom_value_off: 1,
        custom_stride: 1,
    };
    proof {
        assert(ctx.custom_value_off as nat == custom_value_offset(ctx.schema.components@));
        assert(ctx.custom_stride as nat == custom_stride(ctx.schema.components@));
    }
    ctx
}

/// Performs the project's one-time setup: fixes the schema, sizes the
/// entity store's per-tag stores, allocates one empty prefab resource per
/// declared prefab enumeration, and caches the wire layout the schema
/// induces.  After `init` the static configuration is frozen.
pub fn init(ctx: &mut UnrustContext, schema: Schema)
    requires
        old(ctx).phase == Phase::Loaded,
        schema_supported(schema),
        schema.components@.len() <= 256,
        forall|i: int|
            0 <= i < schema.components@.len() ==> component_size(#[trigger] schema.components@[i])
                + 16 <= usize::MAX,
    ensures
        ctx_wf(*final(ctx)),
        final(ctx).phase == Phase::Initialized,
        final(ctx).log_attached == old(ctx).log_attached,
        final(ctx).schema == schema,
        final(ctx).world.slots@.len() == 0,
        forall|i: int|
            0 <= i < final(ctx).prefabs@.len() ==> {
                let entries = (#[trigger] final(ctx).prefabs@[i]).entries@;
                &&& entries.len() == schema.prefabs@[i].variants@.len()
                &&& forall|v: int| 0 <= v < entries.len() ==> entries[v] is None
            },
{
    let ghost decls = schema.components@;
    let mut sizes: Vec<usize> = Vec::new();
    let mut i: usize = 0;
    while i < schema.components.len()
        invariant
            0 <= i <= decls.len(),
            decls == schema.components@,
            schema_supported(schema),
            forall|j: int|
                0 <= j < decls.len() ==> component_size(#[trigger] decls[j]) + 16 <= usize::MAX,
            sizes@.len() == i,
            forall|j: int|
                0 <= j < i ==> (#[trigger] sizes@[j]) as nat == component_size(decls[j]),
        decreases decls.len() - i,
    {
        let s = component_size_exec(&schema.components[i]);
        sizes.push(s);
        i = i + 1;
    }
    let align = union_align_exec(&schema.components);
    let max_size = union_max_size_exec(&schema.components);
    proof {
        lemma_round_up_bounds(1, align as nat);
        lemma_round_up_bounds(max_size as nat, align as nat);
        if decls.len() > 0 {
            lemma_union_max_le_some_component(decls, decls.len() as int);
        }
    }
    let value_off = round_up_exec(1, align);
    let union_size = round_up_exec(max_size, align);
    let mut prefabs: Vec<PrefabResource> = Vec::new();
    let mut i: usize = 0;
    while i < schema.prefabs.len()
        invariant
            0 <= i <= schema.prefabs@.len(),
            prefabs@.len() == i,
            forall|j: int|
                0 <= j < i ==> {
                    let entries = (#[trigger] prefabs@[j]).entries@;
                    &&& entries.len() == schema.prefabs@[j].variants@.len()
                    &&& forall|v: int| 0 <= v < entries.len() ==> entries[v] is None
                },
        decreases schema.prefabs@.len() - i,
    {
        let n_variants = schema.prefabs[i].variants.len();
        let mut entries: Vec<Option<UnityEntity>> = Vec::new();
        let mut v: usize = 0;
        while v < n_variants
            invariant
                0 <= v <= n_variants,
                entries@.len() == v,
                forall|j: int| 0 <= j < v ==> entries@[j] is None,
            decreases n_variants - v,
        {
            entries.push(None);
            v = v + 1;
        }
        prefabs.push(PrefabResource { entries });
        i = i + 1;
    }
    let n_custom = schema.components.len();
    let n_states = schema.states.len();
    ctx.schema = schema;
    ctx.world = World::new(n_custom, n_states);
    ctx.prefabs = prefabs;
    ctx.custom_sizes = sizes;
    ctx.custom_value_off = value_off;
    ctx.custom_stride = value_off + union_size;
    ctx.phase = Phase::Initialized;
}

/// The union's largest-member size is the size of some declared component,
/// so it obeys any bound all component sizes obey.
proof fn lemma_union_max_le_some_component(decls: Seq<ComponentDecl>, n: int)
    requires
        0 < n <= decls.len(),
    ensures
        exists|t: int| 0 <= t < n && union_max_size(decls, n) == component_size(#[trigger] decls[t]),
    decreases n,
{
    if n == 1 {
        assert(union_max_size(decls, 0) == 0);
        assert(union_max_size(decls, 1) == component_size(decls[0]));
    } else {
        lemma_union_max_le_some_component(decls, n - 1);
        if component_size(decls[n - 1]) > union_max_size(decls, n - 1) {
            assert(union_max_size(decls, n) == component_size(decls[n - 1]));
        } else {
            assert(union_max_size(decls, n) == union_max_size(decls, n - 1));
        }
    }
}

/// Looks up the prefab resource the message's resource id names and
/// registers the supplied template references with it, in variant order.
/// A resource id the project does not declare is non-fatal: the call is a
/// no-op and returns `false`, and the caller should log a warning.
pub fn register_prefabs(ctx: &mut UnrustContext, prefabs: PrefabData) -> (registered: bool)
    requires
        ctx_wf(*old(ctx)),
        0 <= prefabs.ref_id < old(ctx).prefabs@.len() ==> prefabs.guids@.len() >= old(ctx).prefabs@[prefabs.ref_id as int].entries@.len(),
    ensures
        ctx_wf(*final(ctx)),
        final(ctx).phase == old(ctx).phase,
        final(ctx).log_attached == old(ctx).log_attached,
        final(ctx).schema == old(ctx).schema,
        final(ctx).world == old(ctx).world,
        final(ctx).prefabs@.len() == old(ctx).prefabs@.len(),
        registered <==> 0 <= prefabs.ref_id < old(ctx).prefabs@.len(),
        !registered ==> final(ctx).prefabs == old(ctx).prefabs,
        registered ==> {
            let rid = prefabs.ref_id as int;
            &&& forall|i: int|
                0 <= i < old(ctx).prefabs@.len() && i != rid ==> final(ctx).prefabs@[i] == old(ctx).prefabs@[i]
            &&& forall|v: int|
                0 <= v < old(ctx).prefabs@[rid].entries@.len() ==> final(ctx).prefabs@[rid].entries@[v] == Some(prefabs.guids@[v])
            &&& final(ctx).prefabs@[rid].entries@.len() == old(ctx).prefabs@[rid].entries@.len()
        },
{
    if prefabs.ref_id < 0 {
        return false;
    }
    let ref_id = prefabs.ref_id as usize;
    if ref_id >= ctx.prefabs.len() {
        return false;
    }
    let resource = &mut ctx.prefabs[ref_id];
    resource.insert_prefabs(&prefabs.guids);
    true
}

/// Releases the context: the logging sink is detached before the context
/// is torn down — so no in-flight log line can reach a stale sink — the
/// entity store is dropped, and the registered project configuration is
/// cleared.
pub fn unload(ctx: &mut UnrustContext)
    ensures
        ctx_wf(*final(ctx)),
        final(ctx).phase == Phase::Unloaded,
        !final(ctx).log_attached,
        final(ctx).world.slots@.len() == 0,
        final(ctx).schema.components@.len() == 0,
        final(ctx).schema.states@.len() == 0,
        final(ctx).schema.prefabs@.len() == 0,
{
    ctx.log_attached = false;
    ctx.schema = Schema { components: Vec::new(), states: Vec::new(), prefabs: Vec::new() };
    ctx.world = World::new(0, 0);
    ctx.prefabs = Vec::new();
    ctx.custom_sizes = Vec::new();
    ctx.custom_value_off = 1;
    ctx.custom_stride = 1;
    ctx.phase = Phase::Unloaded;
}

/// A runtime decode failure of an inbound message.
#[derive(PartialEq, Eq, Structural, Clone, Copy, Debug)]
pub enum BridgeError {
    /// The project component blob is not `count` well-formed records of
    /// the schema's record size, or carries a tag the schema does not
    /// declare.
    MalformedCustomBlob,
    /// The state blob is not `count` two-byte records, or carries a state
    /// tag the schema does not declare.
    MalformedStateBlob,
}

/// Whether a project component blob is well-formed for a schema with
/// `n_components` declared components and the given record stride.
pub open spec fn custom_blob_wf(blob: Seq<u8>, count: int, n_components: int, stride: int) -> bool {
    &&& blob.len() == count * stride
    &&& forall|k: int| 0 <= k < count ==> (#[trigger] blob[k * stride] as int) < n_components
}

/// Whether a state blob is well-formed for a schema with `n_states`
/// declared state enumerations.
pub open spec fn state_blob_wf(blob: Seq<u8>, count: int, n_states: int) -> bool {
    &&& blob.len() == count * 2
    &&& forall|k: int| 0 <= k < count ==> (#[trigger] blob[k * 2] as int) < n_states
}

/// Spawns one entity from a Spawn message: attaches the host's identity,
/// decodes the builtin record array through the dispatch table, and hands
/// the two opaque blobs to the schema-driven project handlers, which
/// attach the decoded project components and states.  Decoding is checked:
/// a malformed blob is a decode error, reported before anything is
/// spawned.
pub fn spawn(
    ctx: &mut UnrustContext,
    unity_entity: UnityEntity,
    inbuilt: &Vec<InbuiltData>,
    custom: &Vec<u8>,
    custom_len: usize,
    custom_state: &Vec<u8>,
    custom_state_len: usize,
) -> (r: Result<EntityHandle, BridgeError>)
    requires
        ctx_wf(*old(ctx)),
        old(ctx).phase == Phase::Initialized || old(ctx).phase == Phase::Running,
        old(ctx).world.slots@.len() < 0x1_0000_0000,
    ensures
        ctx_wf(*final(ctx)),
        final(ctx).phase == old(ctx).phase,
        final(ctx).log_attached == old(ctx).log_attached,
        final(ctx).schema == old(ctx).schema,
        final(ctx).prefabs == old(ctx).prefabs,
        r is Ok <==> (custom_blob_wf(
            custom@,
            custom_len as int,
            old(ctx).schema.components@.len() as int,
            old(ctx).custom_stride as int,
        ) && state_blob_wf(
            custom_state@,
            custom_state_len as int,
            old(ctx).schema.states@.len() as int,
        )),
        r is Err ==> *final(ctx) == *old(ctx),
        r matches Ok(h) ==> {
            let d = final(ctx).world.data_at(h);
            &&& !old(ctx).world.live(h)
            &&& final(ctx).world.live(h)
            &&& forall|h2: EntityHandle|
                h2 != h ==> (final(ctx).world.live(h2) <==> old(ctx).world.live(h2))
            &&& forall|h2: EntityHandle|
                h2 != h && old(ctx).world.live(h2) ==> final(ctx).world.data_at(h2) == old(
                    ctx,
                ).world.data_at(h2)
            &&& d.unity == Some(unity_entity)
            &&& d.parent == last_parent(inbuilt@)
            &&& d.parent_link == (match last_parent(inbuilt@) {
                Some(p) => Some(p.entity),
                None => None::<u64>,
            })
            &&& d.guid == last_guid(inbuilt@)
            &&& d.transform == last_transform(inbuilt@)
            &&& d.transform_changed == (last_transform(inbuilt@) is Some)
            &&& d.instantiate is None
            &&& d.destroy is None
            &&& customs_view(d.custom@) == apply_custom_records(
                blank_customs(old(ctx).schema.components@.len()),
                custom_blob_records(
                    custom@,
                    custom_len as int,
                    component_sizes(old(ctx).schema.components@),
                    old(ctx).custom_value_off as int,
                    old(ctx).custom_stride as int,
                ),
            )
            &&& d.custom_changed == (custom_len > 0)
            &&& d.states@ == apply_state_records(
                blank_states(old(ctx).schema.states@.len()),
                state_blob_records(custom_state@, custom_state_len as int),
            )
        },
{
    proof {
        lemma_ctx_layout(*ctx);
    }
    let crecs_opt = decode_custom_blob(
        custom,
        custom_len,
        &ctx.custom_sizes,
        ctx.custom_value_off,
        ctx.custom_stride,
    );
    let crecs = match crecs_opt {
        Some(r) => r,
        None => {
            return Err(BridgeError::MalformedCustomBlob);
        },
    };
    let srecs_opt = decode_state_blob(custom_state, custom_state_len);
    let srecs = match srecs_opt {
        Some(r) => r,
        None => {
            return Err(BridgeError::MalformedStateBlob);
        },
    };
    let n_states = ctx.world.n_states;
    let mut k: usize = 0;
    while k < srecs.len()
        invariant
            0 <= k <= srecs@.len(),
            srecs@.len() == custom_state_len,
            ctx_wf(*old(ctx)),
            n_states == old(ctx).world.n_states,
            n_states == old(ctx).schema.states@.len(),
            *ctx == *old(ctx),
            forall|k2: int|
                0 <= k2 < custom_state_len ==> (#[trigger] srecs@[k2]).tag == custom_state@[k2 * 2]
                    && srecs@[k2].value == custom_state@[k2 * 2 + 1],
            forall|k2: int| 0 <= k2 < k ==> ((#[trigger] srecs@[k2]).tag as int) < n_states,
        decreases srecs@.len() - k,
    {
        if srecs[k].tag as usize >= n_states {
            proof {
                assert((srecs@[k as int].tag as int) >= n_states);
                assert(srecs@[k as int].tag == custom_state@[(k as int) * 2]);
                assert(!state_blob_wf(
                    custom_state@,
                    custom_state_len as int,
                    old(ctx).schema.states@.len() as int,
                ));
            }
            return Err(BridgeError::MalformedStateBlob);
        }
        k = k + 1;
    }
    proof {
        assert forall|k2: int| 0 <= k2 < custom_state_len implies (
        #[trigger] custom_state@[k2 * 2] as int) < old(ctx).schema.states@.len() by {
            assert((srecs@[k2].tag as int) < n_states);
            assert(srecs@[k2].tag == custom_state@[k2 * 2]);
        }
        assert(state_blob_wf(
            custom_state@,
            custom_state_len as int,
            old(ctx).schema.states@.len() as int,
        ));
    }
    let h = ctx.world.spawn_empty();
    let idx = h.index as usize;
    let slot = &mut ctx.world.slots[idx];
    slot.data.unity = Some(unity_entity);
    let ghost d1 = ctx.world.slots@[idx as int].data;
    let slot = &mut ctx.world.slots[idx];
    ingest_component(&mut slot.data, inbuilt);
    let ghost d2 = ctx.world.slots@[idx as int].data;
    proof {
        lemma_apply_inbuilt_fields(d1, inbuilt@);
    }
    let slot = &mut ctx.world.slots[idx];
    let ok_customs = apply_custom_records_exec(&mut slot.data.custom, &crecs);
    if custom_len > 0 {
        let slot = &mut ctx.world.slots[idx];
        slot.data.custom_changed = true;
    }
    let slot = &mut ctx.world.slots[idx];
    let ok_states = apply_state_records_exec(&mut slot.data.states, &srecs);
    proof {
        // Checked decoding guarantees that every record applies.
        assert(ok_customs);
        assert(ok_states);
        let decls = old(ctx).schema.components@;
        assert(custom_record_views(crecs@) =~~= custom_blob_records(
            custom@,
            custom_len as int,
            component_sizes(decls),
            old(ctx).custom_value_off as int,
            old(ctx).custom_stride as int,
        ));
        assert(state_record_views(srecs@) =~= state_blob_records(
            custom_state@,
            custom_state_len as int,
        ));
        assert(customs_view(d2.custom@) =~= blank_customs(decls.len()));
        assert(d2.states@ =~= blank_states(old(ctx).schema.states@.len()));
    }
    Ok(h)
}

/// Whether the Create system encodes this slot: a live entity still
/// carrying its host-origin marker.
pub open spec fn create_marked(s: EntitySlot) -> bool {
    s.alive && s.data.instantiate is Some
}

/// Whether the Update system encodes this slot: a live, host-known entity
/// whose tracked components changed since the last step.  (An entity still
/// carrying its host-origin marker is the Create system's, which runs
/// first and despawns it.)
pub open spec fn update_marked(s: EntitySlot) -> bool {
    &&& s.alive
    &&& s.data.instantiate is None
    &&& s.data.unity is Some
    &&& (s.data.transform_changed || s.data.custom_changed)
}

/// Whether the Destroy system despawns this slot: a live entity marked for
/// destruction on the host.
pub open spec fn destroy_marked(s: EntitySlot) -> bool {
    &&& s.alive
    &&& s.data.instantiate is None
    &&& s.data.destroy is Some
}

/// The (slot, host identity) selection of the Create system over the first
/// `n` slots, in slot (iteration) order.
pub open spec fn create_selection(slots: Seq<EntitySlot>, n: int) -> Seq<(usize, UnityEntity)>
    decreases n,
{
    if n <= 0 {
        Seq::empty()
    } else {
        create_selection(slots, n - 1) + (if create_marked(slots[n - 1]) {
            seq![(((n - 1) as usize), slots[n - 1].data.instantiate.unwrap().entity)]
        } else {
            Seq::empty()
        })
    }
}

/// The (slot, host identity) selection of the Update system.
pub open spec fn update_selection(slots: Seq<EntitySlot>, n: int) -> Seq<(usize, UnityEntity)>
    decreases n,
{
    if n <= 0 {
        Seq::empty()
    } else {
        update_selection(slots, n - 1) + (if update_marked(slots[n - 1]) {
            seq![(((n - 1) as usize), slots[n - 1].data.unity.unwrap())]
        } else {
            Seq::empty()
        })
    }
}

/// The host identities of the entities the Destroy system despawns.
pub open spec fn destroy_selection(slots: Seq<EntitySlot>, n: int) -> Seq<UnityEntity>
    decreases n,
{
    if n <= 0 {
        Seq::empty()
    } else {
        destroy_selection(slots, n - 1) + (if destroy_marked(slots[n - 1]) {
            seq![slots[n - 1].data.destroy.unwrap().entity]
        } else {
            Seq::empty()
        })
    }
}

/// Scans the world for the Create system's selection.
fn scan_create(world: &World) -> (sel: Vec<(usize, UnityEntity)>)
    ensures
        sel@ == create_selection(world.slots@, world.slots@.len() as int),
        forall|k: int|
            0 <= k < sel@.len() ==> (#[trigger] sel@[k]).0 < world.slots@.len()
                && world.slots@[sel@[k].0 as int].alive,
{
    let mut sel: Vec<(usize, UnityEntity)> = Vec::new();
    let mut i: usize = 0;
    proof {
        assert(sel@ =~= create_selection(world.slots@, 0));
    }
    while i < world.slots.len()
        invariant
            0 <= i <= world.slots@.len(),
            sel@ == create_selection(world.slots@, i as int),
            forall|k: int|
                0 <= k < sel@.len() ==> (#[trigger] sel@[k]).0 < world.slots@.len()
                    && world.slots@[sel@[k].0 as int].alive,
        decreases world.slots@.len() - i,
    {
        let slot = &world.slots[i];
        if slot.alive {
            if let Some(inst) = &slot.data.instantiate {
                sel.push((i, inst.entity));
            }
        }
        proof {
            assert(sel@ =~= create_selection(world.slots@, i + 1));
        }
        i = i + 1;
    }
    sel
}

/// Scans the world for the Update system's selection.
fn scan_update(world: &World) -> (sel: Vec<(usize, UnityEntity)>)
    ensures
        sel@ == update_selection(world.slots@, world.slots@.len() as int),
        forall|k: int|
            0 <= k < sel@.len() ==> (#[trigger] sel@[k]).0 < world.slots@.len()
                && world.slots@[sel@[k].0 as int].alive,
{
    let mut sel: Vec<(usize, UnityEntity)> = Vec::new();
    let mut i: usize = 0;
    proof {
        assert(sel@ =~= update_selection(world.slots@, 0));
    }
    while i < world.slots.len()
        invariant
            0 <= i <= world.slots@.len(),
            sel@ == update_selection(world.slots@, i as int),
            forall|k: int|
                0 <= k < sel@.len() ==> (#[trigger] sel@[k]).0 < world.slots@.len()
                    && world.slots@[sel@[k].0 as int].alive,
        decreases world.slots@.len() - i,
    {
        let slot = &world.slots[i];
        if slot.alive && slot.data.instantiate.is_none() && (slot.data.transform_changed
            || slot.data.custom_changed) {
            if let Some(unity) = &slot.data.unity {
                sel.push((i, *unity));
            }
        }
        proof {
            assert(sel@ =~= update_selection(world.slots@, i + 1));
        }
        i = i + 1;
    }
    sel
}

/// Encodes newly host-spawned, not-yet-materialized entities into a Create
/// batch, then strips each host-origin marker by despawning the transient
/// marker entity.
pub fn create_unity_system(world: &mut World) -> (b: SnapshotBatch)
    requires
        old(world).wf(),
        old(world).n_custom <= 256,
    ensures
        final(world).wf(),
        final(world).n_custom == old(world).n_custom,
        final(world).n_states == old(world).n_states,
        final(world).slots@.len() == old(world).slots@.len(),
        snapshot_batch_encodes(
            b,
            batch_sources(
                *old(world),
                create_selection(old(world).slots@, old(world).slots@.len() as int),
            ),
        ),
        forall|j: int|
            0 <= j < old(world).slots@.len() ==> {
                let s0 = old(world).slots@[j];
                let s1 = #[trigger] final(world).slots@[j];
                &&& s1.generation == s0.generation
                &&& s1.data == s0.data
                &&& s1.alive == (s0.alive && !(s0.data.instantiate is Some))
            },
{
    let sel = scan_create(world);
    proof {
        assert forall|k: int| 0 <= k < sel@.len() implies world.slots@[(
        #[trigger] sel@[k]).0 as int].data.custom@.len() <= 256 by {
            assert(world.slots@[sel@[k].0 as int].alive);
        }
    }
    let b = encode_snapshot(world, &sel);
    let ghost slots0 = world.slots@;
    let mut i: usize = 0;
    while i < world.slots.len()
        invariant
            0 <= i <= slots0.len(),
            world.slots@.len() == slots0.len(),
            world.n_custom == old(world).n_custom,
            world.n_states == old(world).n_states,
            forall|j: int| i <= j < slots0.len() ==> #[trigger] world.slots@[j] == slots0[j],
            forall|j: int|
                0 <= j < i ==> {
                    let s0 = slots0[j];
                    let s1 = #[trigger] world.slots@[j];
                    &&& s1.generation == s0.generation
                    &&& s1.data == s0.data
                    &&& s1.alive == (s0.alive && !(s0.data.instantiate is Some))
                },
        decreases slots0.len() - i,
    {
        let slot = &world.slots[i];
        if slot.alive && slot.data.instantiate.is_some() {
            let slot = &mut world.slots[i];
            slot.alive = false;
        }
        i = i + 1;
    }
    b
}

/// Encodes entities whose tracked components changed since the last step
/// into an Update batch, then clears their change tracking.
pub fn update_unity_system(world: &mut World) -> (b: SnapshotBatch)
    requires
        old(world).wf(),
        old(world).n_custom <= 256,
    ensures
        final(world).wf(),
        final(world).n_custom == old(world).n_custom,
        final(world).n_states == old(world).n_states,
        final(world).slots@.len() == old(world).slots@.len(),
        snapshot_batch_encodes(
            b,
            batch_sources(
                *old(world),
                update_selection(old(world).slots@, old(world).slots@.len() as int),
            ),
        ),
        forall|j: int|
            0 <= j < old(world).slots@.len() ==> {
                let s0 = old(world).slots@[j];
                let s1 = #[trigger] final(world).slots@[j];
                &&& s1.generation == s0.generation
                &&& s1.alive == s0.alive
                &&& s1.data == (if update_marked(s0) {
                    EntityData { transform_changed: false, custom_changed: false, ..s0.data }
                } else {
                    s0.data
                })
            },
{
    let sel = scan_update(world);
    proof {
        assert forall|k: int| 0 <= k < sel@.len() implies world.slots@[(
        #[trigger] sel@[k]).0 as int].data.custom@.len() <= 256 by {
            assert(world.slots@[sel@[k].0 as int].alive);
        }
    }
    let b = encode_snapshot(world, &sel);
    let ghost slots0 = world.slots@;
    let mut i: usize = 0;
    while i < world.slots.len()
        invariant
            0 <= i <= slots0.len(),
            world.slots@.len() == slots0.len(),
            world.n_custom == old(world).n_custom,
            world.n_states == old(world).n_states,
            forall|j: int| i <= j < slots0.len() ==> #[trigger] world.slots@[j] == slots0[j],
            forall|j: int|
                0 <= j < i ==> {
                    let s0 = slots0[j];
                    let s1 = #[trigger] world.slots@[j];
                    &&& s1.generation == s0.generation
                    &&& s1.alive == s0.alive
                    &&& s1.data == (if update_marked(s0) {
                        EntityData { transform_changed: false, custom_changed: false, ..s0.data }
                    } else {
                        s0.data
                    })
                },
        decreases slots0.len() - i,
    {
        let slot = &world.slots[i];
        if slot.alive && slot.data.instantiate.is_none() && slot.data.unity.is_some() && (
        slot.data.transform_changed || slot.data.custom_changed) {
            let slot = &mut world.slots[i];
            slot.data.transform_changed = false;
            slot.data.custom_changed = false;
        }
        i = i + 1;
    }
    b
}

/// Encodes entities marked for destruction into a Destroy batch and
/// despawns them.
pub fn destroy_unity_system(world: &mut World) -> (destroyed: Vec<UnityEntity>)
    requires
        old(world).wf(),
    ensures
        final(world).wf(),
        final(world).n_custom == old(world).n_custom,
        final(world).n_states == old(world).n_states,
        final(world).slots@.len() == old(world).slots@.len(),
        destroyed@ == destroy_selection(old(world).slots@, old(world).slots@.len() as int),
        forall|j: int|
            0 <= j < old(world).slots@.len() ==> {
                let s0 = old(world).slots@[j];
                let s1 = #[trigger] final(world).slots@[j];
                &&& s1.generation == s0.generation
                &&& s1.data == s0.data
                &&& s1.alive == (s0.alive && !(s0.data.instantiate is None
                    && s0.data.destroy is Some))
            },
{
    let ghost slots0 = world.slots@;
    let mut destroyed: Vec<UnityEntity> = Vec::new();
    let mut i: usize = 0;
    proof {
        assert(destroyed@ =~= destroy_selection(slots0, 0));
    }
    while i < world.slots.len()
        invariant
            0 <= i <= slots0.len(),
            world.slots@.len() == slots0.len(),
            world.n_custom == old(world).n_custom,
            world.n_states == old(world).n_states,
            destroyed@ == destroy_selection(slots0, i as int),
            forall|j: int| i <= j < slots0.len() ==> #[trigger] world.slots@[j] == slots0[j],
            forall|j: int|
                0 <= j < i ==> {
                    let s0 = slots0[j];
                    let s1 = #[trigger] world.slots@[j];
                    &&& s1.generation == s0.generation
                    &&& s1.data == s0.data
                    &&& s1.alive == (s0.alive && !(s0.data.instantiate is None
                        && s0.data.destroy is Some))
                },
        decreases slots0.len() - i,
    {
        let slot = &world.slots[i];
        if slot.alive && slot.data.instantiate.is_none() {
            if let Some(dest) = &slot.data.destroy {
                destroyed.push(dest.entity);
                let slot = &mut world.slots[i];
                slot.alive = false;
            }
        }
        proof {
            assert(destroyed@ =~= destroy_selection(slots0, i + 1));
        }
        i = i + 1;
    }
    destroyed
}

/// The Update selection is unchanged by the Create system's mutation,
/// which only despawns entities that still carry a host-origin marker —
/// entities the Update selection never contains.
proof fn lemma_update_selection_stable(s0: Seq<EntitySlot>, s1: Seq<EntitySlot>, n: int)
    requires
        s0.len() == s1.len(),
        n <= s0.len(),
        forall|j: int|
            0 <= j < s0.len() ==> {
                let a = s0[j];
                let b = #[trigger] s1[j];
                &&& b.generation == a.generation
                &&& b.data == a.data
                &&& b.alive == (a.alive && !(a.data.instantiate is Some))
            },
    ensures
        update_selection(s1, n) == update_selection(s0, n),
    decreases n,
{
    if n > 0 {
        lemma_update_selection_stable(s0, s1, n - 1);
    }
}

/// The Destroy selection is unchanged by the Create and Update systems'
/// mutations: neither touches a slot's destroy marker, and the only
/// entities they despawn carry a host-origin marker, which the Destroy
/// selection excludes.
proof fn lemma_destroy_selection_stable(s0: Seq<EntitySlot>, s2: Seq<EntitySlot>, n: int)
    requires
        s0.len() == s2.len(),
        n <= s0.len(),
        forall|j: int|
            0 <= j < s0.len() ==> {
                let a = s0[j];
                let b = #[trigger] s2[j];
                &&& b.data.instantiate == a.data.instantiate
                &&& b.data.destroy == a.data.destroy
                &&& b.alive == (a.alive && !(a.data.instantiate is Some))
            },
    ensures
        destroy_selection(s2, n) == destroy_selection(s0, n),
    decreases n,
{
    if n > 0 {
        lemma_destroy_selection_stable(s0, s2, n - 1);
    }
}

/// What one step hands back to the caller: the Create, Update and Destroy
/// batches, each to be delivered synchronously to the corresponding host
/// callback.  The buffers are valid only until the caller's next boundary
/// call; the host must copy what it needs retained.
pub struct TickOutput {
    pub create: SnapshotBatch,
    pub update: SnapshotBatch,
    pub destroy: Vec<UnityEntity>,
}

/// Advances the embedded engine one step.  The bridge's per-step systems
/// run in order: (a) newly host-spawned entities are encoded into a Create
/// batch and their transient marker entities despawned; (b) entities whose
/// tracked components changed since the last step are encoded into an
/// Update batch and their change tracking cleared; (c) entities marked for
/// destruction are encoded into a Destroy batch and despawned.
pub fn tick(ctx: &mut UnrustContext) -> (out: TickOutput)
    requires
        ctx_wf(*old(ctx)),
        old(ctx).phase == Phase::Initialized || old(ctx).phase == Phase::Running,
    ensures
        ctx_wf(*final(ctx)),
        final(ctx).phase == Phase::Running,
        final(ctx).log_attached == old(ctx).log_attached,
        final(ctx).schema == old(ctx).schema,
        final(ctx).prefabs == old(ctx).prefabs,
        final(ctx).world.slots@.len() == old(ctx).world.slots@.len(),
        snapshot_batch_encodes(
            out.create,
            batch_sources(
                old(ctx).world,
                create_selection(old(ctx).world.slots@, old(ctx).world.slots@.len() as int),
            ),
        ),
        snapshot_batch_encodes(
            out.update,
            batch_sources(
                old(ctx).world,
                update_selection(old(ctx).world.slots@, old(ctx).world.slots@.len() as int),
            ),
        ),
        out.destroy@ == destroy_selection(
            old(ctx).world.slots@,
            old(ctx).world.slots@.len() as int,
        ),
        forall|j: int|
            0 <= j < old(ctx).world.slots@.len() ==> {
                let s0 = old(ctx).world.slots@[j];
                let s3 = #[trigger] final(ctx).world.slots@[j];
                &&& s3.generation == s0.generation
                &&& s3.alive == (s0.alive && s0.data.instantiate is None
                    && s0.data.destroy is None)
                &&& s3.data == (if update_marked(s0) {
                    EntityData { transform_changed: false, custom_changed: false, ..s0.data }
                } else {
                    s0.data
                })
            },
{
    let ghost w0 = ctx.world;
    let ghost n = ctx.world.slots@.len() as int;
    let create = create_unity_system(&mut ctx.world);
    let ghost w1 = ctx.world;
    let update = update_unity_system(&mut ctx.world);
    let ghost w2 = ctx.world;
    let destroy = destroy_unity_system(&mut ctx.world);
    ctx.phase = Phase::Running;
    proof {
        lemma_update_selection_stable(w0.slots@, w1.slots@, n);
        let sel = update_selection(w0.slots@, n);
        lemma_update_selection_elements(w0.slots@, n);
        assert(batch_sources(w1, sel) =~~= batch_sources(w0, sel));
        lemma_destroy_selection_stable(w0.slots@, w2.slots@, n);
    }
    TickOutput { create, update, destroy }
}

/// Every element of the Update selection names a slot within range.
proof fn lemma_update_selection_elements(slots: Seq<EntitySlot>, n: int)
    requires
        0 <= n <= slots.len(),
    ensures
        forall|k: int|
            0 <= k < update_selection(slots, n).len() ==> (#[trigger] update_selection(
                slots,
                n,
            )[k]).0 < n,
    decreases n,
{
    if n > 0 {
        lemma_update_selection_elements(slots, n - 1);
        let prev = update_selection(slots, n - 1);
        let cur = update_selection(slots, n);
        assert forall|k: int| 0 <= k < cur.len() implies (#[trigger] cur[k]).0 < n by {
            if k < prev.len() {
                assert(cur[k] == prev[k]);
            }
        }
    }
}

} // verus!
