//! The interop protocol: flat arrays of fixed-size tagged records, passed
//! with explicit counts, for the Create, Update, Destroy, Spawn and
//! RegisterPrefabs message shapes.
//!
//! Encoding is in tag order: an encoder tests for presence of each known
//! component type, lowest tag first, and appends one tagged record per
//! attached component.  Decoding routes each record through the dispatch
//! table.  Encoding an entity and decoding the records into a fresh entity
//! restores exactly the encoded component set, with payloads preserved.

use vstd::prelude::*;

use crate::inbuilt::InbuiltData;
use crate::inbuilt::UnityEntity;
use crate::world::EntityData;
use crate::world::World;
use crate::world::apply_inbuilt_record;
use crate::world::apply_inbuilt_records;

verus! {

/// One tagged data record of the project component category: the wire tag
/// and the component's opaque payload bytes.
pub struct CustomRecord {
    pub tag: u8,
    pub payload: Vec<u8>,
}

/// One tagged record of the state category: the state enumeration's wire
/// tag and the ordinal byte of the active variant.
#[derive(PartialEq, Eq, Structural, Clone, Copy, Debug)]
pub struct StateRecord {
    pub tag: u8,
    pub value: u8,
}

/// The mathematical view of a project component record list: (tag,
/// payload) pairs.
pub open spec fn custom_record_views(rs: Seq<CustomRecord>) -> Seq<(int, Seq<u8>)> {
    rs.map_values(|r: CustomRecord| (r.tag as int, r.payload@))
}

/// The mathematical view of a per-tag component store: payload bytes per
/// tag, if attached.
pub open spec fn customs_view(cs: Seq<Option<Vec<u8>>>) -> Seq<Option<Seq<u8>>> {
    cs.map_values(
        |o: Option<Vec<u8>>|
            match o {
                Some(v) => Some(v@),
                None => None,
            },
    )
}

/// The builtin records an entity's attached builtin component set encodes
/// to, in tag order.  The host identity component is not itself a record:
/// its dispatch operation is a no-op, because the identity crosses in the
/// batch descriptor.
pub open spec fn encode_inbuilt(d: EntityData) -> Seq<InbuiltData> {
    (match d.parent {
        Some(p) => seq![InbuiltData::UnityParent(p)],
        None => Seq::empty(),
    }) + (match d.guid {
        Some(g) => seq![InbuiltData::UnityGUID(g)],
        None => Seq::empty(),
    }) + (match d.transform {
        Some(t) => seq![InbuiltData::UnityTransform(t)],
        None => Seq::empty(),
    })
}

/// Encodes an entity's attached builtin component set, in tag order.
pub fn encode_inbuilt_exec(d: &EntityData) -> (r: Vec<InbuiltData>)
    ensures
        r@ == encode_inbuilt(*d),
{
    let mut r: Vec<InbuiltData> = Vec::new();
    if let Some(p) = &d.parent {
        r.push(InbuiltData::UnityParent(*p));
    }
    if let Some(g) = &d.guid {
        r.push(InbuiltData::UnityGUID(*g));
    }
    if let Some(t) = &d.transform {
        r.push(InbuiltData::UnityTransform(*t));
    }
    proof {
        assert(r@ =~= encode_inbuilt(*d));
    }
    r
}

/// The builtin encoder walks the builtin types in tag order: the records
/// it emits carry strictly increasing tags.
pub proof fn lemma_encode_inbuilt_tag_order(d: EntityData)
    ensures
        forall|i: int, j: int|
            0 <= i < j < encode_inbuilt(d).len() ==> crate::inbuilt::inbuilt_tag(
                encode_inbuilt(d)[i],
            ) < crate::inbuilt::inbuilt_tag(encode_inbuilt(d)[j]),
{
}

/// The (tag, payload) records the first `n` tags of a per-tag component
/// store encode to, in tag order: one record per attached tag.
pub open spec fn encode_custom(cs: Seq<Option<Seq<u8>>>, n: int) -> Seq<(int, Seq<u8>)>
    decreases n,
{
    if n <= 0 {
        Seq::empty()
    } else {
        encode_custom(cs, n - 1) + (match cs[n - 1] {
            Some(p) => seq![((n - 1), p)],
            None => Seq::empty(),
        })
    }
}

/// Encodes an entity's attached project component set, in tag order.
pub fn encode_custom_exec(customs: &Vec<Option<Vec<u8>>>) -> (r: Vec<CustomRecord>)
    requires
        customs@.len() <= 256,
    ensures
        custom_record_views(r@) == encode_custom(
            customs_view(customs@),
            customs@.len() as int,
        ),
{
    let ghost cs = customs_view(customs@);
    let mut r: Vec<CustomRecord> = Vec::new();
    let mut i: usize = 0;
    proof {
        assert(custom_record_views(r@) =~= encode_custom(cs, 0));
    }
    while i < customs.len()
        invariant
            0 <= i <= customs@.len(),
            customs@.len() <= 256,
            cs == customs_view(customs@),
            custom_record_views(r@) == encode_custom(cs, i as int),
        decreases customs@.len() - i,
    {
        if let Some(p) = &customs[i] {
            let rec = CustomRecord { tag: i as u8, payload: p.clone() };
            let ghost pre = r@;
            let ghost grec = rec;
            r.push(rec);
            proof {
                assert(custom_record_views(pre.push(grec)) =~= custom_record_views(pre).push(
                    (grec.tag as int, grec.payload@),
                ));
                assert(custom_record_views(r@) =~= encode_custom(cs, i + 1));
            }
        } else {
            proof {
                assert(custom_record_views(r@) =~= encode_custom(cs, i + 1));
            }
        }
        i = i + 1;
    }
    r
}

/// The project encoder walks the declared tags in order: the records it
/// emits carry strictly increasing tags, each below the declared count.
pub proof fn lemma_encode_custom_tag_order(cs: Seq<Option<Seq<u8>>>, n: int)
    requires
        n <= cs.len(),
    ensures
        forall|k: int|
            0 <= k < encode_custom(cs, n).len() ==> 0 <= (#[trigger] encode_custom(cs, n)[k]).0
                < n,
        forall|i: int, j: int|
            0 <= i < j < encode_custom(cs, n).len() ==> encode_custom(cs, n)[i].0 < encode_custom(
                cs,
                n,
            )[j].0,
    decreases n,
{
    if n > 0 {
        lemma_encode_custom_tag_order(cs, n - 1);
        let prev = encode_custom(cs, n - 1);
        let cur = encode_custom(cs, n);
        assert forall|k: int| 0 <= k < cur.len() implies 0 <= (#[trigger] cur[k]).0 < n by {
            if k < prev.len() {
                assert(cur[k] == prev[k]);
            }
        }
        assert forall|i: int, j: int| 0 <= i < j < cur.len() implies cur[i].0 < cur[j].0 by {
            assert(cur[i] == prev[i]);
            if j < prev.len() {
                assert(cur[j] == prev[j]);
            }
        }
    }
}

/// The per-tag store after one decoded project record is applied through
/// the dispatch table: the payload is attached at its tag.  A tag at or
/// beyond the declared component count is a decode error and is not
/// applied.
pub open spec fn apply_custom_record(cs: Seq<Option<Seq<u8>>>, r: (int, Seq<u8>)) -> Seq<
    Option<Seq<u8>>,
> {
    if 0 <= r.0 < cs.len() {
        cs.update(r.0, Some(r.1))
    } else {
        cs
    }
}

/// The per-tag store after a project record array is applied in order.
pub open spec fn apply_custom_records(
    cs: Seq<Option<Seq<u8>>>,
    rs: Seq<(int, Seq<u8>)>,
) -> Seq<Option<Seq<u8>>>
    decreases rs.len(),
{
    if rs.len() == 0 {
        cs
    } else {
        apply_custom_record(apply_custom_records(cs, rs.drop_last()), rs.last())
    }
}

/// Applies decoded project records to an entity's per-tag store, in array
/// order.  Returns `false` (leaving a record unapplied) only for a record
/// whose tag is out of range of the declared component count.
pub fn apply_custom_records_exec(customs: &mut Vec<Option<Vec<u8>>>, rs: &Vec<CustomRecord>) -> (ok:
    bool)
    ensures
        customs_view(final(customs)@) == apply_custom_records(
            customs_view(old(customs)@),
            custom_record_views(rs@),
        ),
        final(customs)@.len() == old(customs)@.len(),
        ok <==> forall|k: int|
            0 <= k < rs@.len() ==> (rs@[k].tag as int) < old(customs)@.len(),
{
    let ghost rviews = custom_record_views(rs@);
    let mut ok = true;
    let mut i: usize = 0;
    proof {
        assert(rviews.take(0) =~= Seq::<(int, Seq<u8>)>::empty());
    }
    while i < rs.len()
        invariant
            0 <= i <= rs@.len(),
            rviews == custom_record_views(rs@),
            customs@.len() == old(customs)@.len(),
            customs_view(customs@) == apply_custom_records(
                customs_view(old(customs)@),
                rviews.take(i as int),
            ),
            ok <==> forall|k: int|
                0 <= k < i ==> (rs@[k].tag as int) < old(customs)@.len(),
        decreases rs@.len() - i,
    {
        let tag = rs[i].tag as usize;
        if tag < customs.len() {
            let ghost pre = customs@;
            customs[tag] = Some(rs[i].payload.clone());
            proof {
                assert(customs_view(customs@) =~= customs_view(pre).update(
                    tag as int,
                    Some(rs@[i as int].payload@),
                ));
            }
        } else {
            ok = false;
        }
        proof {
            assert(rviews.take(i + 1).drop_last() =~= rviews.take(i as int));
            assert(rviews.take(i + 1).last() == rviews[i as int]);
        }
        i = i + 1;
    }
    proof {
        assert(rviews.take(rviews.len() as int) =~= rviews);
    }
    ok
}

/// Applying records one array after the other is applying their
/// concatenation.
pub proof fn lemma_apply_custom_append(
    cs: Seq<Option<Seq<u8>>>,
    a: Seq<(int, Seq<u8>)>,
    b: Seq<(int, Seq<u8>)>,
)
    ensures
        apply_custom_records(cs, a + b) == apply_custom_records(apply_custom_records(cs, a), b),
    decreases b.len(),
{
    if b.len() == 0 {
        assert(a + b =~= a);
    } else {
        assert((a + b).drop_last() =~= a + b.drop_last());
        lemma_apply_custom_append(cs, a, b.drop_last());
        assert((a + b).last() == b.last());
    }
}

/// Round trip, project component category: encoding an entity's attached
/// component set into a tagged-record array and applying the records,
/// through the dispatch table, to a fresh entity of the same schema yields
/// exactly the encoded set — every attached tag attached with its payload
/// preserved, every absent tag absent.
pub proof fn lemma_custom_round_trip(cs: Seq<Option<Seq<u8>>>, fresh: Seq<Option<Seq<u8>>>)
    requires
        fresh.len() == cs.len(),
        forall|i: int| 0 <= i < fresh.len() ==> fresh[i] is None,
    ensures
        apply_custom_records(fresh, encode_custom(cs, cs.len() as int)) == cs,
{
    lemma_custom_round_trip_prefix(cs, fresh, cs.len() as int);
    assert(apply_custom_records(fresh, encode_custom(cs, cs.len() as int)) =~= cs);
}

/// Helper for the round trip: after applying the encoding of the first
/// `n` tags to a fresh store, the first `n` entries match and the rest
/// are still absent.
proof fn lemma_custom_round_trip_prefix(
    cs: Seq<Option<Seq<u8>>>,
    fresh: Seq<Option<Seq<u8>>>,
    n: int,
)
    requires
        fresh.len() == cs.len(),
        forall|i: int| 0 <= i < fresh.len() ==> fresh[i] is None,
        0 <= n <= cs.len(),
    ensures
        apply_custom_records(fresh, encode_custom(cs, n)).len() == cs.len(),
        forall|i: int|
            0 <= i < n ==> apply_custom_records(fresh, encode_custom(cs, n))[i] == cs[i],
        forall|i: int|
            n <= i < cs.len() ==> apply_custom_records(fresh, encode_custom(cs, n))[i] is None,
    decreases n,
{
    if n > 0 {
        lemma_custom_round_trip_prefix(cs, fresh, n - 1);
        let prev = apply_custom_records(fresh, encode_custom(cs, n - 1));
        match cs[n - 1] {
            Some(p) => {
                lemma_apply_custom_append(fresh, encode_custom(cs, n - 1), seq![(n - 1, p)]);
                assert(encode_custom(cs, n) == encode_custom(cs, n - 1) + seq![(n - 1, p)]);
                let one = seq![(n - 1, p)];
                assert(apply_custom_records(prev, one) == apply_custom_record(
                    apply_custom_records(prev, one.drop_last()),
                    one.last(),
                ));
                assert(one.drop_last() =~= Seq::<(int, Seq<u8>)>::empty());
            },
            None => {
                lemma_apply_custom_append(
                    fresh,
                    encode_custom(cs, n - 1),
                    Seq::<(int, Seq<u8>)>::empty(),
                );
                assert(encode_custom(cs, n) =~= encode_custom(cs, n - 1) + Seq::<(
                    int,
                    Seq<u8>,
                )>::empty());
            },
        }
    }
}

/// Applying builtin records one array after the other is applying their
/// concatenation.
pub proof fn lemma_apply_inbuilt_append(d: EntityData, a: Seq<InbuiltData>, b: Seq<InbuiltData>)
    ensures
        apply_inbuilt_records(d, a + b) == apply_inbuilt_records(apply_inbuilt_records(d, a), b),
    decreases b.len(),
{
    if b.len() == 0 {
        assert(a + b =~= a);
    } else {
        assert((a + b).drop_last() =~= a + b.drop_last());
        lemma_apply_inbuilt_append(d, a, b.drop_last());
        assert((a + b).last() == b.last());
    }
}

/// Round trip, builtin category: encoding an entity's attached builtin
/// component set and decoding the records, through the dispatch table,
/// into a fresh entity restores exactly that set — parent, asset
/// reference and transform each present if and only if they were present,
/// with field values preserved, and the parent relation re-established
/// from the decoded parent record.
pub proof fn lemma_inbuilt_round_trip(d: EntityData, fresh: EntityData)
    requires
        fresh.parent is None,
        fresh.parent_link is None,
        fresh.guid is None,
        fresh.transform is None,
    ensures
        ({
            let decoded = apply_inbuilt_records(fresh, encode_inbuilt(d));
            &&& decoded.parent == d.parent
            &&& decoded.guid == d.guid
            &&& decoded.transform == d.transform
            &&& decoded.parent_link == (match d.parent {
                Some(p) => Some(p.entity),
                None => None::<u64>,
            })
            &&& d.transform is Some ==> decoded.transform_changed
        }),
{
    let pa = (match d.parent {
        Some(p) => seq![InbuiltData::UnityParent(p)],
        None => Seq::<InbuiltData>::empty(),
    });
    let gu = (match d.guid {
        Some(g) => seq![InbuiltData::UnityGUID(g)],
        None => Seq::<InbuiltData>::empty(),
    });
    let tr = (match d.transform {
        Some(t) => seq![InbuiltData::UnityTransform(t)],
        None => Seq::<InbuiltData>::empty(),
    });
    lemma_apply_inbuilt_append(fresh, pa + gu, tr);
    lemma_apply_inbuilt_append(fresh, pa, gu);
    lemma_apply_singleton(fresh, pa);
    lemma_apply_singleton(apply_inbuilt_records(fresh, pa), gu);
    lemma_apply_singleton(apply_inbuilt_records(apply_inbuilt_records(fresh, pa), gu), tr);
}

/// The mathematical view of a state record list: (tag, ordinal) pairs.
pub open spec fn state_record_views(rs: Seq<StateRecord>) -> Seq<(int, u8)> {
    rs.map_values(|r: StateRecord| (r.tag as int, r.value))
}

/// The per-tag state store after one decoded state record is applied: the
/// ordinal byte is attached at its tag.  A tag at or beyond the declared
/// state enumeration count is a decode error and is not applied.
pub open spec fn apply_state_record(ss: Seq<Option<u8>>, r: (int, u8)) -> Seq<Option<u8>> {
    if 0 <= r.0 < ss.len() {
        ss.update(r.0, Some(r.1))
    } else {
        ss
    }
}

/// The per-tag state store after a state record array is applied in order.
pub open spec fn apply_state_records(ss: Seq<Option<u8>>, rs: Seq<(int, u8)>) -> Seq<Option<u8>>
    decreases rs.len(),
{
    if rs.len() == 0 {
        ss
    } else {
        apply_state_record(apply_state_records(ss, rs.drop_last()), rs.last())
    }
}

/// Applies decoded state records to an entity's per-tag state store, in
/// array order.  Returns `false` (leaving a record unapplied) only for a
/// record whose tag is out of range.
pub fn apply_state_records_exec(states: &mut Vec<Option<u8>>, rs: &Vec<StateRecord>) -> (ok: bool)
    ensures
        final(states)@ == apply_state_records(old(states)@, state_record_views(rs@)),
        final(states)@.len() == old(states)@.len(),
        ok <==> forall|k: int| 0 <= k < rs@.len() ==> (rs@[k].tag as int) < old(states)@.len(),
{
    let ghost rviews = state_record_views(rs@);
    let mut ok = true;
    let mut i: usize = 0;
    proof {
        assert(rviews.take(0) =~= Seq::<(int, u8)>::empty());
    }
    while i < rs.len()
        invariant
            0 <= i <= rs@.len(),
            rviews == state_record_views(rs@),
            states@.len() == old(states)@.len(),
            states@ == apply_state_records(old(states)@, rviews.take(i as int)),
            ok <==> forall|k: int| 0 <= k < i ==> (rs@[k].tag as int) < old(states)@.len(),
        decreases rs@.len() - i,
    {
        let tag = rs[i].tag as usize;
        if tag < states.len() {
            states[tag] = Some(rs[i].value);
        } else {
            ok = false;
        }
        proof {
            assert(rviews.take(i + 1).drop_last() =~= rviews.take(i as int));
            assert(rviews.take(i + 1).last() == rviews[i as int]);
        }
        i = i + 1;
    }
    proof {
        assert(rviews.take(rviews.len() as int) =~= rviews);
    }
    ok
}

/// Copies `len` bytes of `blob` starting at `start`.
fn copy_bytes(blob: &Vec<u8>, start: usize, len: usize) -> (r: Vec<u8>)
    requires
        start + len <= blob@.len(),
    ensures
        r@ == blob@.subrange(start as int, start as int + len as int),
{
    let blen = blob.len();
    let mut r: Vec<u8> = Vec::new();
    let mut j: usize = 0;
    while j < len
        invariant
            0 <= j <= len,
            blen == blob@.len(),
            start + len <= blen,
            r@ == blob@.subrange(start as int, start as int + j as int),
        decreases len - j,
    {
        r.push(blob[start + j]);
        proof {
            assert(r@ =~= blob@.subrange(start as int, start as int + (j + 1) as int));
        }
        j = j + 1;
    }
    r
}

/// Decodes the opaque project-component blob of a Spawn message: `count`
/// fixed-size records, each a tag byte at the record start and the
/// component payload of that tag's size at the record's payload offset.
/// Decoding is checked: a blob whose length is not `count` records, or a
/// record whose tag is at or beyond the declared component count, is a
/// decode error reported as `None`, with nothing decoded.
pub fn decode_custom_blob(
    blob: &Vec<u8>,
    count: usize,
    sizes: &Vec<usize>,
    value_off: usize,
    stride: usize,
) -> (r: Option<Vec<CustomRecord>>)
    requires
        stride >= 1,
        sizes@.len() <= 256,
        forall|t: int| 0 <= t < sizes@.len() ==> value_off + sizes@[t] <= stride,
    ensures
        r is Some <==> (blob@.len() == count * stride && forall|k: int|
            0 <= k < count ==> (#[trigger] blob@[k * stride] as int) < sizes@.len()),
        r matches Some(rs) ==> {
            &&& rs@.len() == count
            &&& forall|k: int|
                0 <= k < count ==> (#[trigger] rs@[k]).tag == blob@[k * stride]
                    && rs@[k].payload@ == blob@.subrange(
                    k * stride + value_off,
                    k * stride + value_off + sizes@[blob@[k * stride] as int],
                )
        },
{
    let blen = blob.len();
    let total = count.checked_mul(stride);
    if total.is_none() || total.unwrap() != blen {
        return None;
    }
    let mut rs: Vec<CustomRecord> = Vec::new();
    let mut k: usize = 0;
    let mut off: usize = 0;
    while k < count
        invariant
            0 <= k <= count,
            off == k * stride,
            blob@.len() == count * stride,
            blob@.len() <= usize::MAX,
            stride >= 1,
            sizes@.len() <= 256,
            forall|t: int| 0 <= t < sizes@.len() ==> value_off + sizes@[t] <= stride,
            rs@.len() == k,
            forall|k2: int|
                0 <= k2 < k ==> (#[trigger] rs@[k2]).tag == blob@[k2 * stride]
                    && rs@[k2].payload@ == blob@.subrange(
                    k2 * stride + value_off,
                    k2 * stride + value_off + sizes@[blob@[k2 * stride] as int],
                ),
            forall|k2: int| 0 <= k2 < k ==> (#[trigger] blob@[k2 * stride] as int) < sizes@.len(),
        decreases count - k,
    {
        proof {
            assert(off + stride <= count * stride && off + stride == (k + 1) * stride)
                by (nonlinear_arith)
                requires
                    off == k * stride,
                    k < count,
                    stride >= 1,
            ;
        }
        let tag = blob[off];
        if tag as usize >= sizes.len() {
            proof {
                assert((blob@[k as int * stride] as int) >= sizes@.len());
            }
            return None;
        }
        let size = sizes[tag as usize];
        proof {
            assert(value_off + sizes@[tag as int] <= stride);
        }
        let payload = copy_bytes(blob, off + value_off, size);
        rs.push(CustomRecord { tag, payload });
        off = off + stride;
        k = k + 1;
    }
    Some(rs)
}

/// Decodes the opaque state blob of a Spawn message: `count` two-byte
/// records, a state tag byte and an ordinal byte.  A blob whose length is
/// not `count` records is a decode error reported as `None`.
pub fn decode_state_blob(blob: &Vec<u8>, count: usize) -> (r: Option<Vec<StateRecord>>)
    ensures
        r is Some <==> blob@.len() == count * 2,
        r matches Some(rs) ==> {
            &&& rs@.len() == count
            &&& forall|k: int|
                0 <= k < count ==> (#[trigger] rs@[k]).tag == blob@[k * 2] && rs@[k].value
                    == blob@[k * 2 + 1]
        },
{
    let blen = blob.len();
    let total = count.checked_mul(2);
    if total.is_none() || total.unwrap() != blen {
        return None;
    }
    let mut rs: Vec<StateRecord> = Vec::new();
    let mut k: usize = 0;
    let mut off: usize = 0;
    while k < count
        invariant
            0 <= k <= count,
            off == k * 2,
            blob@.len() == count * 2,
            blob@.len() <= usize::MAX,
            rs@.len() == k,
            forall|k2: int|
                0 <= k2 < k ==> (#[trigger] rs@[k2]).tag == blob@[k2 * 2] && rs@[k2].value
                    == blob@[k2 * 2 + 1],
        decreases count - k,
    {
        let tag = blob[off];
        let value = blob[off + 1];
        rs.push(StateRecord { tag, value });
        off = off + 2;
        k = k + 1;
    }
    Some(rs)
}

/// The last parent payload of a builtin record array, if any: the value a
/// decode through the dispatch table leaves attached.
pub open spec fn last_parent(rs: Seq<InbuiltData>) -> Option<crate::inbuilt::UnityParent>
    decreases rs.len(),
{
    if rs.len() == 0 {
        None
    } else {
        match rs.last() {
            InbuiltData::UnityParent(p) => Some(p),
            _ => last_parent(rs.drop_last()),
        }
    }
}

/// The last asset reference payload of a builtin record array, if any.
pub open spec fn last_guid(rs: Seq<InbuiltData>) -> Option<crate::inbuilt::UnityGUID>
    decreases rs.len(),
{
    if rs.len() == 0 {
        None
    } else {
        match rs.last() {
            InbuiltData::UnityGUID(g) => Some(g),
            _ => last_guid(rs.drop_last()),
        }
    }
}

/// The last transform payload of a builtin record array, if any.
pub open spec fn last_transform(rs: Seq<InbuiltData>) -> Option<crate::inbuilt::UnityTransform>
    decreases rs.len(),
{
    if rs.len() == 0 {
        None
    } else {
        match rs.last() {
            InbuiltData::UnityTransform(t) => Some(t),
            _ => last_transform(rs.drop_last()),
        }
    }
}

/// What decoding a builtin record array through the dispatch table does to
/// each component field: the last record of each kind wins, the parent
/// relation follows the parent component, a decoded transform marks the
/// transform changed, and nothing else of the entity is touched.
pub proof fn lemma_apply_inbuilt_fields(d0: EntityData, rs: Seq<InbuiltData>)
    ensures
        ({
            let d = apply_inbuilt_records(d0, rs);
            &&& d.parent == (match last_parent(rs) {
                Some(p) => Some(p),
                None => d0.parent,
            })
            &&& d.parent_link == (match last_parent(rs) {
                Some(p) => Some(p.entity),
                None => d0.parent_link,
            })
            &&& d.guid == (match last_guid(rs) {
                Some(g) => Some(g),
                None => d0.guid,
            })
            &&& d.transform == (match last_transform(rs) {
                Some(t) => Some(t),
                None => d0.transform,
            })
            &&& d.transform_changed == (last_transform(rs) is Some || d0.transform_changed)
            &&& d.unity == d0.unity
            &&& d.instantiate == d0.instantiate
            &&& d.destroy == d0.destroy
            &&& d.custom == d0.custom
            &&& d.custom_changed == d0.custom_changed
            &&& d.states == d0.states
        }),
    decreases rs.len(),
{
    if rs.len() > 0 {
        lemma_apply_inbuilt_fields(d0, rs.drop_last());
    }
}

/// An absent per-tag store of `n` tags: nothing attached.
pub open spec fn blank_customs(n: nat) -> Seq<Option<Seq<u8>>> {
    Seq::new(n, |i: int| None)
}

/// An absent per-tag state store of `n` tags.
pub open spec fn blank_states(n: nat) -> Seq<Option<u8>> {
    Seq::new(n, |i: int| None)
}

/// The (tag, payload) records a well-formed project component blob decodes
/// to: record `k` starts at `k * stride`, its tag is the first byte, and
/// its payload is the tag's component size worth of bytes at the payload
/// offset.
pub open spec fn custom_blob_records(
    blob: Seq<u8>,
    count: int,
    sizes: Seq<int>,
    value_off: int,
    stride: int,
) -> Seq<(int, Seq<u8>)> {
    Seq::new(
        count as nat,
        |k: int|
            (
                blob[k * stride] as int,
                blob.subrange(
                    k * stride + value_off,
                    k * stride + value_off + sizes[blob[k * stride] as int],
                ),
            ),
    )
}

/// The (tag, ordinal) records a well-formed state blob decodes to.
pub open spec fn state_blob_records(blob: Seq<u8>, count: int) -> Seq<(int, u8)> {
    Seq::new(count as nat, |k: int| (blob[k * 2] as int, blob[k * 2 + 1]))
}

/// One entity's descriptor within a Create or Update batch: the host
/// identity of the entity, and the contiguous regions of the two flat
/// record buffers that hold its builtin and project records.
#[derive(PartialEq, Eq, Structural, Clone, Copy, Debug)]
pub struct EntityBatch {
    pub entity: UnityEntity,
    pub inbuilt_offset: usize,
    pub inbuilt_len: usize,
    pub custom_offset: usize,
    pub custom_len: usize,
}

/// A Create or Update message: one flat builtin record buffer, one flat
/// project record buffer, and per-entity descriptors pointing into them.
pub struct SnapshotBatch {
    pub inbuilt: Vec<InbuiltData>,
    pub customs: Vec<CustomRecord>,
    pub entities: Vec<EntityBatch>,
}

/// The (identity, components) sources a batch is encoded from: the
/// selected slots of the world, in selection order.
pub open spec fn batch_sources(w: World, sel: Seq<(usize, UnityEntity)>) -> Seq<
    (UnityEntity, EntityData),
> {
    sel.map_values(|p: (usize, UnityEntity)| (p.1, w.slots@[p.0 as int].data))
}

/// What it means for a batch to encode the given sources: one descriptor
/// per source, in source order; descriptor k's regions hold exactly the
/// tag-ordered encodings of source k's builtin and project component sets;
/// regions are contiguous — the first starts at 0, each next one starts
/// where the previous ended — and together they exhaust the flat buffers.
pub open spec fn snapshot_batch_encodes(
    b: SnapshotBatch,
    srcs: Seq<(UnityEntity, EntityData)>,
) -> bool {
    &&& b.entities@.len() == srcs.len()
    &&& forall|k: int|
        0 <= k < srcs.len() ==> {
            let e = #[trigger] b.entities@[k];
            let enc_in = encode_inbuilt(srcs[k].1);
            let enc_cu = encode_custom(
                customs_view(srcs[k].1.custom@),
                srcs[k].1.custom@.len() as int,
            );
            &&& e.entity == srcs[k].0
            &&& e.inbuilt_len == enc_in.len()
            &&& e.custom_len == enc_cu.len()
            &&& e.inbuilt_offset + e.inbuilt_len <= b.inbuilt@.len()
            &&& e.custom_offset + e.custom_len <= custom_record_views(b.customs@).len()
            &&& b.inbuilt@.subrange(
                e.inbuilt_offset as int,
                e.inbuilt_offset + e.inbuilt_len,
            ) == enc_in
            &&& custom_record_views(b.customs@).subrange(
                e.custom_offset as int,
                e.custom_offset + e.custom_len,
            ) == enc_cu
        }
    &&& (srcs.len() > 0 ==> b.entities@[0].inbuilt_offset == 0 && b.entities@[0].custom_offset
        == 0)
    &&& forall|k: int|
        0 <= k < srcs.len() - 1 ==> {
            let e = #[trigger] b.entities@[k];
            &&& b.entities@[k + 1].inbuilt_offset == e.inbuilt_offset + e.inbuilt_len
            &&& b.entities@[k + 1].custom_offset == e.custom_offset + e.custom_len
        }
    &&& b.inbuilt@.len() == (if srcs.len() == 0 {
        0int
    } else {
        b.entities@[srcs.len() - 1].inbuilt_offset + b.entities@[srcs.len() - 1].inbuilt_len
    })
    &&& b.customs@.len() == (if srcs.len() == 0 {
        0int
    } else {
        b.entities@[srcs.len() - 1].custom_offset + b.entities@[srcs.len() - 1].custom_len
    })
}

/// Two-pass batch encode.  Pass 1 collects, per selected entity, its
/// tagged records and record counts; pass 2 computes contiguous offsets
/// into the flat record buffers and builds the per-entity descriptors
/// pointing into them.  Output order equals selection order, and encoding
/// is linear in the total record count, with no per-entity reallocation.
pub fn encode_snapshot(world: &World, sel: &Vec<(usize, UnityEntity)>) -> (b: SnapshotBatch)
    requires
        forall|k: int| 0 <= k < sel@.len() ==> (#[trigger] sel@[k]).0 < world.slots@.len(),
        forall|k: int|
            0 <= k < sel@.len() ==> world.slots@[(#[trigger] sel@[k]).0 as int].data.custom@.len()
                <= 256,
    ensures
        snapshot_batch_encodes(b, batch_sources(*world, sel@)),
{
    let ghost srcs = batch_sources(*world, sel@);
    // Pass 1: per-entity record arrays and counts.
    let mut rin_list: Vec<Vec<InbuiltData>> = Vec::new();
    let mut rcu_list: Vec<Vec<CustomRecord>> = Vec::new();
    let mut k: usize = 0;
    while k < sel.len()
        invariant
            0 <= k <= sel@.len(),
            srcs == batch_sources(*world, sel@),
            forall|k2: int| 0 <= k2 < sel@.len() ==> (#[trigger] sel@[k2]).0 < world.slots@.len(),
            forall|k2: int|
                0 <= k2 < sel@.len() ==> world.slots@[(#[trigger] sel@[k2]).0 as int].data.custom@.len()
                    <= 256,
            rin_list@.len() == k,
            rcu_list@.len() == k,
            forall|k2: int|
                0 <= k2 < k ==> (#[trigger] rin_list@[k2])@ == encode_inbuilt(srcs[k2].1),
            forall|k2: int|
                0 <= k2 < k ==> custom_record_views((#[trigger] rcu_list@[k2])@) == encode_custom(
                    customs_view(srcs[k2].1.custom@),
                    srcs[k2].1.custom@.len() as int,
                ),
        decreases sel@.len() - k,
    {
        let idx = sel[k].0;
        let rin = encode_inbuilt_exec(&world.slots[idx].data);
        let rcu = encode_custom_exec(&world.slots[idx].data.custom);
        rin_list.push(rin);
        rcu_list.push(rcu);
        k = k + 1;
    }
    // Pass 2: contiguous offsets and descriptors.
    let mut flat_in: Vec<InbuiltData> = Vec::new();
    let mut flat_cu: Vec<CustomRecord> = Vec::new();
    let mut entities: Vec<EntityBatch> = Vec::new();
    let mut k: usize = 0;
    while k < sel.len()
        invariant
            0 <= k <= sel@.len(),
            srcs == batch_sources(*world, sel@),
            srcs.len() == sel@.len(),
            rin_list@.len() == sel@.len(),
            rcu_list@.len() == sel@.len(),
            forall|k2: int|
                k <= k2 < sel@.len() ==> (#[trigger] rin_list@[k2])@ == encode_inbuilt(srcs[k2].1),
            forall|k2: int|
                k <= k2 < sel@.len() ==> custom_record_views((#[trigger] rcu_list@[k2])@)
                    == encode_custom(
                    customs_view(srcs[k2].1.custom@),
                    srcs[k2].1.custom@.len() as int,
                ),
            entities@.len() == k,
            k > 0 ==> entities@[0].inbuilt_offset == 0 && entities@[0].custom_offset == 0,
            flat_in@.len() == (if k == 0 {
                0int
            } else {
                entities@[k - 1].inbuilt_offset + entities@[k - 1].inbuilt_len
            }),
            flat_cu@.len() == (if k == 0 {
                0int
            } else {
                entities@[k - 1].custom_offset + entities@[k - 1].custom_len
            }),
            forall|k2: int|
                0 <= k2 < k ==> {
                    let e = #[trigger] entities@[k2];
                    let enc_in = encode_inbuilt(srcs[k2].1);
                    let enc_cu = encode_custom(
                        customs_view(srcs[k2].1.custom@),
                        srcs[k2].1.custom@.len() as int,
                    );
                    &&& e.entity == srcs[k2].0
                    &&& e.inbuilt_len == enc_in.len()
                    &&& e.custom_len == enc_cu.len()
                    &&& e.inbuilt_offset + e.inbuilt_len <= flat_in@.len()
                    &&& e.custom_offset + e.custom_len <= flat_cu@.len()
                    &&& flat_in@.subrange(
                        e.inbuilt_offset as int,
                        e.inbuilt_offset + e.inbuilt_len,
                    ) == enc_in
                    &&& custom_record_views(flat_cu@).subrange(
                        e.custom_offset as int,
                        e.custom_offset + e.custom_len,
                    ) == enc_cu
                },
            forall|k2: int|
                0 <= k2 < k - 1 ==> {
                    let e = #[trigger] entities@[k2];
                    &&& entities@[k2 + 1].inbuilt_offset == e.inbuilt_offset + e.inbuilt_len
                    &&& entities@[k2 + 1].custom_offset == e.custom_offset + e.custom_len
                },
        decreases sel@.len() - k,
    {
        let ghost pre_in = flat_in@;
        let ghost pre_cu = flat_cu@;
        let inbuilt_offset = flat_in.len();
        let custom_offset = flat_cu.len();
        let inbuilt_len = rin_list[k].len();
        let custom_len = rcu_list[k].len();
        let rin = &mut rin_list[k];
        flat_in.append(rin);
        let rcu = &mut rcu_list[k];
        flat_cu.append(rcu);
        entities.push(
            EntityBatch {
                entity: sel[k].1,
                inbuilt_offset,
                inbuilt_len,
                custom_offset,
                custom_len,
            },
        );
        proof {
            assert(flat_in@.subrange(
                inbuilt_offset as int,
                inbuilt_offset + inbuilt_len,
            ) =~= encode_inbuilt(srcs[k as int].1));
            assert(custom_record_views(flat_cu@).subrange(
                custom_offset as int,
                custom_offset + custom_len,
            ) =~= encode_custom(
                customs_view(srcs[k as int].1.custom@),
                srcs[k as int].1.custom@.len() as int,
            ));
            assert forall|k2: int| 0 <= k2 < k implies {
                let e = #[trigger] entities@[k2];
                let enc_in = encode_inbuilt(srcs[k2].1);
                let enc_cu = encode_custom(
                    customs_view(srcs[k2].1.custom@),
                    srcs[k2].1.custom@.len() as int,
                );
                &&& flat_in@.subrange(
                    e.inbuilt_offset as int,
                    e.inbuilt_offset + e.inbuilt_len,
                ) == enc_in
                &&& custom_record_views(flat_cu@).subrange(
                    e.custom_offset as int,
                    e.custom_offset + e.custom_len,
                ) == enc_cu
            } by {
                let e = entities@[k2];
                assert(flat_in@.subrange(
                    e.inbuilt_offset as int,
                    e.inbuilt_offset + e.inbuilt_len,
                ) =~= pre_in.subrange(e.inbuilt_offset as int, e.inbuilt_offset + e.inbuilt_len));
                assert(custom_record_views(flat_cu@).subrange(
                    e.custom_offset as int,
                    e.custom_offset + e.custom_len,
                ) =~= custom_record_views(pre_cu).subrange(
                    e.custom_offset as int,
                    e.custom_offset + e.custom_len,
                ));
            }
        }
        k = k + 1;
    }
    SnapshotBatch { inbuilt: flat_in, customs: flat_cu, entities }
}

/// Round trip at the batch level: the region of a batch's flat project
/// record buffer that belongs to one encoded entity, applied through the
/// dispatch table to a fresh entity of the same schema, restores exactly
/// that entity's project component set.
pub proof fn lemma_batch_slice_round_trip(
    b: SnapshotBatch,
    srcs: Seq<(UnityEntity, EntityData)>,
    k: int,
    fresh: Seq<Option<Seq<u8>>>,
)
    requires
        snapshot_batch_encodes(b, srcs),
        0 <= k < srcs.len(),
        fresh.len() == srcs[k].1.custom@.len(),
        forall|i: int| 0 <= i < fresh.len() ==> fresh[i] is None,
    ensures
        ({
            let e = b.entities@[k];
            apply_custom_records(
                fresh,
                custom_record_views(b.customs@).subrange(
                    e.custom_offset as int,
                    e.custom_offset + e.custom_len,
                ),
            ) == customs_view(srcs[k].1.custom@)
        }),
{
    let cs = customs_view(srcs[k].1.custom@);
    lemma_custom_round_trip(cs, fresh);
}

/// Applying an empty or one-record array unfolds to at most one dispatch
/// step.
proof fn lemma_apply_singleton(d: EntityData, rs: Seq<InbuiltData>)
    requires
        rs.len() <= 1,
    ensures
        rs.len() == 0 ==> apply_inbuilt_records(d, rs) == d,
        rs.len() == 1 ==> apply_inbuilt_records(d, rs) == apply_inbuilt_record(d, rs[0]),
{
    if rs.len() == 1 {
        assert(rs.drop_last() =~= Seq::<InbuiltData>::empty());
        assert(rs.last() == rs[0]);
        assert(apply_inbuilt_records(d, rs) == apply_inbuilt_record(
            apply_inbuilt_records(d, rs.drop_last()),
            rs.last(),
        ));
    }
}

} // verus!
