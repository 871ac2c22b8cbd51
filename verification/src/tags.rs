//! The schema compiler's tag assignment and dispatch table.
//!
//! Each category of the schema gets a dense tag enumeration: the first
//! declaration receives tag 0, the next tag 1, and so on, in declaration
//! order.  Tag assignment is closed-world: it is fixed once the schema is
//! compiled, and both sides of the boundary must be generated from the
//! same schema, since no runtime negotiation of tags exists.
//!
//! The dispatch table maps each tag to the operation that applies a
//! decoded payload to a live entity.

use vstd::prelude::*;

use crate::schema::StateDecl;

verus! {

/// The operation a decoded record's tag dispatches to on the embedded side.
#[derive(PartialEq, Eq, Structural, Clone, Copy, Debug)]
pub enum DispatchOp {
    /// Insert the payload as a plain component.
    Insert,
    /// Insert the payload and additionally update the entity's parent
    /// (ownership) relation from it.
    InsertAndReparent,
    /// Insert a transform-equivalent bundle built from the payload.
    InsertTransform,
    /// The payload carries the host's own identity for the entity, which
    /// the bridge attaches itself; the record needs no further operation.
    Ignore,
    /// Hand the opaque payload to the project-specific handler.
    Custom,
}

/// Zero-based position of the first occurrence of `name`, or -1 if absent.
/// A declaration's tag is its position in its category's declaration list.
pub open spec fn first_index_of(names: Seq<Seq<char>>, name: Seq<char>) -> int
    decreases names.len(),
{
    if names.len() == 0 {
        -1
    } else if names[0] == name {
        0
    } else {
        let rest = first_index_of(names.drop_first(), name);
        if rest < 0 {
            -1
        } else {
            1 + rest
        }
    }
}

/// Whether the declared names of a category are pairwise distinct.
pub open spec fn distinct_names(names: Seq<Seq<char>>) -> bool {
    forall|i: int, j: int| 0 <= i < j < names.len() ==> names[i] != names[j]
}

/// Tag values equal zero-based declaration-order position: within a
/// category of distinct names, the tag looked up for the i-th declared
/// name is exactly i.  Reordering declarations therefore changes each
/// declaration's tag to its new position.
pub proof fn lemma_tag_is_declaration_position(names: Seq<Seq<char>>, i: int)
    requires
        distinct_names(names),
        0 <= i < names.len(),
    ensures
        first_index_of(names, names[i]) == i,
    decreases names.len(),
{
    if i > 0 {
        assert(names[0] != names[i]);
        assert(distinct_names(names.drop_first()));
        assert(names.drop_first()[i - 1] == names[i]);
        lemma_tag_is_declaration_position(names.drop_first(), i - 1);
    }
}

/// Removing the j-th declaration shifts the tags of all later declarations
/// down by one and leaves earlier tags unchanged.
pub proof fn lemma_removal_shifts_tags(names: Seq<Seq<char>>, j: int, i: int)
    requires
        distinct_names(names),
        0 <= j < names.len(),
        0 <= i < names.len(),
        i != j,
    ensures
        i < j ==> first_index_of(names.remove(j), names[i]) == i,
        i > j ==> first_index_of(names.remove(j), names[i]) == i - 1,
{
    let removed = names.remove(j);
    assert(distinct_names(removed));
    if i < j {
        assert(removed[i] == names[i]);
        lemma_tag_is_declaration_position(removed, i);
    } else {
        assert(removed[i - 1] == names[i]);
        lemma_tag_is_declaration_position(removed, i - 1);
    }
}

/// The dispatch table of the builtin component category, indexed by tag,
/// in the fixed declaration order of the builtin components: the parent
/// relation, the host identity, the asset reference, the transform.
pub open spec fn inbuilt_dispatch() -> Seq<DispatchOp> {
    seq![
        DispatchOp::InsertAndReparent,
        DispatchOp::Ignore,
        DispatchOp::Insert,
        DispatchOp::InsertTransform,
    ]
}

/// Builds the dispatch table of the builtin component category.
pub fn build_inbuilt_dispatch() -> (r: Vec<DispatchOp>)
    ensures
        r@ == inbuilt_dispatch(),
{
    let mut table: Vec<DispatchOp> = Vec::new();
    table.push(DispatchOp::InsertAndReparent);
    table.push(DispatchOp::Ignore);
    table.push(DispatchOp::Insert);
    table.push(DispatchOp::InsertTransform);
    proof {
        assert(table@ =~= inbuilt_dispatch());
    }
    table
}

/// Builds the dispatch table of the project component category: every tag
/// dispatches to the project-specific handler.
pub fn build_custom_dispatch(count: usize) -> (r: Vec<DispatchOp>)
    ensures
        r@.len() == count,
        forall|i: int| 0 <= i < count ==> r@[i] == DispatchOp::Custom,
{
    let mut table: Vec<DispatchOp> = Vec::new();
    let mut i: usize = 0;
    while i < count
        invariant
            0 <= i <= count,
            table@.len() == i,
            forall|j: int| 0 <= j < i ==> table@[j] == DispatchOp::Custom,
        decreases count - i,
    {
        table.push(DispatchOp::Custom);
        i = i + 1;
    }
    table
}

/// Converts a single-byte wire ordinal to the index of the state
/// enumeration variant it selects.  The conversion is checked: an ordinal
/// at or beyond the declared variant count is a decode error, reported as
/// `None`, never applied.
pub fn ordinal_to_variant(decl: &StateDecl, ordinal: u8) -> (r: Option<usize>)
    ensures
        r matches Some(i) ==> i == ordinal as int && i < decl.variants@.len(),
        r is None <==> ordinal as int >= decl.variants@.len(),
{
    if (ordinal as usize) < decl.variants.len() {
        Some(ordinal as usize)
    } else {
        None
    }
}

} // verus!
