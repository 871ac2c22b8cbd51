//! Byte layout of declared components.
//!
//! A component's byte layout is fully determined by its field list and
//! order, under the primitive numeric rules both runtimes share: each
//! primitive is aligned to its own size, fields are laid out sequentially
//! in declaration order, and the record is padded to a multiple of its
//! largest field alignment.  No other alignment inference is allowed,
//! because the two runtimes have no shared reflection mechanism to
//! negotiate anything richer.

use vstd::prelude::*;

use crate::schema::ComponentDecl;
use crate::schema::FieldDecl;
use crate::schema::component_supported;
use crate::schema::csharp_type_of;
use crate::schema::str_eq;

verus! {

/// Size in bytes of a supported primitive numeric type (0 for a type name
/// outside the supported set).
pub open spec fn type_size(ty: Seq<char>) -> nat {
    if ty == "f32"@ || ty == "i32"@ || ty == "u32"@ {
        4
    } else if ty == "f64"@ || ty == "i64"@ || ty == "u64"@ {
        8
    } else {
        0
    }
}

/// Alignment of a supported primitive numeric type: a primitive is aligned
/// to its own size.
pub open spec fn type_align(ty: Seq<char>) -> nat {
    type_size(ty)
}

/// `x` rounded up to the next multiple of `a`.
pub open spec fn round_up(x: nat, a: nat) -> nat
    recommends
        a > 0,
{
    if a == 0 || x % a == 0 {
        x
    } else {
        (x + (a - x % a)) as nat
    }
}

pub proof fn lemma_round_up_bounds(x: nat, a: nat)
    requires
        a > 0,
    ensures
        x <= round_up(x, a) < x + a,
{
    assert(0 <= x % a < a);
}

/// End of the laid-out region after the first `n` fields: each field is
/// placed at its offset (the running end rounded up to the field's
/// alignment) and extends for its size.
pub open spec fn layout_end(fields: Seq<FieldDecl>, n: int) -> nat
    decreases n,
{
    if n <= 0 {
        0
    } else {
        round_up(layout_end(fields, n - 1), type_align(fields[n - 1].ty@)) + type_size(
            fields[n - 1].ty@,
        )
    }
}

/// Byte offset of field `i` within the component record.
pub open spec fn field_offset(fields: Seq<FieldDecl>, i: int) -> nat {
    round_up(layout_end(fields, i), type_align(fields[i].ty@))
}

/// Alignment of the whole record over its first `n` fields: the largest
/// field alignment, and at least 1.
pub open spec fn fields_align(fields: Seq<FieldDecl>, n: int) -> nat
    decreases n,
{
    if n <= 0 {
        1
    } else {
        let rest = fields_align(fields, n - 1);
        let a = type_align(fields[n - 1].ty@);
        if a > rest {
            a
        } else {
            rest
        }
    }
}

/// Total size in bytes of the component record: the end of its last field,
/// padded to a multiple of the record alignment.
pub open spec fn component_size(c: ComponentDecl) -> nat {
    round_up(layout_end(c.fields@, c.fields@.len() as int), fields_align(
        c.fields@,
        c.fields@.len() as int,
    ))
}

pub proof fn lemma_fields_align_positive(fields: Seq<FieldDecl>, n: int)
    ensures
        fields_align(fields, n) >= 1,
    decreases n,
{
    if n > 0 {
        lemma_fields_align_positive(fields, n - 1);
    }
}

/// The laid-out region only grows as fields are added.
pub proof fn lemma_layout_end_monotonic(fields: Seq<FieldDecl>, m: int, n: int)
    requires
        m <= n,
    ensures
        layout_end(fields, m) <= layout_end(fields, n),
    decreases n - m,
{
    if m < n {
        lemma_layout_end_monotonic(fields, m, n - 1);
        let a = type_align(fields[n - 1].ty@);
        if a > 0 {
            lemma_round_up_bounds(layout_end(fields, n - 1), a);
        }
    }
}

/// Alignment of the union of the first `n` declared components: the
/// largest member alignment, and at least 1.
pub open spec fn union_align(decls: Seq<ComponentDecl>, n: int) -> nat
    decreases n,
{
    if n <= 0 {
        1
    } else {
        let rest = union_align(decls, n - 1);
        let a = fields_align(decls[n - 1].fields@, decls[n - 1].fields@.len() as int);
        if a > rest {
            a
        } else {
            rest
        }
    }
}

/// Size of the largest member of the union of the first `n` declared
/// components.
pub open spec fn union_max_size(decls: Seq<ComponentDecl>, n: int) -> nat
    decreases n,
{
    if n <= 0 {
        0
    } else {
        let rest = union_max_size(decls, n - 1);
        let s = component_size(decls[n - 1]);
        if s > rest {
            s
        } else {
            rest
        }
    }
}

/// Size of the union of all declared components: the largest member,
/// padded to the union alignment.
pub open spec fn custom_union_size(decls: Seq<ComponentDecl>) -> nat {
    round_up(union_max_size(decls, decls.len() as int), union_align(decls, decls.len() as int))
}

/// Byte offset of the payload union within one project tagged data record:
/// the tag byte, padded to the union's alignment.
pub open spec fn custom_value_offset(decls: Seq<ComponentDecl>) -> nat {
    round_up(1, union_align(decls, decls.len() as int))
}

/// Size in bytes of one project tagged data record: the padded tag byte
/// followed by the payload union.  Records of a blob follow each other at
/// this stride.
pub open spec fn custom_stride(decls: Seq<ComponentDecl>) -> nat {
    custom_value_offset(decls) + custom_union_size(decls)
}

pub proof fn lemma_union_align_positive(decls: Seq<ComponentDecl>, n: int)
    ensures
        union_align(decls, n) >= 1,
    decreases n,
{
    if n > 0 {
        lemma_union_align_positive(decls, n - 1);
        lemma_fields_align_positive(decls[n - 1].fields@, decls[n - 1].fields@.len() as int);
    }
}

/// Every declared component fits in the union: its record size is at most
/// the union size, so its payload lies within one record's payload region.
pub proof fn lemma_component_fits_union(decls: Seq<ComponentDecl>, t: int, n: int)
    requires
        0 <= t < n <= decls.len(),
    ensures
        component_size(decls[t]) <= union_max_size(decls, n),
    decreases n,
{
    if t < n - 1 {
        lemma_component_fits_union(decls, t, n - 1);
    }
}

/// Executable union alignment of the declared components.
pub fn union_align_exec(decls: &Vec<ComponentDecl>) -> (r: usize)
    requires
        forall|i: int| 0 <= i < decls@.len() ==> component_supported(#[trigger] decls@[i]),
    ensures
        r as nat == union_align(decls@, decls@.len() as int),
        1 <= r <= 8,
{
    let mut r: usize = 1;
    let mut i: usize = 0;
    while i < decls.len()
        invariant
            0 <= i <= decls@.len(),
            forall|j: int| 0 <= j < decls@.len() ==> component_supported(#[trigger] decls@[j]),
            r as nat == union_align(decls@, i as int),
            1 <= r <= 8,
        decreases decls@.len() - i,
    {
        let a = fields_align_exec(&decls[i]);
        if a > r {
            r = a;
        }
        i = i + 1;
    }
    r
}

/// Executable record alignment of one component.
pub fn fields_align_exec(c: &ComponentDecl) -> (r: usize)
    requires
        component_supported(*c),
    ensures
        r as nat == fields_align(c.fields@, c.fields@.len() as int),
        1 <= r <= 8,
{
    let mut r: usize = 1;
    let mut i: usize = 0;
    while i < c.fields.len()
        invariant
            0 <= i <= c.fields@.len(),
            component_supported(*c),
            r as nat == fields_align(c.fields@, i as int),
            1 <= r <= 8,
        decreases c.fields@.len() - i,
    {
        let a = type_size_exec(&c.fields[i].ty);
        assert(csharp_type_of(c.fields@[i as int].ty@) is Some);
        assert(a == 4 || a == 8);
        if a > r {
            r = a;
        }
        i = i + 1;
    }
    r
}

/// Executable size of the largest declared component.
pub fn union_max_size_exec(decls: &Vec<ComponentDecl>) -> (r: usize)
    requires
        forall|i: int| 0 <= i < decls@.len() ==> component_supported(#[trigger] decls@[i]),
        forall|i: int| 0 <= i < decls@.len() ==> component_size(#[trigger] decls@[i]) <= usize::MAX,
    ensures
        r as nat == union_max_size(decls@, decls@.len() as int),
{
    let mut r: usize = 0;
    let mut i: usize = 0;
    while i < decls.len()
        invariant
            0 <= i <= decls@.len(),
            forall|j: int| 0 <= j < decls@.len() ==> component_supported(#[trigger] decls@[j]),
            forall|j: int|
                0 <= j < decls@.len() ==> component_size(#[trigger] decls@[j]) <= usize::MAX,
            r as nat == union_max_size(decls@, i as int),
        decreases decls@.len() - i,
    {
        let s = component_size_exec(&decls[i]);
        if s > r {
            r = s;
        }
        i = i + 1;
    }
    r
}

/// Executable size of a supported primitive numeric type.
pub fn type_size_exec(ty: &String) -> (r: usize)
    ensures
        r as nat == type_size(ty@),
{
    if str_eq(ty, "f32") || str_eq(ty, "i32") || str_eq(ty, "u32") {
        4
    } else if str_eq(ty, "f64") || str_eq(ty, "i64") || str_eq(ty, "u64") {
        8
    } else {
        0
    }
}

/// Executable rounding to the next multiple of `a`.
pub fn round_up_exec(x: usize, a: usize) -> (r: usize)
    requires
        a > 0,
        round_up(x as nat, a as nat) <= usize::MAX,
    ensures
        r as nat == round_up(x as nat, a as nat),
{
    let rem = x % a;
    if rem == 0 {
        x
    } else {
        x + (a - rem)
    }
}

/// Executable total size of a component record.
pub fn component_size_exec(c: &ComponentDecl) -> (r: usize)
    requires
        component_supported(*c),
        component_size(*c) <= usize::MAX,
    ensures
        r as nat == component_size(*c),
{
    let ghost fields = c.fields@;
    let ghost n_fields = c.fields@.len() as int;
    let mut end: usize = 0;
    let mut align: usize = 1;
    let mut i: usize = 0;
    while i < c.fields.len()
        invariant
            0 <= i <= fields.len(),
            fields == c.fields@,
            n_fields == fields.len() as int,
            component_supported(*c),
            component_size(*c) <= usize::MAX,
            end as nat == layout_end(fields, i as int),
            align as nat == fields_align(fields, i as int),
            1 <= align <= 8,
        decreases fields.len() - i,
    {
        let fa = type_size_exec(&c.fields[i].ty);
        assert(csharp_type_of(fields[i as int].ty@) is Some);
        assert(fa == 4 || fa == 8);
        proof {
            lemma_layout_end_monotonic(fields, i + 1, n_fields);
            lemma_fields_align_positive(fields, n_fields);
            lemma_round_up_bounds(layout_end(fields, n_fields), fields_align(fields, n_fields));
            lemma_round_up_bounds(end as nat, fa as nat);
        }
        let off = round_up_exec(end, fa);
        end = off + fa;
        if fa > align {
            align = fa;
        }
        i = i + 1;
    }
    proof {
        lemma_round_up_bounds(end as nat, align as nat);
    }
    round_up_exec(end, align)
}

} // verus!
