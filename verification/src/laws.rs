//! The laws the transformer obeys, each stated over the specification
//! functions that the executable code is proved to compute.
//!
//! Permutation validity for the shuffle itself is stated beside the
//! generator; here stand its readings at the declaration level, the
//! reproducibility of the whole pass, and the eligibility laws: exclusion
//! precedence, the inclusion override of an implicit exclusion, and that a
//! declaration without members is never tagged.

use crate::ast::{
    spec_fixed_layout_annotation, spec_has_fixed_layout, spec_is_fixed_layout, FieldsV, FileV,
    ItemV, RecordV, UnionV, VariantV,
};
use crate::matcher::{regex_set_has_match, spec_eligible};
use crate::rng::{
    lemma_shuffle_map, lemma_shuffle_permutes, spec_from_seed, spec_shuffle, XorShiftRng,
};
use crate::visitor::{
    spec_shuffle_fields_from, spec_shuffle_variant_fields, spec_transform_file, spec_visit_item,
    spec_visit_record, spec_visit_union,
};
use vstd::prelude::*;

verus! {

/// The names of a variant sequence, in order.
pub open spec fn spec_variant_names(vs: Seq<VariantV>) -> Seq<Seq<char>> {
    vs.map_values(|v: VariantV| v.name)
}

/// Permutation validity at the record level: a visit never changes a
/// record's name, and its fields afterwards are exactly the fields it had,
/// each as often as before, in whatever order.
pub proof fn lemma_visit_record_permutes(
    r: RecordV,
    exc: Seq<Seq<char>>,
    inc: Seq<Seq<char>>,
    rng: XorShiftRng,
)
    requires
        r.fields matches FieldsV::Named(ms) ==> ms.len() <= usize::MAX,
    ensures
        spec_visit_record(r, exc, inc, rng).0.name == r.name,
        r.fields matches FieldsV::Named(ms) ==> (spec_visit_record(r, exc, inc, rng).0.fields
            matches FieldsV::Named(ms2) && ms2.to_multiset() == ms.to_multiset() && ms2.len()
            == ms.len()),
        !(r.fields is Named) ==> spec_visit_record(r, exc, inc, rng).0.fields == r.fields,
{
    match r.fields {
        FieldsV::Named(ms) => lemma_shuffle_permutes(ms, rng),
        _ => (),
    }
}

/// The variant-field pass keeps the variant names, pointwise.
proof fn lemma_fields_pass_names(vs: Seq<VariantV>, rng: XorShiftRng, k: int)
    ensures
        spec_shuffle_fields_from(vs, rng, k).0.len() == vs.len(),
        spec_variant_names(spec_shuffle_fields_from(vs, rng, k).0) == spec_variant_names(vs),
    decreases vs.len() - k,
{
    if 0 <= k < vs.len() {
        let (v2, rng2) = spec_shuffle_variant_fields(vs[k], rng);
        assert(v2.name == vs[k].name);
        lemma_fields_pass_names(vs.update(k, v2), rng2, k + 1);
        assert(spec_variant_names(vs.update(k, v2)) =~= spec_variant_names(vs));
    }
}

/// Whether a variant's named-field list fits in a vector.
pub open spec fn spec_fields_bounded(v: VariantV) -> bool {
    v.fields matches FieldsV::Named(ms) ==> ms.len() <= usize::MAX
}

/// How a variant relates to its field-shuffled self: same name, same
/// annotations, and the named fields a permutation of what they were; any
/// other field shape unchanged.
pub open spec fn spec_variant_shuffled(v: VariantV, w: VariantV) -> bool {
    &&& w.name == v.name
    &&& w.annotations == v.annotations
    &&& (v.fields matches FieldsV::Named(ms) ==> (w.fields matches FieldsV::Named(ms2)
        && ms2.to_multiset() == ms.to_multiset() && ms2.len() == ms.len()))
    &&& (!(v.fields is Named) ==> w.fields == v.fields)
}

/// The variant-field pass touches nothing but the named fields of each
/// variant: names and annotations stay, pointwise, and the named fields of
/// each variant afterwards are exactly the fields it had, each as often as
/// before.
pub proof fn lemma_fields_pass_pointwise(vs: Seq<VariantV>, rng: XorShiftRng, k: int)
    requires
        forall|i: int| 0 <= i < vs.len() ==> #[trigger] spec_fields_bounded(vs[i]),
    ensures
        spec_shuffle_fields_from(vs, rng, k).0.len() == vs.len(),
        forall|i: int|
            0 <= i < vs.len() ==> #[trigger] spec_variant_shuffled(
                vs[i],
                spec_shuffle_fields_from(vs, rng, k).0[i],
            ),
    decreases vs.len() - k,
{
    if 0 <= k < vs.len() {
        let (v2, rng2) = spec_shuffle_variant_fields(vs[k], rng);
        assert(spec_fields_bounded(vs[k]));
        match vs[k].fields {
            FieldsV::Named(ms) => lemma_shuffle_permutes(ms, rng),
            _ => (),
        }
        let vs2 = vs.update(k, v2);
        assert forall|i: int| 0 <= i < vs2.len() implies #[trigger] spec_fields_bounded(
            vs2[i],
        ) by {
            if i != k {
                assert(spec_fields_bounded(vs[i]));
            }
        }
        lemma_fields_pass_pointwise(vs2, rng2, k + 1);
        assert forall|i: int| 0 <= i < vs.len() implies #[trigger] spec_variant_shuffled(
            vs[i],
            spec_shuffle_fields_from(vs, rng, k).0[i],
        ) by {
            assert(spec_variant_shuffled(vs2[i], spec_shuffle_fields_from(vs2, rng2, k + 1).0[i]));
            assert(spec_shuffle_fields_from(vs, rng, k).0[i] == spec_shuffle_fields_from(
                vs2,
                rng2,
                k + 1,
            ).0[i]);
            if i != k {
                assert(vs2[i] == vs[i]);
            }
        }
    } else {
        assert forall|i: int| 0 <= i < vs.len() implies #[trigger] spec_variant_shuffled(
            vs[i],
            spec_shuffle_fields_from(vs, rng, k).0[i],
        ) by {
            assert(spec_fields_bounded(vs[i]));
        }
    }
}

/// Permutation validity at the tagged-union level: a visit never changes the
/// type's name or its number of variants; the variants afterwards are
/// exactly the field-shuffled variants, each as often as before; and the
/// multiset of variant names is exactly what it was.
pub proof fn lemma_visit_union_permutes(
    u: UnionV,
    exc: Seq<Seq<char>>,
    inc: Seq<Seq<char>>,
    rng: XorShiftRng,
)
    requires
        u.variants.len() <= usize::MAX,
    ensures
        spec_visit_union(u, exc, inc, rng).0.name == u.name,
        spec_visit_union(u, exc, inc, rng).0.variants.len() == u.variants.len(),
        spec_eligible(exc, inc, u.name, spec_has_fixed_layout(u.annotations))
            ==> spec_visit_union(u, exc, inc, rng).0.variants.to_multiset()
            == spec_shuffle_fields_from(u.variants, rng, 0).0.to_multiset(),
        !spec_eligible(exc, inc, u.name, spec_has_fixed_layout(u.annotations)) ==> spec_visit_union(
            u,
            exc,
            inc,
            rng,
        ).0 == u,
        spec_variant_names(spec_visit_union(u, exc, inc, rng).0.variants).to_multiset()
            == spec_variant_names(u.variants).to_multiset(),
{
    lemma_fields_pass_names(u.variants, rng, 0);
    let vs1 = spec_shuffle_fields_from(u.variants, rng, 0).0;
    let rng1 = spec_shuffle_fields_from(u.variants, rng, 0).1;
    let f = |v: VariantV| v.name;
    lemma_shuffle_map(vs1, f, rng1);
    lemma_shuffle_permutes(vs1.map_values(f), rng1);
    assert(spec_variant_names(spec_shuffle(vs1, rng1).0) =~= spec_shuffle(vs1, rng1).0.map_values(
        f,
    ));
    assert(spec_variant_names(vs1) =~= vs1.map_values(f));
    lemma_shuffle_permutes(vs1, rng1);
}

/// Reproducibility: the whole pass is a function of the tree, the two
/// pattern lists and the seed; two runs over the same tree with the same
/// configuration yield the same tree.
pub proof fn lemma_transform_reproducible(
    f1: FileV,
    f2: FileV,
    exc1: Seq<Seq<char>>,
    exc2: Seq<Seq<char>>,
    inc1: Seq<Seq<char>>,
    inc2: Seq<Seq<char>>,
    seed1: u128,
    seed2: u128,
)
    requires
        f1 == f2,
        exc1 == exc2,
        inc1 == inc2,
        seed1 == seed2,
    ensures
        spec_transform_file(f1, exc1, inc1, spec_from_seed(seed1)) == spec_transform_file(
            f2,
            exc2,
            inc2,
            spec_from_seed(seed2),
        ),
{
}

/// Exclusion precedence: a declaration whose name matches both an inclusion
/// and an exclusion pattern is never altered - the visit hands it back
/// exactly as it was and draws nothing.
pub proof fn lemma_exclusion_precedence(
    it: ItemV,
    exc: Seq<Seq<char>>,
    inc: Seq<Seq<char>>,
    rng: XorShiftRng,
)
    requires
        it matches ItemV::Record(r) ==> regex_set_has_match(exc, r.name) && regex_set_has_match(
            inc,
            r.name,
        ),
        it matches ItemV::Union(u) ==> regex_set_has_match(exc, u.name) && regex_set_has_match(
            inc,
            u.name,
        ),
    ensures
        spec_visit_item(it, exc, inc, rng) == (it, rng),
{
    match it {
        ItemV::Record(r) => {
            assert(spec_visit_record(r, exc, inc, rng) == (r, rng));
        },
        ItemV::Union(u) => {
            assert(spec_visit_union(u, exc, inc, rng) == (u, rng));
        },
        ItemV::Opaque => {
        },
    }
}

/// Implicit exclusion: a declaration already carrying the fixed-layout
/// annotation, whose name matches no inclusion pattern, is left exactly as
/// it was.
pub proof fn lemma_implicit_exclusion(
    it: ItemV,
    exc: Seq<Seq<char>>,
    inc: Seq<Seq<char>>,
    rng: XorShiftRng,
)
    requires
        it matches ItemV::Record(r) ==> spec_has_fixed_layout(r.annotations)
            && !regex_set_has_match(inc, r.name),
        it matches ItemV::Union(u) ==> spec_has_fixed_layout(u.annotations)
            && !regex_set_has_match(inc, u.name),
    ensures
        spec_visit_item(it, exc, inc, rng) == (it, rng),
{
    match it {
        ItemV::Record(r) => {
            assert(spec_visit_record(r, exc, inc, rng) == (r, rng));
        },
        ItemV::Union(u) => {
            assert(spec_visit_union(u, exc, inc, rng) == (u, rng));
        },
        ItemV::Opaque => {
        },
    }
}

/// Inclusion override: a record already pinned by a fixed-layout annotation
/// is still altered when its name matches an inclusion pattern and no
/// exclusion pattern, and it carries a fixed-layout annotation afterwards -
/// the old annotations stay, the tag is appended.
pub proof fn lemma_inclusion_override_record(
    r: RecordV,
    exc: Seq<Seq<char>>,
    inc: Seq<Seq<char>>,
    rng: XorShiftRng,
)
    requires
        spec_has_fixed_layout(r.annotations),
        !regex_set_has_match(exc, r.name),
        regex_set_has_match(inc, r.name),
        r.fields matches FieldsV::Named(ms) && ms.len() >= 1,
    ensures
        spec_visit_record(r, exc, inc, rng).0.annotations == r.annotations.push(
            spec_fixed_layout_annotation(),
        ),
        spec_has_fixed_layout(spec_visit_record(r, exc, inc, rng).0.annotations),
{
    let annos2 = spec_visit_record(r, exc, inc, rng).0.annotations;
    let i = choose|i: int|
        0 <= i < r.annotations.len() && spec_is_fixed_layout(r.annotations[i]);
    assert(annos2[i] == r.annotations[i]);
}

/// Inclusion override for a tagged union, stated the same way.
pub proof fn lemma_inclusion_override_union(
    u: UnionV,
    exc: Seq<Seq<char>>,
    inc: Seq<Seq<char>>,
    rng: XorShiftRng,
)
    requires
        spec_has_fixed_layout(u.annotations),
        !regex_set_has_match(exc, u.name),
        regex_set_has_match(inc, u.name),
        u.variants.len() >= 1,
    ensures
        spec_visit_union(u, exc, inc, rng).0.annotations == u.annotations.push(
            spec_fixed_layout_annotation(),
        ),
        spec_has_fixed_layout(spec_visit_union(u, exc, inc, rng).0.annotations),
{
    let annos2 = spec_visit_union(u, exc, inc, rng).0.annotations;
    let i = choose|i: int|
        0 <= i < u.annotations.len() && spec_is_fixed_layout(u.annotations[i]);
    assert(annos2[i] == u.annotations[i]);
}

/// Tag only on change: a declaration without members - a record with no
/// named fields, or a tagged union with no variants - is never annotated;
/// the visit leaves it exactly as it was.
pub proof fn lemma_tag_only_on_change(
    it: ItemV,
    exc: Seq<Seq<char>>,
    inc: Seq<Seq<char>>,
    rng: XorShiftRng,
)
    requires
        it matches ItemV::Record(r) ==> (r.fields matches FieldsV::Named(ms) ==> ms.len() == 0),
        it matches ItemV::Union(u) ==> u.variants.len() == 0,
    ensures
        spec_visit_item(it, exc, inc, rng) == (it, rng),
{
    match it {
        ItemV::Record(r) => {
            assert(spec_visit_record(r, exc, inc, rng) == (r, rng));
        },
        ItemV::Union(u) => {
            assert(spec_visit_union(u, exc, inc, rng) == (u, rng));
        },
        ItemV::Opaque => {
        },
    }
}

} // verus!
