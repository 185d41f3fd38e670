//! The randomization visitor: the traversal that applies the eligibility
//! filter, the permutation engine and the layout tagger to every record and
//! tagged-union declaration of a source file, in declaration order.
//!
//! The whole pass is a deterministic function of the tree, the two pattern
//! sets and the generator state; the spec functions here state that function,
//! and every visiting method is proved to compute it.

use crate::ast::{
    fixed_layout_annotation, has_fixed_layout_annotation, spec_fixed_layout_annotation,
    spec_has_fixed_layout, view_annotations, view_items, view_members, view_variants, Fields,
    FieldsV, FileV, Item, ItemV, Member, RecordDecl, RecordV, SourceFile, UnionDecl, UnionV,
    Variant, VariantV,
};
use crate::matcher::{is_eligible, spec_eligible};
use crate::options::{ConfigError, Options};
use crate::rng::{
    lemma_shuffle_map, spec_shuffle, XorShiftRng,
};
use vstd::prelude::*;

verus! {

// ---------------------------------------------------------------------------
// The transformation, as a function.
// ---------------------------------------------------------------------------

/// What one visit does to a record declaration: if the type is eligible and
/// has at least one named field, its fields are shuffled and the fixed-layout
/// annotation is appended; otherwise it is left exactly as it was.
pub open spec fn spec_visit_record(
    r: RecordV,
    exc: Seq<Seq<char>>,
    inc: Seq<Seq<char>>,
    rng: XorShiftRng,
) -> (RecordV, XorShiftRng) {
    let eligible = spec_eligible(exc, inc, r.name, spec_has_fixed_layout(r.annotations));
    match r.fields {
        FieldsV::Named(ms) => if eligible && ms.len() >= 1 {
            let (sh, rng2) = spec_shuffle(ms, rng);
            (
                RecordV {
                    name: r.name,
                    annotations: r.annotations.push(spec_fixed_layout_annotation()),
                    fields: FieldsV::Named(sh),
                },
                rng2,
            )
        } else {
            (r, rng)
        },
        _ => (r, rng),
    }
}

/// What the variant-field pass does to one variant: a variant with named
/// fields has them shuffled; any other shape is left as it is.
pub open spec fn spec_shuffle_variant_fields(v: VariantV, rng: XorShiftRng) -> (
    VariantV,
    XorShiftRng,
) {
    match v.fields {
        FieldsV::Named(ms) => {
            let (sh, rng2) = spec_shuffle(ms, rng);
            (VariantV { name: v.name, fields: FieldsV::Named(sh), annotations: v.annotations }, rng2)
        },
        _ => (v, rng),
    }
}

/// The variant-field pass from position `k` on: each variant, in declaration
/// order, has its named fields shuffled before the variant sequence itself is
/// shuffled.
pub open spec fn spec_shuffle_fields_from(vs: Seq<VariantV>, rng: XorShiftRng, k: int) -> (
    Seq<VariantV>,
    XorShiftRng,
)
    decreases vs.len() - k,
{
    if k < 0 || k >= vs.len() {
        (vs, rng)
    } else {
        let (v2, rng2) = spec_shuffle_variant_fields(vs[k], rng);
        spec_shuffle_fields_from(vs.update(k, v2), rng2, k + 1)
    }
}

/// What one visit does to a tagged-union declaration: if the type is
/// eligible, every variant's named fields are shuffled in declaration order,
/// then the variant sequence is shuffled, and the fixed-layout annotation is
/// appended when the type has at least one variant; an ineligible type is
/// left exactly as it was.
pub open spec fn spec_visit_union(
    u: UnionV,
    exc: Seq<Seq<char>>,
    inc: Seq<Seq<char>>,
    rng: XorShiftRng,
) -> (UnionV, XorShiftRng) {
    let eligible = spec_eligible(exc, inc, u.name, spec_has_fixed_layout(u.annotations));
    if eligible {
        let (vs1, rng1) = spec_shuffle_fields_from(u.variants, rng, 0);
        let (vs2, rng2) = spec_shuffle(vs1, rng1);
        let annotations = if u.variants.len() >= 1 {
            u.annotations.push(spec_fixed_layout_annotation())
        } else {
            u.annotations
        };
        (UnionV { name: u.name, annotations, variants: vs2 }, rng2)
    } else {
        (u, rng)
    }
}

/// What one visit does to any item: records and tagged unions are visited,
/// every other shape passes through untouched and draws nothing.
pub open spec fn spec_visit_item(
    it: ItemV,
    exc: Seq<Seq<char>>,
    inc: Seq<Seq<char>>,
    rng: XorShiftRng,
) -> (ItemV, XorShiftRng) {
    match it {
        ItemV::Record(r) => {
            let (r2, rng2) = spec_visit_record(r, exc, inc, rng);
            (ItemV::Record(r2), rng2)
        },
        ItemV::Union(u) => {
            let (u2, rng2) = spec_visit_union(u, exc, inc, rng);
            (ItemV::Union(u2), rng2)
        },
        ItemV::Opaque => (it, rng),
    }
}

/// The traversal from item `k` on, in declaration order.
pub open spec fn spec_transform_items(
    items: Seq<ItemV>,
    exc: Seq<Seq<char>>,
    inc: Seq<Seq<char>>,
    rng: XorShiftRng,
    k: int,
) -> (Seq<ItemV>, XorShiftRng)
    decreases items.len() - k,
{
    if k < 0 || k >= items.len() {
        (items, rng)
    } else {
        let (it2, rng2) = spec_visit_item(items[k], exc, inc, rng);
        spec_transform_items(items.update(k, it2), exc, inc, rng2, k + 1)
    }
}

/// The whole transformation: every item visited once, in declaration order,
/// threading one generator state through the traversal.
pub open spec fn spec_transform_file(
    f: FileV,
    exc: Seq<Seq<char>>,
    inc: Seq<Seq<char>>,
    rng: XorShiftRng,
) -> (FileV, XorShiftRng) {
    let (items, rng2) = spec_transform_items(f.items, exc, inc, rng, 0);
    (FileV { items }, rng2)
}

// ---------------------------------------------------------------------------
// Small view lemmas.
// ---------------------------------------------------------------------------

proof fn lemma_remove_insert<T>(s: Seq<T>, k: int, x: T)
    requires
        0 <= k < s.len(),
    ensures
        s.remove(k).insert(k, x) == s.update(k, x),
{
    assert(s.remove(k).insert(k, x) =~= s.update(k, x));
}

// ---------------------------------------------------------------------------
// The visitor.
// ---------------------------------------------------------------------------

/// The randomization visitor: owns the session state for the duration of one
/// traversal.
pub struct TypeRandomizationVisitor {
    options: Options,
}

impl TypeRandomizationVisitor {
    /// The patterns of the session's exclusion set.
    pub closed spec fn exclude_patterns(self) -> Seq<Seq<char>> {
        self.options.exclude_patterns()
    }

    /// The patterns of the session's inclusion set.
    pub closed spec fn inclusion_patterns(self) -> Seq<Seq<char>> {
        self.options.inclusion_patterns()
    }

    /// The generator state the next draw will use.
    pub closed spec fn rng_state(self) -> XorShiftRng {
        self.options.rng
    }

    /// Builds a visitor that owns the given session state.
    pub fn new(options: Options) -> (r: Self)
        ensures
            r.exclude_patterns() == options.exclude_patterns(),
            r.inclusion_patterns() == options.inclusion_patterns(),
            r.rng_state() == options.rng,
    {
        Self { options }
    }

    /// Visits one record declaration: decides eligibility from its name and
    /// its annotations, shuffles its named fields when eligible, and tags it
    /// with the fixed-layout annotation exactly when it was altered.
    pub fn visit_item_struct_mut(&mut self, item: &mut RecordDecl)
        ensures
            final(self).exclude_patterns() == old(self).exclude_patterns(),
            final(self).inclusion_patterns() == old(self).inclusion_patterns(),
            final(item)@ == spec_visit_record(
                old(item)@,
                old(self).exclude_patterns(),
                old(self).inclusion_patterns(),
                old(self).rng_state(),
            ).0,
            final(self).rng_state() == spec_visit_record(
                old(item)@,
                old(self).exclude_patterns(),
                old(self).inclusion_patterns(),
                old(self).rng_state(),
            ).1,
    {
        let ghost rng0 = old(self).rng_state();
        let fixed = has_fixed_layout_annotation(&item.annotations);
        let eligible = is_eligible(
            &self.options.exclude,
            &self.options.inclusion,
            item.name.as_str(),
            fixed,
        );
        let mut altered = false;
        if eligible {
            match &mut item.fields {
                Fields::Named(members) => {
                    if members.len() >= 1 {
                        let ghost ms0 = members@;
                        self.options.rng.shuffle(members);
                        proof {
                            let f = |m: Member| m@;
                            lemma_shuffle_map(ms0, f, rng0);
                            assert(ms0.map_values(f) =~= view_members(ms0));
                            assert(view_members(members@) =~= spec_shuffle(
                                view_members(ms0),
                                rng0,
                            ).0);
                        }
                        altered = true;
                    }
                },
                _ => {},
            }
        }
        if altered {
            let tag = fixed_layout_annotation();
            item.annotations.push(tag);
            proof {
                assert(view_annotations(item.annotations@) =~= view_annotations(
                    old(item).annotations@,
                ).push(spec_fixed_layout_annotation()));
            }
        }
    }
}


impl TypeRandomizationVisitor {
    /// Shuffles the named fields of one variant, leaving any other variant
    /// shape untouched and drawing nothing for it.
    fn shuffle_variant_fields(&mut self, v: Variant) -> (r: Variant)
        ensures
            final(self).exclude_patterns() == old(self).exclude_patterns(),
            final(self).inclusion_patterns() == old(self).inclusion_patterns(),
            r@ == spec_shuffle_variant_fields(v@, old(self).rng_state()).0,
            final(self).rng_state() == spec_shuffle_variant_fields(v@, old(self).rng_state()).1,
    {
        let ghost rng0 = old(self).rng_state();
        match v.fields {
            Fields::Named(mut members) => {
                let ghost ms0 = members@;
                proof {
                    assert(vstd::std_specs::vec::spec_vec_len(&members) == ms0.len()) by {
                        broadcast use vstd::std_specs::vec::axiom_spec_len;

                    }
                }
                self.options.rng.shuffle(&mut members);
                proof {
                    let f = |m: Member| m@;
                    lemma_shuffle_map(ms0, f, rng0);
                    assert(ms0.map_values(f) =~= view_members(ms0));
                    assert(view_members(members@) =~= spec_shuffle(view_members(ms0), rng0).0);
                }
                Variant { name: v.name, fields: Fields::Named(members), annotations: v.annotations }
            },
            other => Variant { name: v.name, fields: other, annotations: v.annotations },
        }
    }

    /// Visits one tagged-union declaration: decides eligibility from its name
    /// and its annotations; when eligible, shuffles each variant's named
    /// fields in declaration order, then the variant sequence itself, and
    /// tags the type with the fixed-layout annotation exactly when it had at
    /// least one variant.
    pub fn visit_item_enum_mut(&mut self, item: &mut UnionDecl)
        ensures
            final(self).exclude_patterns() == old(self).exclude_patterns(),
            final(self).inclusion_patterns() == old(self).inclusion_patterns(),
            final(item)@ == spec_visit_union(
                old(item)@,
                old(self).exclude_patterns(),
                old(self).inclusion_patterns(),
                old(self).rng_state(),
            ).0,
            final(self).rng_state() == spec_visit_union(
                old(item)@,
                old(self).exclude_patterns(),
                old(self).inclusion_patterns(),
                old(self).rng_state(),
            ).1,
    {
        let ghost exc = old(self).exclude_patterns();
        let ghost inc = old(self).inclusion_patterns();
        let ghost rng0 = old(self).rng_state();
        let ghost vs0 = view_variants(old(item).variants@);
        let fixed = has_fixed_layout_annotation(&item.annotations);
        let eligible = is_eligible(
            &self.options.exclude,
            &self.options.inclusion,
            item.name.as_str(),
            fixed,
        );
        let mut altered = false;
        if eligible {
            let n = item.variants.len();
            let mut k: usize = 0;
            while k < n
                invariant
                    0 <= k <= n,
                    n == item.variants@.len(),
                    item.name@ == old(item).name@,
                    item.annotations@ == old(item).annotations@,
                    self.exclude_patterns() == exc,
                    self.inclusion_patterns() == inc,
                    spec_shuffle_fields_from(
                        view_variants(item.variants@),
                        self.rng_state(),
                        k as int,
                    ) == spec_shuffle_fields_from(vs0, rng0, 0),
                decreases n - k,
            {
                let ghost vs_in = view_variants(item.variants@);
                let ghost rng_in = self.rng_state();
                let ghost ves_in = item.variants@;
                let v = item.variants.remove(k);
                let v2 = self.shuffle_variant_fields(v);
                item.variants.insert(k, v2);
                proof {
                    lemma_remove_insert(ves_in, k as int, v2);
                    assert(view_variants(ves_in.update(k as int, v2)) =~= vs_in.update(
                        k as int,
                        v2@,
                    ));
                    assert(v@ == vs_in[k as int]);
                }
                k = k + 1;
            }
            let ghost mid_vs = view_variants(item.variants@);
            let ghost mid_rng = self.rng_state();
            let ghost ves_mid = item.variants@;
            self.options.rng.shuffle(&mut item.variants);
            proof {
                let f = |v: Variant| v@;
                lemma_shuffle_map(ves_mid, f, mid_rng);
                assert(ves_mid.map_values(f) =~= view_variants(ves_mid));
                assert(view_variants(item.variants@) =~= spec_shuffle(mid_vs, mid_rng).0);
            }
            if n >= 1 {
                altered = true;
            }
        }
        if altered {
            let tag = fixed_layout_annotation();
            item.annotations.push(tag);
            proof {
                assert(view_annotations(item.annotations@) =~= view_annotations(
                    old(item).annotations@,
                ).push(spec_fixed_layout_annotation()));
            }
        }
    }

    /// Visits one item: records and tagged unions are visited, every other
    /// shape passes through untouched.
    fn visit_item_mut(&mut self, it: Item) -> (r: Item)
        ensures
            final(self).exclude_patterns() == old(self).exclude_patterns(),
            final(self).inclusion_patterns() == old(self).inclusion_patterns(),
            r@ == spec_visit_item(
                it@,
                old(self).exclude_patterns(),
                old(self).inclusion_patterns(),
                old(self).rng_state(),
            ).0,
            final(self).rng_state() == spec_visit_item(
                it@,
                old(self).exclude_patterns(),
                old(self).inclusion_patterns(),
                old(self).rng_state(),
            ).1,
    {
        match it {
            Item::Record(mut rd) => {
                self.visit_item_struct_mut(&mut rd);
                Item::Record(rd)
            },
            Item::Union(mut ud) => {
                self.visit_item_enum_mut(&mut ud);
                Item::Union(ud)
            },
            Item::Opaque => Item::Opaque,
        }
    }

    /// Visits every item of the file once, in declaration order, threading
    /// the one generator state through the traversal.
    pub fn visit_file_mut(&mut self, file: &mut SourceFile)
        ensures
            final(self).exclude_patterns() == old(self).exclude_patterns(),
            final(self).inclusion_patterns() == old(self).inclusion_patterns(),
            final(file)@ == spec_transform_file(
                old(file)@,
                old(self).exclude_patterns(),
                old(self).inclusion_patterns(),
                old(self).rng_state(),
            ).0,
            final(self).rng_state() == spec_transform_file(
                old(file)@,
                old(self).exclude_patterns(),
                old(self).inclusion_patterns(),
                old(self).rng_state(),
            ).1,
    {
        let ghost exc = old(self).exclude_patterns();
        let ghost inc = old(self).inclusion_patterns();
        let ghost rng0 = old(self).rng_state();
        let ghost its0 = view_items(old(file).items@);
        let n = file.items.len();
        let mut k: usize = 0;
        while k < n
            invariant
                0 <= k <= n,
                n == file.items@.len(),
                self.exclude_patterns() == exc,
                self.inclusion_patterns() == inc,
                spec_transform_items(view_items(file.items@), exc, inc, self.rng_state(), k as int)
                    == spec_transform_items(its0, exc, inc, rng0, 0),
            decreases n - k,
        {
            let ghost its_in = view_items(file.items@);
            let ghost rng_in = self.rng_state();
            let ghost ies_in = file.items@;
            let it = file.items.remove(k);
            let it2 = self.visit_item_mut(it);
            file.items.insert(k, it2);
            proof {
                lemma_remove_insert(ies_in, k as int, it2);
                assert(view_items(ies_in.update(k as int, it2)) =~= its_in.update(k as int, it2@));
                assert(it@ == its_in[k as int]);
            }
            k = k + 1;
        }
    }
}

/// Runs the randomization visitor over the whole file.  On a well-formed tree
/// this never fails: every configuration error is already raised when the
/// session is built.
pub fn alter_file(file: &mut SourceFile, options: Options) -> (r: Result<(), ConfigError>)
    ensures
        r is Ok,
        final(file)@ == spec_transform_file(
            old(file)@,
            options.exclude_patterns(),
            options.inclusion_patterns(),
            options.rng,
        ).0,
{
    let mut visitor = TypeRandomizationVisitor::new(options);
    visitor.visit_file_mut(file);
    Ok(())
}

/// The whole pass behind the apply-transformation toggle: with `passthrough`
/// set the tree is handed back untouched, so printing it yields the parsed
/// input again; otherwise the file is transformed as `alter_file` does.
pub fn transform(file: &mut SourceFile, passthrough: bool, options: Options) -> (r: Result<
    (),
    ConfigError,
>)
    ensures
        r is Ok,
        passthrough ==> final(file)@ == old(file)@,
        !passthrough ==> final(file)@ == spec_transform_file(
            old(file)@,
            options.exclude_patterns(),
            options.inclusion_patterns(),
            options.rng,
        ).0,
{
    if passthrough {
        Ok(())
    } else {
        alter_file(file, options)
    }
}

} // verus!
