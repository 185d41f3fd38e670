//! The crate's own model of a syntax tree.
//!
//! A source file is an ordered list of items.  The transformer reads and
//! rewrites only record (struct) and tagged-union (enum) type declarations;
//! every other kind of item is opaque to it and passes through unchanged.
//! Names, type references and annotations are carried as plain text, so the
//! whole model is plain data that contracts can speak about exactly.

use vstd::prelude::*;

verus! {

// ---------------------------------------------------------------------------
// Mathematical values: what each model type denotes in contracts.
// ---------------------------------------------------------------------------

/// A declaration-level annotation: a path and the raw text of whatever
/// arguments follow it.  The only annotation the transformer interprets is
/// the fixed-layout marker; every other one is carried through unexamined.
pub ghost struct AnnotationV {
    pub path: Seq<char>,
    pub body: Seq<char>,
}

/// A member of a record or of a variant: a name (empty for a positional
/// slot), an opaque type reference, and its annotations.
pub ghost struct MemberV {
    pub name: Seq<char>,
    pub ty: Seq<char>,
    pub annotations: Seq<AnnotationV>,
}

/// The member shape of a record or variant: named fields, positional slots,
/// or no members at all.
pub ghost enum FieldsV {
    Named(Seq<MemberV>),
    Positional(Seq<MemberV>),
    Unit,
}

/// One variant of a tagged union.
pub ghost struct VariantV {
    pub name: Seq<char>,
    pub fields: FieldsV,
    pub annotations: Seq<AnnotationV>,
}

/// A record declaration: a named aggregate with ordered members.
pub ghost struct RecordV {
    pub name: Seq<char>,
    pub annotations: Seq<AnnotationV>,
    pub fields: FieldsV,
}

/// A tagged-union declaration: a named type with ordered variants.
pub ghost struct UnionV {
    pub name: Seq<char>,
    pub annotations: Seq<AnnotationV>,
    pub variants: Seq<VariantV>,
}

/// One item of a source file; shapes the transformer does not model are
/// opaque.
pub ghost enum ItemV {
    Record(RecordV),
    Union(UnionV),
    Opaque,
}

/// A whole source file: its items, in declaration order.
pub ghost struct FileV {
    pub items: Seq<ItemV>,
}

// ---------------------------------------------------------------------------
// Executable model types and their views.
// ---------------------------------------------------------------------------

/// A declaration-level annotation.
#[derive(Clone, Debug, PartialEq, Eq)]
pub struct Annotation {
    pub path: String,
    pub body: String,
}

impl View for Annotation {
    type V = AnnotationV;

    open spec fn view(&self) -> AnnotationV {
        AnnotationV { path: self.path@, body: self.body@ }
    }
}

/// The views of a list of annotations.
pub open spec fn view_annotations(s: Seq<Annotation>) -> Seq<AnnotationV> {
    s.map_values(|a: Annotation| a@)
}

/// A member of a record or of a variant.
#[derive(Clone, Debug, PartialEq, Eq)]
pub struct Member {
    pub name: String,
    pub ty: String,
    pub annotations: Vec<Annotation>,
}

impl View for Member {
    type V = MemberV;

    open spec fn view(&self) -> MemberV {
        MemberV { name: self.name@, ty: self.ty@, annotations: view_annotations(self.annotations@) }
    }
}

/// The views of a list of members.
pub open spec fn view_members(s: Seq<Member>) -> Seq<MemberV> {
    s.map_values(|m: Member| m@)
}

/// The member shape of a record or variant.
#[derive(Clone, Debug, PartialEq, Eq)]
pub enum Fields {
    Named(Vec<Member>),
    Positional(Vec<Member>),
    Unit,
}

impl View for Fields {
    type V = FieldsV;

    open spec fn view(&self) -> FieldsV {
        match *self {
            Fields::Named(ref ms) => FieldsV::Named(view_members(ms@)),
            Fields::Positional(ref ms) => FieldsV::Positional(view_members(ms@)),
            Fields::Unit => FieldsV::Unit,
        }
    }
}

/// One variant of a tagged union.
#[derive(Clone, Debug, PartialEq, Eq)]
pub struct Variant {
    pub name: String,
    pub fields: Fields,
    pub annotations: Vec<Annotation>,
}

impl View for Variant {
    type V = VariantV;

    open spec fn view(&self) -> VariantV {
        VariantV {
            name: self.name@,
            fields: self.fields@,
            annotations: view_annotations(self.annotations@),
        }
    }
}

/// The views of a list of variants.
pub open spec fn view_variants(s: Seq<Variant>) -> Seq<VariantV> {
    s.map_values(|v: Variant| v@)
}

/// A record declaration.
#[derive(Clone, Debug, PartialEq, Eq)]
pub struct RecordDecl {
    pub name: String,
    pub annotations: Vec<Annotation>,
    pub fields: Fields,
}

impl View for RecordDecl {
    type V = RecordV;

    open spec fn view(&self) -> RecordV {
        RecordV {
            name: self.name@,
            annotations: view_annotations(self.annotations@),
            fields: self.fields@,
        }
    }
}

/// A tagged-union declaration.
#[derive(Clone, Debug, PartialEq, Eq)]
pub struct UnionDecl {
    pub name: String,
    pub annotations: Vec<Annotation>,
    pub variants: Vec<Variant>,
}

impl View for UnionDecl {
    type V = UnionV;

    open spec fn view(&self) -> UnionV {
        UnionV {
            name: self.name@,
            annotations: view_annotations(self.annotations@),
            variants: view_variants(self.variants@),
        }
    }
}

/// One item of a source file.
#[derive(Clone, Debug, PartialEq, Eq)]
pub enum Item {
    Record(RecordDecl),
    Union(UnionDecl),
    Opaque,
}

impl View for Item {
    type V = ItemV;

    open spec fn view(&self) -> ItemV {
        match *self {
            Item::Record(ref r) => ItemV::Record(r@),
            Item::Union(ref u) => ItemV::Union(u@),
            Item::Opaque => ItemV::Opaque,
        }
    }
}

/// The views of a list of items.
pub open spec fn view_items(s: Seq<Item>) -> Seq<ItemV> {
    s.map_values(|it: Item| it@)
}

/// A whole source file.
#[derive(Clone, Debug, PartialEq, Eq)]
pub struct SourceFile {
    pub items: Vec<Item>,
}

impl View for SourceFile {
    type V = FileV;

    open spec fn view(&self) -> FileV {
        FileV { items: view_items(self.items@) }
    }
}

// ---------------------------------------------------------------------------
// The fixed-layout marker.
// ---------------------------------------------------------------------------

/// Whether an annotation is a layout directive: any annotation whose path is
/// `repr`, whatever its arguments.
pub open spec fn spec_is_fixed_layout(a: AnnotationV) -> bool {
    a.path == "repr"@
}

/// Whether an annotation list carries a layout directive.
pub open spec fn spec_has_fixed_layout(annos: Seq<AnnotationV>) -> bool {
    exists|i: int| 0 <= i < annos.len() && spec_is_fixed_layout(annos[i])
}

/// The annotation the tagger appends to a reordered declaration: the layout
/// directive that pins the declared member order as the in-memory order.
pub open spec fn spec_fixed_layout_annotation() -> AnnotationV {
    AnnotationV { path: "repr"@, body: "(C)"@ }
}

/// Whether an annotation is a layout directive.
pub fn annotation_is_fixed_layout(a: &Annotation) -> (r: bool)
    ensures
        r == spec_is_fixed_layout(a@),
{
    let marker: String = "repr".to_owned();
    a.path == marker
}

/// Whether an annotation list carries a layout directive.
pub fn has_fixed_layout_annotation(annos: &Vec<Annotation>) -> (r: bool)
    ensures
        r == spec_has_fixed_layout(view_annotations(annos@)),
{
    let ghost vs = view_annotations(annos@);
    let mut k: usize = 0;
    while k < annos.len()
        invariant
            0 <= k <= annos@.len(),
            vs == view_annotations(annos@),
            vs.len() == annos@.len(),
            forall|i: int| 0 <= i < k ==> !spec_is_fixed_layout(vs[i]),
        decreases annos@.len() - k,
    {
        if annotation_is_fixed_layout(&annos[k]) {
            proof {
                assert(spec_is_fixed_layout(vs[k as int]));
            }
            return true;
        }
        k = k + 1;
    }
    false
}

/// Builds the fixed-layout annotation.
pub fn fixed_layout_annotation() -> (r: Annotation)
    ensures
        r@ == spec_fixed_layout_annotation(),
{
    Annotation { path: "repr".to_owned(), body: "(C)".to_owned() }
}

} // verus!
