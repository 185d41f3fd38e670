use salmagundi::ast::{
    Annotation, Fields, Item, Member, RecordDecl, SourceFile, UnionDecl, Variant,
};
use salmagundi::options::Options;
use salmagundi::visitor::{alter_file, transform, TypeRandomizationVisitor};

fn member(name: &str, ty: &str) -> Member {
    Member { name: name.to_string(), ty: ty.to_string(), annotations: Vec::new() }
}

fn annotation(path: &str, body: &str) -> Annotation {
    Annotation { path: path.to_string(), body: body.to_string() }
}

fn point_struct() -> RecordDecl {
    RecordDecl {
        name: "Point".to_string(),
        annotations: Vec::new(),
        fields: Fields::Named(vec![member("x", "i32"), member("y", "i32"), member("z", "i32")]),
    }
}

fn point_file() -> SourceFile {
    SourceFile { items: vec![Item::Record(point_struct())] }
}

fn options(exclude: Vec<&str>, inclusion: Vec<&str>, seed: u128) -> Options {
    Options::new(
        exclude.into_iter().map(|s| s.to_string()).collect(),
        inclusion.into_iter().map(|s| s.to_string()).collect(),
        seed,
    )
    .expect("patterns must compile")
}

fn field_names(fields: &Fields) -> Vec<String> {
    match fields {
        Fields::Named(ms) | Fields::Positional(ms) => ms.iter().map(|m| m.name.clone()).collect(),
        Fields::Unit => Vec::new(),
    }
}

fn sorted(mut v: Vec<String>) -> Vec<String> {
    v.sort();
    v
}

#[test]
fn seed_42_permutes_point_and_tags_it() {
    let mut file = point_file();
    alter_file(&mut file, options(vec![], vec![], 42)).unwrap();
    let record = match &file.items[0] {
        Item::Record(r) => r,
        _ => panic!("the record must still be a record"),
    };
    assert_eq!(record.name, "Point");
    let names = field_names(&record.fields);
    assert_eq!(sorted(names), vec!["x".to_string(), "y".to_string(), "z".to_string()]);
    match &record.fields {
        Fields::Named(ms) => {
            for m in ms {
                assert_eq!(m.ty, "i32");
            }
        },
        _ => panic!("the fields must stay named"),
    }
    assert_eq!(record.annotations, vec![annotation("repr", "(C)")]);
}

#[test]
fn seed_42_is_reproducible_byte_for_byte() {
    let mut first = point_file();
    alter_file(&mut first, options(vec![], vec![], 42)).unwrap();
    let mut second = point_file();
    alter_file(&mut second, options(vec![], vec![], 42)).unwrap();
    assert_eq!(first, second);
}

#[test]
fn excluded_point_is_left_untouched() {
    let mut file = point_file();
    let original = file.clone();
    alter_file(&mut file, options(vec!["^Point$"], vec![], 42)).unwrap();
    assert_eq!(file, original);
}

#[test]
fn exclusion_wins_over_inclusion() {
    let mut file = point_file();
    let original = file.clone();
    alter_file(&mut file, options(vec!["^Point$"], vec!["^Point$"], 42)).unwrap();
    assert_eq!(file, original);
}

fn tagged_union() -> UnionDecl {
    UnionDecl {
        name: "Shape".to_string(),
        annotations: Vec::new(),
        variants: vec![
            Variant {
                name: "A".to_string(),
                fields: Fields::Named(vec![member("v", "u8"), member("w", "u16")]),
                annotations: Vec::new(),
            },
            Variant {
                name: "B".to_string(),
                fields: Fields::Positional(vec![member("", "str"), member("", "bool")]),
                annotations: Vec::new(),
            },
            Variant { name: "C".to_string(), fields: Fields::Unit, annotations: Vec::new() },
        ],
    }
}

#[test]
fn union_variants_and_nested_fields_are_permuted_and_tagged() {
    let mut file = SourceFile { items: vec![Item::Union(tagged_union())] };
    alter_file(&mut file, options(vec![], vec![], 42)).unwrap();
    let u = match &file.items[0] {
        Item::Union(u) => u,
        _ => panic!("the union must still be a union"),
    };
    assert_eq!(u.name, "Shape");
    let variant_names: Vec<String> = u.variants.iter().map(|v| v.name.clone()).collect();
    assert_eq!(
        sorted(variant_names),
        vec!["A".to_string(), "B".to_string(), "C".to_string()]
    );
    for v in &u.variants {
        match v.name.as_str() {
            "A" => {
                let names = field_names(&v.fields);
                assert_eq!(sorted(names), vec!["v".to_string(), "w".to_string()]);
                assert!(matches!(v.fields, Fields::Named(_)));
            },
            "B" => {
                let slots = match &v.fields {
                    Fields::Positional(ms) => ms,
                    _ => panic!("B must keep positional slots"),
                };
                let mut tys: Vec<String> = slots.iter().map(|m| m.ty.clone()).collect();
                tys.sort();
                assert_eq!(tys, vec!["bool".to_string(), "str".to_string()]);
            },
            "C" => assert!(matches!(v.fields, Fields::Unit)),
            other => panic!("unexpected variant {}", other),
        }
    }
    // C has no payload, but the union had at least one variant, so it is
    // tagged.
    assert_eq!(u.annotations, vec![annotation("repr", "(C)")]);
}

#[test]
fn union_transformation_is_reproducible() {
    let mut first = SourceFile { items: vec![Item::Union(tagged_union())] };
    alter_file(&mut first, options(vec![], vec![], 7)).unwrap();
    let mut second = SourceFile { items: vec![Item::Union(tagged_union())] };
    alter_file(&mut second, options(vec![], vec![], 7)).unwrap();
    assert_eq!(first, second);
}

fn pinned_struct() -> RecordDecl {
    RecordDecl {
        name: "Pinned".to_string(),
        annotations: vec![annotation("repr", "(packed)")],
        fields: Fields::Named(vec![member("a", "u8"), member("b", "u16"), member("c", "u32")]),
    }
}

#[test]
fn fixed_layout_type_is_implicitly_excluded() {
    let mut file = SourceFile { items: vec![Item::Record(pinned_struct())] };
    let original = file.clone();
    alter_file(&mut file, options(vec![], vec![], 42)).unwrap();
    assert_eq!(file, original);
}

#[test]
fn inclusion_overrides_the_implicit_exclusion_and_keeps_both_tags() {
    let mut file = SourceFile { items: vec![Item::Record(pinned_struct())] };
    alter_file(&mut file, options(vec![], vec!["^Pinned$"], 42)).unwrap();
    let record = match &file.items[0] {
        Item::Record(r) => r,
        _ => panic!("the record must still be a record"),
    };
    assert_eq!(
        record.annotations,
        vec![annotation("repr", "(packed)"), annotation("repr", "(C)")]
    );
    let names = field_names(&record.fields);
    assert_eq!(sorted(names), vec!["a".to_string(), "b".to_string(), "c".to_string()]);
}

#[test]
fn empty_struct_is_never_tagged() {
    let mut file = SourceFile {
        items: vec![Item::Record(RecordDecl {
            name: "Empty".to_string(),
            annotations: Vec::new(),
            fields: Fields::Named(Vec::new()),
        })],
    };
    let original = file.clone();
    alter_file(&mut file, options(vec![], vec![], 42)).unwrap();
    assert_eq!(file, original);
}

#[test]
fn empty_union_is_never_tagged() {
    let mut file = SourceFile {
        items: vec![Item::Union(UnionDecl {
            name: "Never".to_string(),
            annotations: Vec::new(),
            variants: Vec::new(),
        })],
    };
    let original = file.clone();
    alter_file(&mut file, options(vec![], vec![], 42)).unwrap();
    assert_eq!(file, original);
}

#[test]
fn single_field_struct_keeps_its_order_but_is_tagged() {
    let mut file = SourceFile {
        items: vec![Item::Record(RecordDecl {
            name: "One".to_string(),
            annotations: Vec::new(),
            fields: Fields::Named(vec![member("only", "u8")]),
        })],
    };
    alter_file(&mut file, options(vec![], vec![], 42)).unwrap();
    let record = match &file.items[0] {
        Item::Record(r) => r,
        _ => panic!("the record must still be a record"),
    };
    assert_eq!(field_names(&record.fields), vec!["only".to_string()]);
    assert_eq!(record.annotations, vec![annotation("repr", "(C)")]);
}

#[test]
fn unit_and_tuple_structs_pass_through() {
    let mut file = SourceFile {
        items: vec![
            Item::Record(RecordDecl {
                name: "Marker".to_string(),
                annotations: Vec::new(),
                fields: Fields::Unit,
            }),
            Item::Record(RecordDecl {
                name: "Pair".to_string(),
                annotations: Vec::new(),
                fields: Fields::Positional(vec![member("", "u8"), member("", "u16")]),
            }),
        ],
    };
    let original = file.clone();
    alter_file(&mut file, options(vec![], vec![], 42)).unwrap();
    assert_eq!(file, original);
}

#[test]
fn opaque_items_pass_through_and_do_not_disturb_the_draws() {
    let mut with_opaque = SourceFile {
        items: vec![Item::Opaque, Item::Record(point_struct()), Item::Opaque],
    };
    alter_file(&mut with_opaque, options(vec![], vec![], 42)).unwrap();
    let mut without = point_file();
    alter_file(&mut without, options(vec![], vec![], 42)).unwrap();
    assert_eq!(with_opaque.items[0], Item::Opaque);
    assert_eq!(with_opaque.items[2], Item::Opaque);
    assert_eq!(with_opaque.items[1], without.items[0]);
}

#[test]
fn passthrough_mode_changes_nothing() {
    let mut file = point_file();
    let original = file.clone();
    transform(&mut file, true, options(vec![], vec![], 42)).unwrap();
    assert_eq!(file, original);
}

#[test]
fn transform_applies_when_not_in_passthrough() {
    let mut toggled = point_file();
    transform(&mut toggled, false, options(vec![], vec![], 42)).unwrap();
    let mut altered = point_file();
    alter_file(&mut altered, options(vec![], vec![], 42)).unwrap();
    assert_eq!(toggled, altered);
}

#[test]
fn visitor_methods_can_be_driven_directly() {
    let mut visitor = TypeRandomizationVisitor::new(options(vec![], vec![], 42));
    let mut record = point_struct();
    visitor.visit_item_struct_mut(&mut record);
    assert_eq!(record.annotations, vec![annotation("repr", "(C)")]);
    let mut file = point_file();
    let mut other = TypeRandomizationVisitor::new(options(vec![], vec![], 42));
    other.visit_file_mut(&mut file);
    match &file.items[0] {
        Item::Record(r) => assert_eq!(r, &record),
        _ => panic!("the record must still be a record"),
    }
}
