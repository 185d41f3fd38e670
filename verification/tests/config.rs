use salmagundi::matcher::is_eligible;
use salmagundi::options::{ConfigError, Options};
use salmagundi::rng::XorShiftRng;

#[test]
fn options_compile_with_no_patterns() {
    let o = Options::new(Vec::new(), Vec::new(), 1).unwrap();
    assert_eq!(o.rng, XorShiftRng::from_seed(1));
}

#[test]
fn malformed_exclude_pattern_is_reported() {
    let r = Options::new(vec!["(".to_string()], Vec::new(), 1);
    match r {
        Err(ConfigError::InvalidExcludePattern { message }) => assert!(!message.is_empty()),
        Err(other) => panic!("expected an exclude-pattern error, got {:?}", other),
        Ok(_) => panic!("expected an exclude-pattern error, got a session"),
    }
}

#[test]
fn malformed_inclusion_pattern_is_reported() {
    let r = Options::new(vec!["^A$".to_string()], vec!["[".to_string()], 1);
    match r {
        Err(ConfigError::InvalidIncludePattern { message }) => assert!(!message.is_empty()),
        Err(other) => panic!("expected an inclusion-pattern error, got {:?}", other),
        Ok(_) => panic!("expected an inclusion-pattern error, got a session"),
    }
}

fn options(exclude: Vec<&str>, inclusion: Vec<&str>) -> Options {
    Options::new(
        exclude.into_iter().map(|s| s.to_string()).collect(),
        inclusion.into_iter().map(|s| s.to_string()).collect(),
        0,
    )
    .unwrap()
}

#[test]
fn eligibility_defaults_to_yes() {
    let o = options(vec![], vec![]);
    assert!(is_eligible(&o.exclude, &o.inclusion, "Anything", false));
}

#[test]
fn fixed_layout_is_an_implicit_exclusion() {
    let o = options(vec![], vec![]);
    assert!(!is_eligible(&o.exclude, &o.inclusion, "Pinned", true));
}

#[test]
fn inclusion_overrides_the_implicit_exclusion() {
    let o = options(vec![], vec!["^Pinned$"]);
    assert!(is_eligible(&o.exclude, &o.inclusion, "Pinned", true));
}

#[test]
fn exclusion_always_wins() {
    let o = options(vec!["^Point$"], vec!["^Point$"]);
    assert!(!is_eligible(&o.exclude, &o.inclusion, "Point", false));
    assert!(!is_eligible(&o.exclude, &o.inclusion, "Point", true));
}

#[test]
fn patterns_match_the_full_regex_semantics() {
    let o = options(vec!["^Vec3[0-9]*$"], vec![]);
    assert!(!is_eligible(&o.exclude, &o.inclusion, "Vec3", false));
    assert!(!is_eligible(&o.exclude, &o.inclusion, "Vec399", false));
    // Without anchors the pattern matches anywhere in the name.
    let unanchored = options(vec!["Point"], vec![]);
    assert!(!is_eligible(&unanchored.exclude, &unanchored.inclusion, "MyPointType", false));
}
