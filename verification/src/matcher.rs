//! The eligibility filter: inclusion/exclusion pattern sets, compiled with the
//! regex crate, and the policy that decides whether a named type may be
//! randomized.
//!
//! The compiled sets are opaque; what they hold and what they match is named
//! by uninterpreted functions, and the few trusted wrappers below state of
//! those names exactly what the regex crate documents.

use vstd::prelude::*;

verus! {

/// The regex crate's compiled pattern set, declared so its values can be
/// held and passed around; the crate never looks inside one.
#[verifier::external_type_specification]
#[verifier::external_body]
pub struct ExRegexSet(regex::RegexSet);

/// The regex crate's error type for a pattern that does not compile.
#[verifier::external_type_specification]
#[verifier::external_body]
pub struct ExRegexError(regex::Error);

/// The patterns a compiled set was built from, in order.
pub uninterp spec fn regex_set_patterns(s: regex::RegexSet) -> Seq<Seq<char>>;

/// Whether at least one of the patterns matches the text, with the regex
/// crate's full (unanchored, extended) matching semantics.
pub uninterp spec fn regex_set_has_match(patterns: Seq<Seq<char>>, text: Seq<char>) -> bool;

/// Whether the regex crate accepts every pattern of the list and can compile
/// them together into one set.
pub uninterp spec fn regex_patterns_compile(patterns: Seq<Seq<char>>) -> bool;

/// Relies on regex::RegexSet::new: it returns a set exactly when every
/// pattern is a regular expression the crate accepts (an empty list always
/// is), and the returned set holds exactly the given patterns.
#[verifier::external_body]
pub(crate) fn regex_set_new(patterns: &Vec<String>) -> (r: Result<regex::RegexSet, regex::Error>)
    ensures
        r is Ok <==> regex_patterns_compile(patterns.deep_view()),
        r matches Ok(s) ==> regex_set_patterns(s) == patterns.deep_view(),
        patterns@.len() == 0 ==> r is Ok,
{
    regex::RegexSet::new(patterns)
}

/// Relies on regex::RegexSet::is_match: true exactly when at least one
/// pattern of the set matches the text; an empty set matches nothing.
#[verifier::external_body]
pub(crate) fn regex_set_is_match(set: &regex::RegexSet, text: &str) -> (r: bool)
    ensures
        r == regex_set_has_match(regex_set_patterns(*set), text@),
        regex_set_patterns(*set).len() == 0 ==> r == false,
{
    set.is_match(text)
}

/// Relies on the Display rendering of regex::Error for a human-readable
/// description of why a pattern was refused.
#[verifier::external_body]
pub(crate) fn regex_error_message(e: &regex::Error) -> String {
    format!("{}", e)
}

/// The eligibility policy, in strict precedence order: a name matching the
/// exclude set is never eligible; otherwise a name matching the inclusion set
/// always is; otherwise a type already carrying the fixed-layout annotation
/// is not; otherwise it is.
pub open spec fn spec_eligible(
    exc: Seq<Seq<char>>,
    inc: Seq<Seq<char>>,
    name: Seq<char>,
    fixed_layout: bool,
) -> bool {
    if regex_set_has_match(exc, name) {
        false
    } else if regex_set_has_match(inc, name) {
        true
    } else {
        !fixed_layout
    }
}

/// Decides whether the type with this name, carrying or not carrying the
/// fixed-layout annotation, may be randomized under the two pattern sets.
pub fn is_eligible(
    exclude: &regex::RegexSet,
    inclusion: &regex::RegexSet,
    name: &str,
    fixed_layout: bool,
) -> (r: bool)
    ensures
        r == spec_eligible(
            regex_set_patterns(*exclude),
            regex_set_patterns(*inclusion),
            name@,
            fixed_layout,
        ),
{
    let explicitly_excluded = regex_set_is_match(exclude, name);
    let explicitly_selected = regex_set_is_match(inclusion, name);
    !explicitly_excluded && (explicitly_selected || !fixed_layout)
}

} // verus!
