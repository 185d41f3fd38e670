//! One invocation's session state: the compiled inclusion and exclusion pattern
//! sets and the seeded pseudo-random generator.  It is built once, before any
//! traversal, and a malformed pattern fails the construction with a
//! configuration error, so no partially-built session ever exists.

use crate::matcher::{
    regex_error_message, regex_patterns_compile, regex_set_new, regex_set_patterns,
};
use crate::rng::{spec_from_seed, XorShiftRng};
use vstd::prelude::*;

verus! {

/// A configuration error: one of the user-supplied patterns was not a valid
/// regular expression.  The message is the regex crate's own description.
#[derive(Clone, Debug, PartialEq, Eq)]
pub enum ConfigError {
    InvalidExcludePattern { message: String },
    InvalidIncludePattern { message: String },
}

/// The session state of one invocation.
pub struct Options {
    pub exclude: regex::RegexSet,
    pub inclusion: regex::RegexSet,
    pub rng: XorShiftRng,
}

impl Options {
    /// The patterns the exclude set was built from.
    pub open spec fn exclude_patterns(self) -> Seq<Seq<char>> {
        regex_set_patterns(self.exclude)
    }

    /// The patterns the inclusion set was built from.
    pub open spec fn inclusion_patterns(self) -> Seq<Seq<char>> {
        regex_set_patterns(self.inclusion)
    }

    /// Builds the session state: compiles both pattern sets and seeds the
    /// generator.  Fails, with the offending side named, exactly when a
    /// pattern does not compile; the exclude patterns are checked first.
    pub fn new(exclude: Vec<String>, inclusion: Vec<String>, seed: u128) -> (r: Result<
        Options,
        ConfigError,
    >)
        ensures
            r is Ok <==> regex_patterns_compile(exclude.deep_view()) && regex_patterns_compile(
                inclusion.deep_view(),
            ),
            r matches Ok(o) ==> o.exclude_patterns() == exclude.deep_view()
                && o.inclusion_patterns() == inclusion.deep_view() && o.rng == spec_from_seed(seed),
            !regex_patterns_compile(exclude.deep_view()) ==> (r matches Err(e)
                && e is InvalidExcludePattern),
            regex_patterns_compile(exclude.deep_view()) && !regex_patterns_compile(
                inclusion.deep_view(),
            ) ==> (r matches Err(e) && e is InvalidIncludePattern),
    {
        let exclude_set = match regex_set_new(&exclude) {
            Ok(s) => s,
            Err(e) => {
                return Err(ConfigError::InvalidExcludePattern { message: regex_error_message(&e) });
            },
        };
        let inclusion_set = match regex_set_new(&inclusion) {
            Ok(s) => s,
            Err(e) => {
                return Err(ConfigError::InvalidIncludePattern { message: regex_error_message(&e) });
            },
        };
        Ok(Options { exclude: exclude_set, inclusion: inclusion_set, rng: XorShiftRng::from_seed(seed) })
    }
}

} // verus!
