//! Source languages the tool recognizes, and the parsing of a language name
//! from user input.
//!
//! A name is matched after normalization: it is lowercased and every
//! whitespace character and hyphen is removed, so that, for instance,
//! `Objective - C` and `objectivec` name the same language.

use vstd::prelude::*;

verus! {

/// Potentially-supported source languages.
#[derive(Clone, Copy, Debug, Hash, PartialEq, Eq, PartialOrd, Ord, Structural)]
pub enum Language {
    /// Rust
    Rust,
    /// A C-like language
    CLike(CLikeLanguage),
}

/// Potentially-supported C-like source languages.
#[derive(Clone, Copy, Debug, Hash, PartialEq, Eq, PartialOrd, Ord, Structural)]
pub enum CLikeLanguage {
    /// C
    C,
    /// C++
    Cxx,
    /// Objective-C
    ObjC,
    /// Objective-C++
    ObjCxx,
}

impl Default for Language {
    /// The language assumed when none is named.
    fn default() -> (r: Self)
        ensures
            r == Language::Rust,
    {
        Language::Rust
    }
}

impl Default for CLikeLanguage {
    /// The C-like language assumed when only the family is named.
    fn default() -> (r: Self)
        ensures
            r == CLikeLanguage::C,
    {
        CLikeLanguage::C
    }
}

/// A language name that, even after normalization, names no supported
/// language; it carries the normalized name.
#[derive(Clone, Debug, PartialEq, Eq)]
pub struct UnsupportedLanguage {
    pub name: String,
}

/// What `str::to_lowercase` returns: a function of the text alone.
pub uninterp spec fn lower_of(s: Seq<char>) -> Seq<char>;

/// Relies on str::to_lowercase: the lowercased text depends on the input
/// text alone, in full Unicode.
#[verifier::external_body]
fn lowercase(s: &str) -> (r: String)
    ensures
        r@ == lower_of(s@),
{
    s.to_lowercase()
}

/// Whether a character has the Unicode White_Space property, the set of
/// twenty-five code points that char::is_whitespace documents.
pub open spec fn spec_is_whitespace(c: char) -> bool {
    ||| c == ' '
    ||| c == '\t'
    ||| c == '\n'
    ||| c == '\u{0B}'
    ||| c == '\u{0C}'
    ||| c == '\r'
    ||| c == '\u{85}'
    ||| c == '\u{A0}'
    ||| c == '\u{1680}'
    ||| (0x2000 <= (c as u32) && (c as u32) <= 0x200A)
    ||| c == '\u{2028}'
    ||| c == '\u{2029}'
    ||| c == '\u{202F}'
    ||| c == '\u{205F}'
    ||| c == '\u{3000}'
}

/// Relies on char::is_whitespace: true exactly for the characters with the
/// Unicode White_Space property.
#[verifier::external_body]
fn char_is_whitespace(c: char) -> (r: bool)
    ensures
        r == spec_is_whitespace(c),
{
    c.is_whitespace()
}

/// Whether normalization removes this character: whitespace or a hyphen.
pub open spec fn spec_is_separator(c: char) -> bool {
    c == '-' || spec_is_whitespace(c)
}

/// Whether normalization removes this character.
fn is_separator(c: char) -> (r: bool)
    ensures
        r == spec_is_separator(c),
{
    c == '-' || char_is_whitespace(c)
}

/// Text with every whitespace character and hyphen removed.
pub open spec fn spec_strip(s: Seq<char>) -> Seq<char> {
    s.filter(|c: char| !spec_is_separator(c))
}

/// Relies on str::replace with an empty replacement and a character
/// predicate as the pattern: it removes exactly the matching characters,
/// keeping the others in order.
#[verifier::external_body]
fn strip_separators(s: &str) -> (r: String)
    ensures
        r@ == spec_strip(s@),
{
    s.replace(|c: char| is_separator(c), "")
}

/// A language name normalized for matching: lowercased, with whitespace and
/// hyphens removed.
pub open spec fn spec_normalized(s: Seq<char>) -> Seq<char> {
    spec_strip(lower_of(s))
}

/// The language a normalized name denotes, if any.
pub open spec fn spec_language_for(norm: Seq<char>) -> Option<Language> {
    if norm == ""@ || norm == "default"@ || norm == "rust"@ {
        Some(Language::Rust)
    } else if norm == "clike"@ || norm == "clikedefault"@ || norm == "cfamily"@ || norm
        == "cfamilydefault"@ || norm == "cfam"@ || norm == "cfamdefault"@ || norm == "c"@ {
        Some(Language::CLike(CLikeLanguage::C))
    } else if norm == "cpp"@ || norm == "cxx"@ || norm == "c++"@ {
        Some(Language::CLike(CLikeLanguage::Cxx))
    } else if norm == "objectivec"@ || norm == "objc"@ {
        Some(Language::CLike(CLikeLanguage::ObjC))
    } else if norm == "objectivecpp"@ || norm == "objectivecxx"@ || norm == "objectivec++"@ || norm
        == "objcpp"@ || norm == "objcxx"@ || norm == "objc++"@ {
        Some(Language::CLike(CLikeLanguage::ObjCxx))
    } else {
        None
    }
}

/// Whether the normalized name equals the given keyword.
fn matches_keyword(n: &String, keyword: &str) -> (r: bool)
    ensures
        r == (n@ == keyword@),
{
    let owned: String = keyword.to_owned();
    *n == owned
}

/// Parses a language name: the name is normalized, then matched against the
/// recognized spellings.  Returns the language it denotes, or an error
/// carrying the normalized name when it denotes none.
pub fn try_parse_language(s: &str) -> (r: Result<Language, UnsupportedLanguage>)
    ensures
        r matches Ok(l) ==> spec_language_for(spec_normalized(s@)) == Some(l),
        r is Ok <==> spec_language_for(spec_normalized(s@)) is Some,
        r matches Err(e) ==> e.name@ == spec_normalized(s@),
{
    let lowered = lowercase(s);
    let norm = strip_separators(lowered.as_str());
    if matches_keyword(&norm, "") || matches_keyword(&norm, "default") || matches_keyword(
        &norm,
        "rust",
    ) {
        Ok(Language::Rust)
    } else if matches_keyword(&norm, "clike") || matches_keyword(&norm, "clikedefault")
        || matches_keyword(&norm, "cfamily") || matches_keyword(&norm, "cfamilydefault")
        || matches_keyword(&norm, "cfam") || matches_keyword(&norm, "cfamdefault")
        || matches_keyword(&norm, "c") {
        Ok(Language::CLike(CLikeLanguage::default()))
    } else if matches_keyword(&norm, "cpp") || matches_keyword(&norm, "cxx") || matches_keyword(
        &norm,
        "c++",
    ) {
        Ok(Language::CLike(CLikeLanguage::Cxx))
    } else if matches_keyword(&norm, "objectivec") || matches_keyword(&norm, "objc") {
        Ok(Language::CLike(CLikeLanguage::ObjC))
    } else if matches_keyword(&norm, "objectivecpp") || matches_keyword(&norm, "objectivecxx")
        || matches_keyword(&norm, "objectivec++") || matches_keyword(&norm, "objcpp")
        || matches_keyword(&norm, "objcxx") || matches_keyword(&norm, "objc++") {
        Ok(Language::CLike(CLikeLanguage::ObjCxx))
    } else {
        Err(UnsupportedLanguage { name: norm })
    }
}

} // verus!
