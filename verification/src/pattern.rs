//! Regular expressions, through the `regex` crate.
use vstd::prelude::*;

verus! {

#[verifier::external_type_specification]
#[verifier::external_body]
pub struct ExRegex(regex::Regex);

#[verifier::external_type_specification]
#[verifier::external_body]
pub struct ExRegexError(regex::Error);

/// Whether `regex::Regex::new` accepts `pattern`.
pub uninterp spec fn regex_compiles(pattern: Seq<char>) -> bool;

/// Whether the regex crate finds a match of `pattern` somewhere in `haystack`.
pub uninterp spec fn regex_finds_match(pattern: Seq<char>, haystack: Seq<char>) -> bool;

/// Compiles `pattern`.
///
/// Trusted: calls `regex::Regex::new`. The contract claims only that success
/// depends on the pattern alone; the compiled value is opaque here.
#[verifier::external_body]
fn compile_regex(pattern: &str) -> (r: Result<regex::Regex, regex::Error>)
    ensures
        r is Ok <==> regex_compiles(pattern@),
{
    regex::Regex::new(pattern)
}

/// A compiled regular expression together with the text it was compiled from.
///
/// `Pattern::new` is the only way to build one, so `re` is always the
/// compilation of `source`.
pub struct Pattern {
    re: regex::Regex,
    source: String,
}

impl View for Pattern {
    type V = Seq<char>;

    /// The text of the regular expression.
    closed spec fn view(&self) -> Seq<char> {
        self.source@
    }
}

/// Whether the compiled `pattern` matches somewhere in `haystack`.
///
/// Trusted: calls `regex::Regex::is_match` on the regex held by `pattern`. The
/// contract claims that the answer is a function of the pattern's text and the
/// haystack alone (`regex_finds_match`); which texts match is left unsaid.
#[verifier::external_body]
fn regex_is_match(pattern: &Pattern, haystack: &str) -> (r: bool)
    ensures
        r == regex_finds_match(pattern@, haystack@),
{
    pattern.re.is_match(haystack)
}

impl Pattern {
    /// Compiles `source`; `None` when the regex crate rejects it.
    pub fn new(source: &str) -> (r: Option<Pattern>)
        ensures
            r is Some <==> regex_compiles(source@),
            r matches Some(p) ==> p@ == source@,
    {
        match compile_regex(source) {
            Ok(re) => Some(Pattern { re, source: source.to_owned() }),
            Err(_) => None,
        }
    }

    /// Whether this pattern matches somewhere in `haystack`.
    pub fn is_match(&self, haystack: &str) -> (r: bool)
        ensures
            r == regex_finds_match(self@, haystack@),
    {
        regex_is_match(self, haystack)
    }
}

} // verus!
