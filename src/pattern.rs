//! Regular expressions, compiled and searched by the `regex` crate.
use vstd::prelude::*;

verus! {

#[verifier::external_type_specification]
#[verifier::external_body]
pub struct ExRegex(regex::Regex);

#[verifier::external_type_specification]
#[verifier::external_body]
pub struct ExRegexError(regex::Error);

/// Whether `regex::Regex::new` accepts the pattern under its default limits.
pub uninterp spec fn pattern_compiles(pattern: Seq<char>) -> bool;

/// The text of the leftmost-first match of the pattern in the haystack, as
/// `regex::Regex::find` reports it, or `None` where there is no match.
pub uninterp spec fn first_match(pattern: Seq<char>, haystack: Seq<char>) -> Option<Seq<char>>;

/// The text of a search result, or the empty text where nothing matched.
pub open spec fn text_or_empty(found: Option<Seq<char>>) -> Seq<char> {
    match found {
        Some(m) => m,
        None => Seq::empty(),
    }
}

/// A compiled regular expression, together with the pattern it came from.
pub struct Pattern {
    re: regex::Regex,
    source: String,
}

impl Pattern {
    /// The pattern this expression was compiled from.
    pub closed spec fn source(&self) -> Seq<char> {
        self.source@
    }
}

/// Relies on `regex::Regex::new`: it compiles the pattern, or reports why it cannot.
#[verifier::external_body]
pub(crate) fn compile(pattern: &str) -> (r: Result<Pattern, regex::Error>)
    ensures
        r is Ok <==> pattern_compiles(pattern@),
        r matches Ok(p) ==> p.source() == pattern@,
{
    match regex::Regex::new(pattern) {
        Ok(re) => Ok(Pattern { re, source: pattern.to_string() }),
        Err(e) => Err(e),
    }
}

/// Relies on `regex::Regex::find`: the first match in the haystack, taken as text.
#[verifier::external_body]
pub(crate) fn find_first(p: &Pattern, haystack: &str) -> (r: Option<String>)
    ensures
        r matches Some(m) ==> first_match(p.source(), haystack@) == Some(m@),
        r is None ==> first_match(p.source(), haystack@) is None,
{
    match p.re.find(haystack) {
        Some(m) => Some(m.as_str().to_string()),
        None => None,
    }
}

/// The text of a search result, or the empty text where nothing matched.
pub fn match_text(found: Option<String>) -> (r: String)
    ensures
        r@ == text_or_empty(
            match found {
                Some(m) => Some(m@),
                None => None,
            },
        ),
{
    match found {
        Some(m) => m,
        None => String::new(),
    }
}

} // verus!
