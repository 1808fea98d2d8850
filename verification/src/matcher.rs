//! The pattern-matching boundary: the extension hint in a disposition-style
//! header is found by the regex crate. The matcher is compiled once at
//! pipeline start and passed explicitly to whoever resolves hints.

use vstd::prelude::*;

verus! {

#[verifier::external_type_specification]
#[verifier::external_body]
pub struct ExRegex(regex::Regex);

/// The pattern text a compiled matcher was built from.
pub uninterp spec fn pattern_of(re: regex::Regex) -> Seq<char>;

/// Whether regex's `Regex::new` accepts the pattern text: a function of the
/// pattern alone.
pub uninterp spec fn pattern_ok(pattern: Seq<char>) -> bool;

/// The first, leftmost substring of `text` that `pattern` matches, if any:
/// a function of the two strings alone. Names the result of regex's
/// `Regex::find`.
pub uninterp spec fn first_match_of(pattern: Seq<char>, text: Seq<char>) -> Option<Seq<char>>;

/// Relies on regex's `Regex::new`: compiling is pure, it fails exactly on
/// pattern text it cannot accept, and a compiled matcher holds exactly the
/// pattern it was built from.
#[verifier::external_body]
pub(crate) fn regex_compile(pattern: &str) -> (r: Result<regex::Regex, String>)
    ensures
        r is Ok <==> pattern_ok(pattern@),
        r matches Ok(re) ==> pattern_of(re) == pattern@,
{
    regex::Regex::new(pattern).map_err(|e| format!("{}", e))
}

/// Relies on regex's `Regex::find`: the first, leftmost match in the
/// haystack depends on the matcher's pattern and the haystack alone.
#[verifier::external_body]
pub(crate) fn regex_find_first(re: &regex::Regex, text: &str) -> (r: Option<String>)
    ensures
        r.deep_view() == first_match_of(pattern_of(*re), text@),
{
    re.find(text).map(|m| m.as_str().to_string())
}

} // verus!
