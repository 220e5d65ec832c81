//! Trusted boundary to the regex engine. The library never restates what a
//! regular expression matches; it names the span list a pattern yields on a
//! haystack and works with the facts the engine documents: matches come in
//! order, do not overlap, and lie inside the haystack.

use vstd::prelude::*;

verus! {

#[verifier::external_type_specification]
#[verifier::external_body]
pub struct ExRegex(regex::bytes::Regex);

/// The pattern text a compiled regex was built from.
pub uninterp spec fn regex_source(re: regex::bytes::Regex) -> Seq<char>;

/// The list of (start, end) byte spans that matching the pattern against the
/// haystack yields. A function of the pattern and the haystack alone.
pub uninterp spec fn regex_match_spans(pattern: Seq<char>, haystack: Seq<u8>) -> Seq<(int, int)>;

/// Whether the regex engine accepts a pattern text. A function of the
/// pattern alone.
pub uninterp spec fn regex_compiles(pattern: Seq<char>) -> bool;

/// Relies on `regex::bytes::Regex::new`: whether a pattern compiles depends
/// on its text alone, and a compiled regex's source is the given pattern;
/// a rejected pattern becomes `None`.
#[verifier::external_body]
pub(crate) fn compile_pattern(pattern: &str) -> (r: Option<regex::bytes::Regex>)
    ensures
        r is Some <==> regex_compiles(pattern@),
        r matches Some(re) ==> regex_source(re) == pattern@,
{
    regex::bytes::Regex::new(pattern).ok()
}

/// Relies on `regex::bytes::Regex::find_iter` and the `Matches` iterator it
/// returns: the iteration yields the successive non-overlapping matches of
/// the regex in the haystack in order of position, each a span of byte
/// offsets with `start() <= end()` lying inside the haystack.
#[verifier::external_body]
pub(crate) fn find_spans(re: &regex::bytes::Regex, haystack: &[u8]) -> (r: Vec<(usize, usize)>)
    ensures
        r@.map_values(|p: (usize, usize)| (p.0 as int, p.1 as int)) == regex_match_spans(
            regex_source(*re),
            haystack@,
        ),
        forall|i: int| 0 <= i < r@.len() ==> (#[trigger] r@[i]).0 <= r@[i].1 <= haystack@.len(),
        forall|i: int| 0 <= i < r@.len() - 1 ==> (#[trigger] r@[i]).1 <= r@[i + 1].0,
{
    let mut spans = Vec::new();
    for m in re.find_iter(haystack) {
        spans.push((m.start(), m.end()));
    }
    spans
}

} // verus!
