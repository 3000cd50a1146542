use vstd::prelude::*;

verus! {

/// What regex_automata answers when `pattern` is built and searched for in `haystack`:
/// `None` when the pattern does not build, else whether it matches somewhere.
pub uninterp spec fn regex_search(pattern: Seq<char>, haystack: Seq<char>) -> Option<bool>;

/// Relies on regex_automata's `meta::Regex::new`, which fails only on a pattern that does not
/// build, and `meta::Regex::is_match`, which reports whether the pattern matches anywhere in
/// the haystack; both depend on the two texts alone.
#[verifier::external_body]
pub(crate) fn regex_is_match(pattern: &str, haystack: &str) -> (r: Option<bool>)
    ensures
        r == regex_search(pattern@, haystack@),
{
    regex_automata::meta::Regex::new(pattern).ok().map(|re| re.is_match(haystack))
}

/// Whether `pattern` builds and matches somewhere in `haystack`.
pub open spec fn finds(pattern: Seq<char>, haystack: Seq<char>) -> bool {
    regex_search(pattern, haystack) == Some(true)
}

/// Searches `haystack` for `pattern`; a pattern that does not build matches nothing.
pub fn pattern_finds(pattern: &str, haystack: &str) -> (r: bool)
    ensures
        r == finds(pattern@, haystack@),
{
    match regex_is_match(pattern, haystack) {
        Some(b) => b,
        None => false,
    }
}

} // verus!
