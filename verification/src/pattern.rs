use vstd::prelude::*;

verus! {

/// What a search for the regular expression `pattern` in `text` gives:
/// `None` where `pattern` does not compile, else whether a match exists.
pub uninterp spec fn pattern_found(pattern: Seq<char>, text: Seq<char>) -> Option<bool>;

/// Calls `regex::Regex::new` on `pattern` and, where that compiles,
/// `regex::Regex::is_match` on `text`. The contract only gives the outcome
/// its name: it is fixed by the two arguments, and nothing else is claimed.
#[verifier::external_body]
pub(crate) fn search(pattern: &str, text: &str) -> (r: Option<bool>)
    ensures
        r == pattern_found(pattern@, text@),
{
    match regex::Regex::new(pattern) {
        Ok(re) => Some(re.is_match(text)),
        Err(_) => None,
    }
}

/// Reads the outcome of a search: only a pattern that compiled and matched
/// counts as found.
pub open spec fn spec_found(outcome: Option<bool>) -> bool {
    outcome == Some(true)
}

/// Reads the outcome of a search: only a pattern that compiled and matched
/// counts as found.
pub fn found(outcome: Option<bool>) -> (r: bool)
    ensures
        r == spec_found(outcome),
{
    match outcome {
        Some(hit) => hit,
        None => false,
    }
}

/// Whether `pattern`, read as a regular expression, matches somewhere in `text`.
pub fn is_match(pattern: &str, text: &str) -> (r: bool)
    ensures
        r == spec_found(pattern_found(pattern@, text@)),
{
    found(search(pattern, text))
}

} // verus!
