//! Matching a source line against a regular expression.

use vstd::prelude::*;

verus! {

/// What matching `text` against the regular expression `pattern` finds:
/// nothing where `pattern` is no regular expression or matches nowhere in
/// `text`; else, for the leftmost match, the text of each capture group in
/// the order of the opening parentheses, the whole match first, with
/// nothing for a group that took no part.
pub uninterp spec fn regex_captures(pattern: Seq<char>, text: Seq<char>) -> Option<
    Seq<Option<Seq<char>>>,
>;

/// Compiles `pattern` with `regex::Regex::new` and searches `text` with
/// `regex::Regex::captures`, then copies the text of every group, as
/// `regex::Captures::iter` hands the groups out and `regex::Match::as_str`
/// reads them. The result is taken to depend on the two strings alone,
/// and nothing more is claimed of it.
#[verifier::external_body]
pub(crate) fn captures(pattern: &str, text: &str) -> (groups: Option<Vec<Option<String>>>)
    ensures
        groups.deep_view() == regex_captures(pattern@, text@),
{
    let compiled = regex::Regex::new(pattern).ok()?;
    let found = compiled.captures(text)?;
    let mut groups = Vec::new();
    for group in found.iter() {
        groups.push(
            match group {
                Some(part) => Some(part.as_str().to_string()),
                None => None,
            },
        );
    }
    Some(groups)
}

} // verus!
