//! Matching a text against a pattern, with the `regex` crate.

use vstd::prelude::*;
use crate::text::text_view;

verus! {

/// The groups that the first match of a pattern captures in a text, where
/// the pattern is one and matches: the whole match first, then each group
/// in the order of its opening parenthesis, with nothing for a group that
/// took no part.
pub uninterp spec fn captured(pattern: Seq<char>, text: Seq<char>) -> Option<
    Seq<Option<Seq<char>>>,
>;

/// Captured groups as values of specifications.
pub open spec fn groups_view(groups: Option<Vec<Option<String>>>) -> Option<
    Seq<Option<Seq<char>>>,
> {
    match groups {
        Some(found) => Some(found@.map_values(|group: Option<String>| text_view(group))),
        None => None,
    }
}

/// The groups of the first match of a pattern in a text, by `Regex::new`,
/// `Regex::captures` and `Captures::iter`.
///
/// The result is `None` where `Regex::new` refuses the pattern or
/// `captures` finds no match; else it holds what `iter` yields, each match
/// as the text it covers.
#[verifier::external_body]
pub(crate) fn capture(pattern: &str, text: &str) -> (groups: Option<Vec<Option<String>>>)
    ensures
        groups_view(groups) == captured(pattern@, text@),
{
    let re = regex::Regex::new(pattern).ok()?;
    let found = re.captures(text)?;
    Some(found.iter().map(|group| group.map(|m| m.as_str().to_string())).collect())
}

} // verus!
