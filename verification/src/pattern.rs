//! Regular expressions, as the `regex` crate matches them.
//!
//! Verus does not look inside the crate: what a match gives is named, and the
//! two calls that the tools make are wrapped with a contract over those
//! names. A pattern that the crate refuses matches nothing.

use vstd::prelude::*;

verus! {

/// The views of the groups of a match.
pub open spec fn groups_view(groups: Option<Vec<Option<String>>>) -> Option<Seq<Option<Seq<char>>>> {
    match groups {
        Some(list) => Some(
            Seq::new(
                list@.len(),
                |i: int|
                    match list@[i] {
                        Some(text) => Some(text@),
                        None => None,
                    },
            ),
        ),
        None => None,
    }
}

/// The groups of the leftmost match of `pattern` in `text`, as
/// `Regex::captures` gives them: the whole match first, then each group of
/// the pattern, `None` for a group that took no part. `None` where the
/// pattern matches nowhere in the text, or is no pattern.
pub uninterp spec fn regex_captures_of(pattern: Seq<char>, text: Seq<char>) -> Option<
    Seq<Option<Seq<char>>>,
>;

/// Whether `pattern` matches somewhere in `text`, as `Regex::is_match` says.
/// `false` where the pattern is no pattern.
pub uninterp spec fn regex_matches_of(pattern: Seq<char>, text: Seq<char>) -> bool;

/// The first group of each match of `pattern` in `text`, match by match from
/// the left, as `Regex::captures_iter` finds the matches; the empty text for
/// a match whose first group took no part. Nothing where the pattern is no
/// pattern.
pub uninterp spec fn regex_first_groups_of(pattern: Seq<char>, text: Seq<char>) -> Seq<Seq<char>>;

/// Calls `Regex::new` and `Regex::captures_iter`. The call is not proved:
/// the groups are taken to be those that [`regex_first_groups_of`] names.
#[verifier::external_body]
pub(crate) fn regex_first_groups(pattern: &str, text: &str) -> (groups: Vec<String>)
    ensures
        crate::table::texts_view(groups@) == regex_first_groups_of(pattern@, text@),
{
    match regex::Regex::new(pattern) {
        Ok(regex) => regex.captures_iter(text).map(
            |found| found.get(1).map_or(String::new(), |part| part.as_str().to_owned()),
        ).collect(),
        Err(_) => Vec::new(),
    }
}

/// Calls `Regex::new` and `Regex::captures`. The call is not proved: the
/// groups are taken to be those that [`regex_captures_of`] names.
#[verifier::external_body]
pub(crate) fn regex_captures(pattern: &str, text: &str) -> (groups: Option<Vec<Option<String>>>)
    ensures
        groups_view(groups) == regex_captures_of(pattern@, text@),
{
    let regex = regex::Regex::new(pattern).ok()?;
    let found = regex.captures(text)?;
    Some(found.iter().map(|group| group.map(|part| part.as_str().to_owned())).collect())
}

/// Calls `Regex::new` and `Regex::is_match`. The call is not proved: the
/// answer is taken to be the one that [`regex_matches_of`] names.
#[verifier::external_body]
pub(crate) fn regex_is_match(pattern: &str, text: &str) -> (matched: bool)
    ensures
        matched == regex_matches_of(pattern@, text@),
{
    match regex::Regex::new(pattern) {
        Ok(regex) => regex.is_match(text),
        Err(_) => false,
    }
}

} // verus!
