//! Matching text against patterns, which the regex crate does.

use vstd::prelude::*;

verus! {

/// Whether a pattern finds a match somewhere in a text, as the regex crate
/// reads the pattern; `None` where it does not accept the pattern.
pub uninterp spec fn match_of(pattern: Seq<char>, text: Seq<char>) -> Option<bool>;

/// What the group with the given number holds in the first match of a
/// pattern in a text, as the regex crate reads the pattern; `None` where it
/// does not accept the pattern, where there is no match, and where the
/// group has no part in the match.
pub uninterp spec fn group_of(pattern: Seq<char>, text: Seq<char>, group: usize) -> Option<
    Seq<char>,
>;

/// Compiles the pattern with `Regex::new` and asks `Regex::is_match` of the
/// text. The contract only names the answer: it depends on pattern and text
/// alone.
#[verifier::external_body]
pub(crate) fn pattern_matches(pattern: &str, text: &str) -> (found: Option<bool>)
    ensures
        found == match_of(pattern@, text@),
{
    match regex::Regex::new(pattern) {
        Ok(compiled) => Some(compiled.is_match(text)),
        Err(_) => None,
    }
}

/// Compiles the pattern with `Regex::new`, takes the first match in the
/// text with `Regex::captures`, and of it the group with the given number
/// with `Captures::get`. The contract only names the outcome: it depends on
/// pattern, text and number alone.
#[verifier::external_body]
pub(crate) fn captured_group(pattern: &str, text: &str, group: usize) -> (held: Option<String>)
    ensures
        match held {
            Some(held) => group_of(pattern@, text@, group) == Some(held@),
            None => group_of(pattern@, text@, group) is None,
        },
{
    let compiled = match regex::Regex::new(pattern) {
        Ok(compiled) => compiled,
        Err(_) => return None,
    };
    match compiled.captures(text) {
        Some(groups) => match groups.get(group) {
            Some(found) => Some(found.as_str().to_string()),
            None => None,
        },
        None => None,
    }
}

} // verus!
