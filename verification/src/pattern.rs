//! Searches for regular expressions, done by the `regex` crate.
//!
//! What a search finds is taken on trust: the two names below stand for the
//! results of `regex`, and nothing in this crate says what they are for a
//! given pattern and text.

use vstd::prelude::*;
use regex::Regex;

verus! {

/// The substring that the leftmost match of `pattern` in `text` covers, as
/// `Regex::find` reports it. `None` where nothing matches, or where `pattern`
/// is not an expression that `Regex::new` accepts.
pub uninterp spec fn first_match(pattern: Seq<char>, text: Seq<char>) -> Option<Seq<char>>;

/// The substring that capture group `group` covers in the leftmost match of
/// `pattern` in `text`, as `Regex::captures` and `Captures::get` report it.
/// `None` where nothing matches, where the group took no part in the match
/// or does not exist, or where `Regex::new` does not accept `pattern`.
pub uninterp spec fn first_capture(pattern: Seq<char>, text: Seq<char>, group: int) -> Option<
    Seq<char>,
>;

/// The text that an optional string holds.
pub open spec fn text_of(s: Option<String>) -> Option<Seq<char>> {
    match s {
        Some(t) => Some(t@),
        None => None,
    }
}

/// Compiles `pattern` with `Regex::new` and searches `text` with
/// `Regex::find`. Trusted: the result is the matched substring, which is by
/// definition `first_match`; a pattern that does not compile finds nothing.
#[verifier::external_body]
pub(crate) fn find_first(pattern: &str, text: &str) -> (found: Option<String>)
    ensures
        text_of(found) == first_match(pattern@, text@),
{
    let expression = match Regex::new(pattern) {
        Ok(expression) => expression,
        Err(_) => return None,
    };
    match expression.find(text) {
        Some(found) => Some(found.as_str().to_string()),
        None => None,
    }
}

/// Compiles `pattern` with `Regex::new`, searches `text` with
/// `Regex::captures` and takes group `group` of the match with
/// `Captures::get`. Trusted: the result is the substring that the group
/// covers, which is by definition `first_capture`; a pattern that does not
/// compile captures nothing.
#[verifier::external_body]
pub(crate) fn capture_first(pattern: &str, text: &str, group: usize) -> (found: Option<String>)
    ensures
        text_of(found) == first_capture(pattern@, text@, group as int),
{
    let expression = match Regex::new(pattern) {
        Ok(expression) => expression,
        Err(_) => return None,
    };
    let captures = expression.captures(text)?;
    match captures.get(group) {
        Some(found) => Some(found.as_str().to_string()),
        None => None,
    }
}

} // verus!
