//! Regular expressions, as the protocol and the data formats use them.
use vstd::prelude::*;

use crate::json::text_view;
use crate::redirect::{pairs_view, Pairs};

verus! {

/// The capture groups after group 0 of the leftmost-first match of `pattern`
/// in `text`, a group that took no part read as empty; `None` where the
/// pattern does not compile or nothing matches.
pub uninterp spec fn regex_capture_groups(pattern: Seq<char>, text: Seq<char>) -> Option<Seq<Seq<char>>>;

/// Groups 1 and 2 of each successive non-overlapping match of `pattern` in `text`.
pub uninterp spec fn regex_group_pairs(pattern: Seq<char>, text: Seq<char>) -> Option<Pairs>;

/// `text` with each non-overlapping match of `pattern` replaced by `replacement`.
pub uninterp spec fn regex_replaced(pattern: Seq<char>, text: Seq<char>, replacement: Seq<char>) -> Option<Seq<char>>;

/// The views of a list of strings.
pub open spec fn texts_view(v: Seq<String>) -> Seq<Seq<char>> {
    v.map_values(|s: String| s@)
}

/// Relies on regex::Regex::new and Regex::captures: groups 1 and up of the
/// leftmost-first match, in order, a group that took no part read as empty.
#[verifier::external_body]
pub(crate) fn capture_groups(pattern: &str, text: &str) -> (r: Option<Vec<String>>)
    ensures
        match r {
            Some(v) => regex_capture_groups(pattern@, text@) == Some(texts_view(v@)),
            None => regex_capture_groups(pattern@, text@) is None,
        },
{
    let re = regex::Regex::new(pattern).ok()?;
    let c = re.captures(text)?;
    Some(c.iter().skip(1).map(|m| m.map_or(String::new(), |m| m.as_str().to_string())).collect())
}

/// Relies on regex::Regex::new and Regex::captures_iter: groups 1 and 2 of each
/// successive non-overlapping match, a group that took no part read as empty.
#[verifier::external_body]
pub(crate) fn group_pairs(pattern: &str, text: &str) -> (r: Option<Vec<(String, String)>>)
    ensures
        match r {
            Some(v) => regex_group_pairs(pattern@, text@) == Some(pairs_view(v@)),
            None => regex_group_pairs(pattern@, text@) is None,
        },
{
    let re = regex::Regex::new(pattern).ok()?;
    let group = |c: &regex::Captures, i: usize| c.get(i).map_or(String::new(), |m| m.as_str().to_string());
    Some(re.captures_iter(text).map(|c| (group(&c, 1), group(&c, 2))).collect())
}

/// Relies on regex::Regex::new and Regex::replace_all.
#[verifier::external_body]
pub(crate) fn replace_all(pattern: &str, text: &str, replacement: &str) -> (r: Option<String>)
    ensures
        text_view(r) == regex_replaced(pattern@, text@, replacement@),
{
    let re = regex::Regex::new(pattern).ok()?;
    Some(re.replace_all(text, replacement).into_owned())
}

/// Group `i` (counting from 1) of the leftmost-first match of `pattern` in `text`.
pub open spec fn regex_group(pattern: Seq<char>, text: Seq<char>, i: int) -> Option<Seq<char>> {
    match regex_capture_groups(pattern, text) {
        Some(g) => if 1 <= i <= g.len() {
            Some(g[i - 1])
        } else {
            None
        },
        None => None,
    }
}

/// Finds group `i` (counting from 1) of the leftmost-first match of `pattern` in `text`.
pub fn find_group(pattern: &str, text: &str, i: usize) -> (r: Option<String>)
    ensures
        text_view(r) == regex_group(pattern@, text@, i as int),
{
    match capture_groups(pattern, text) {
        Some(g) => {
            if 1 <= i && i <= g.len() {
                Some(g[i - 1].clone())
            } else {
                None
            }
        },
        None => None,
    }
}

} // verus!
