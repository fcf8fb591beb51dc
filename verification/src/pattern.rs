//! Regular-expression matching, delegated to the `regex` crate.

use vstd::prelude::*;
use crate::types::texts;

verus! {

/// The non-overlapping matches of the regular expression `pattern` in
/// `text`, leftmost first, as `regex::Regex::find_iter` reports them;
/// nothing where `pattern` is not a regular expression.
pub uninterp spec fn regex_matches(pattern: Seq<char>, text: Seq<char>) -> Option<Seq<Seq<char>>>;

/// `text` with every match of the regular expression `pattern` replaced
/// by `replacement`, as `regex::Regex::replace_all` does it; nothing where
/// `pattern` is not a regular expression.
pub uninterp spec fn regex_replaced(
    pattern: Seq<char>,
    text: Seq<char>,
    replacement: Seq<char>,
) -> Option<Seq<char>>;

/// Calls `regex::Regex::new` and `Regex::find_iter`. The contract claims
/// only that the matched texts are a function of the pattern and the text.
#[verifier::external_body]
pub(crate) fn regex_find_all(pattern: &str, text: &str) -> (r: Option<Vec<String>>)
    ensures
        match r {
            Some(found) => regex_matches(pattern@, text@) == Some(texts(found)),
            None => regex_matches(pattern@, text@) is None,
        },
{
    match regex::Regex::new(pattern) {
        Ok(re) => Some(re.find_iter(text).map(|m| m.as_str().to_string()).collect()),
        Err(_) => None,
    }
}

/// Calls `regex::Regex::new` and `Regex::replace_all`. The contract claims
/// only that the new text is a function of the three arguments.
#[verifier::external_body]
pub(crate) fn regex_replace_all(pattern: &str, text: &str, replacement: &str) -> (r: Option<String>)
    ensures
        match r {
            Some(replaced) => regex_replaced(pattern@, text@, replacement@) == Some(replaced@),
            None => regex_replaced(pattern@, text@, replacement@) is None,
        },
{
    match regex::Regex::new(pattern) {
        Ok(re) => Some(re.replace_all(text, replacement).into_owned()),
        Err(_) => None,
    }
}

} // verus!
