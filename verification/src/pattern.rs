//! Regular expressions, through the `regex` crate. What a regular expression
//! matches is named here, not written out.
use vstd::prelude::*;

verus! {

/// What `Regex::new(pattern)` followed by `Regex::replace(text, replacement)`
/// returns: `None` when the pattern does not compile.
pub uninterp spec fn regex_replace_first(
    pattern: Seq<char>,
    text: Seq<char>,
    replacement: Seq<char>,
) -> Option<Seq<char>>;

/// What `Regex::new(pattern)` followed by `Regex::replace_all(text, replacement)`
/// returns: `None` when the pattern does not compile.
pub uninterp spec fn regex_replace_every(
    pattern: Seq<char>,
    text: Seq<char>,
    replacement: Seq<char>,
) -> Option<Seq<char>>;

/// The text of capture group `group` of the first match of `pattern` in `text`
/// (`Regex::captures` then `Captures::get`); `None` when the pattern does not
/// compile, nothing matches, or the group took no part in the match.
pub uninterp spec fn regex_capture(pattern: Seq<char>, text: Seq<char>, group: nat) -> Option<
    Seq<char>,
>;

/// Calls `regex::Regex::new` and `Regex::replace`: replaces the leftmost-first
/// match of `pattern` in `text`. The contract only ties the result to the name
/// `regex_replace_first` of its three arguments.
#[verifier::external_body]
pub(crate) fn replace_first(pattern: &str, text: &str, replacement: &str) -> (r: Option<String>)
    ensures
        match r {
            Some(s) => regex_replace_first(pattern@, text@, replacement@) == Some(s@),
            None => regex_replace_first(pattern@, text@, replacement@) is None,
        },
{
    match regex::Regex::new(pattern) {
        Ok(re) => Some(re.replace(text, replacement).into_owned()),
        Err(_) => None,
    }
}

/// Calls `regex::Regex::new` and `Regex::replace_all`: replaces every
/// non-overlapping match of `pattern` in `text`. The contract only ties the
/// result to the name `regex_replace_every` of its three arguments.
#[verifier::external_body]
pub(crate) fn replace_every(pattern: &str, text: &str, replacement: &str) -> (r: Option<String>)
    ensures
        match r {
            Some(s) => regex_replace_every(pattern@, text@, replacement@) == Some(s@),
            None => regex_replace_every(pattern@, text@, replacement@) is None,
        },
{
    match regex::Regex::new(pattern) {
        Ok(re) => Some(re.replace_all(text, replacement).into_owned()),
        Err(_) => None,
    }
}

/// Calls `regex::Regex::new`, `Regex::captures` and `Captures::get`: the text of
/// a capture group of the first match. The contract only ties the result to the
/// name `regex_capture` of its three arguments.
#[verifier::external_body]
pub(crate) fn capture(pattern: &str, text: &str, group: usize) -> (r: Option<String>)
    ensures
        match r {
            Some(s) => regex_capture(pattern@, text@, group as nat) == Some(s@),
            None => regex_capture(pattern@, text@, group as nat) is None,
        },
{
    match regex::Regex::new(pattern) {
        Ok(re) => match re.captures(text) {
            Some(caps) => caps.get(group).map(|m| m.as_str().to_string()),
            None => None,
        },
        Err(_) => None,
    }
}

} // verus!
