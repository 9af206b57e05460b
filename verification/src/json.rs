//! Reading values out of JSON documents, through `serde_json`. What a document
//! holds at a JSON pointer (RFC 6901) is named here, not written out.
use vstd::prelude::*;

use crate::text::str_chars;

verus! {

/// Whether `serde_json::from_str::<Value>` accepts the text.
pub uninterp spec fn json_parses(text: Seq<char>) -> bool;

/// The string that `Value::pointer(pointer)` then `Value::as_str` finds in the
/// parsed document; `None` when the text is not JSON, nothing is there, or it is
/// not a string.
pub uninterp spec fn json_str_at(text: Seq<char>, pointer: Seq<char>) -> Option<Seq<char>>;

/// The unsigned integer that `Value::pointer(pointer)` then `Value::as_u64`
/// finds in the parsed document.
pub uninterp spec fn json_u64_at(text: Seq<char>, pointer: Seq<char>) -> Option<u64>;

/// The length of the array that `Value::pointer(pointer)` then `Value::as_array`
/// finds in the parsed document.
pub uninterp spec fn json_array_len_at(text: Seq<char>, pointer: Seq<char>) -> Option<nat>;

/// Calls `serde_json::from_str::<serde_json::Value>` and reports whether it
/// succeeded. Nothing is claimed of which texts parse.
#[verifier::external_body]
pub(crate) fn parses(text: &str) -> (r: bool)
    ensures
        r == json_parses(text@),
{
    serde_json::from_str::<serde_json::Value>(text).is_ok()
}

/// Calls `serde_json::from_str::<serde_json::Value>`, `Value::pointer` and
/// `Value::as_str`. The contract ties the result to the name `json_str_at`.
#[verifier::external_body]
pub(crate) fn str_at(text: &str, pointer: &str) -> (r: Option<String>)
    ensures
        match r {
            Some(s) => json_str_at(text@, pointer@) == Some(s@),
            None => json_str_at(text@, pointer@) is None,
        },
{
    match serde_json::from_str::<serde_json::Value>(text) {
        Ok(v) => v.pointer(pointer).and_then(serde_json::Value::as_str).map(str::to_string),
        Err(_) => None,
    }
}

/// Calls `serde_json::from_str::<serde_json::Value>`, `Value::pointer` and
/// `Value::as_u64`. The contract ties the result to the name `json_u64_at`.
#[verifier::external_body]
pub(crate) fn u64_at(text: &str, pointer: &str) -> (r: Option<u64>)
    ensures
        r == json_u64_at(text@, pointer@),
{
    match serde_json::from_str::<serde_json::Value>(text) {
        Ok(v) => v.pointer(pointer).and_then(serde_json::Value::as_u64),
        Err(_) => None,
    }
}

/// Calls `serde_json::from_str::<serde_json::Value>`, `Value::pointer` and
/// `Value::as_array`, and gives the array's length. The contract ties the result
/// to the name `json_array_len_at`.
#[verifier::external_body]
pub(crate) fn array_len_at(text: &str, pointer: &str) -> (r: Option<usize>)
    ensures
        match r {
            Some(n) => json_array_len_at(text@, pointer@) == Some(n as nat),
            None => json_array_len_at(text@, pointer@) is None,
        },
{
    match serde_json::from_str::<serde_json::Value>(text) {
        Ok(v) => v.pointer(pointer).and_then(serde_json::Value::as_array).map(Vec::len),
        Err(_) => None,
    }
}

/// A key written as a JSON pointer reference token: `~` becomes `~0` and `/`
/// becomes `~1`.
pub open spec fn pointer_token_spec(key: Seq<char>) -> Seq<char>
    decreases key.len(),
{
    if key.len() == 0 {
        Seq::empty()
    } else {
        pointer_token_spec(key.drop_last()) + if key.last() == '~' {
            seq!['~', '0']
        } else if key.last() == '/' {
            seq!['~', '1']
        } else {
            seq![key.last()]
        }
    }
}

/// Escapes `key` so that it can stand between two `/` in a JSON pointer.
pub fn pointer_token(key: &str) -> (r: String)
    ensures
        r@ == pointer_token_spec(key@),
{
    let chars = str_chars(key);
    let mut out = String::new();
    let mut i: usize = 0;
    proof {
        reveal_strlit("~0");
        reveal_strlit("~1");
        assert("~0"@ =~= seq!['~', '0']);
        assert("~1"@ =~= seq!['~', '1']);
        assert(key@.subrange(0, 0) =~= Seq::<char>::empty());
    }
    while i < chars.len()
        invariant
            chars@ == key@,
            i <= key@.len(),
            out@ == pointer_token_spec(key@.subrange(0, i as int)),
            "~0"@ == seq!['~', '0'],
            "~1"@ == seq!['~', '1'],
        decreases key@.len() - i,
    {
        assert(key@.subrange(0, i + 1).drop_last() =~= key@.subrange(0, i as int));
        if chars[i] == '~' {
            out.append("~0");
        } else if chars[i] == '/' {
            out.append("~1");
        } else {
            out.append(key.substring_char(i, i + 1));
        }
        i = i + 1;
    }
    assert(key@.subrange(0, key@.len() as int) =~= key@);
    out
}

} // verus!
