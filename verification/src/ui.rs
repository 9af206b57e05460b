//! Per-track decisions and the choices a user makes about them.
use vstd::prelude::*;
use vstd::string::StringSliceAdditionalSpecFns;
use vstd::utf8::{encode_utf8, is_char_boundary};

use crate::text::{eq_ignore_ascii_case, str_chars, str_eq, to_lowercase, trim, trim_spec,
    lowercase_spec, eq_ignore_ascii_case_spec};

verus! {

/// What happens to one audio track.
#[derive(Debug, Clone, Copy, PartialEq, Eq, Structural)]
pub enum Action {
    Keep,
    Strip,
}

/// The planned action for one audio track, with what is shown about it.
#[derive(Debug, Clone)]
pub struct TrackDecision {
    pub index: u32,
    pub language: String,
    pub codec: String,
    pub channels: String,
    pub title: String,
    pub action: Action,
    pub reason: String,
}

/// The number of decisions among the first `n` whose action is `a`.
pub open spec fn count_action(ds: Seq<TrackDecision>, a: Action, n: int) -> nat
    decreases n,
{
    if n <= 0 {
        0
    } else {
        count_action(ds, a, n - 1) + if ds[n - 1].action == a {
            1nat
        } else {
            0nat
        }
    }
}

/// The stream indices of the first `n` decisions whose action is `a`, in order.
pub open spec fn indices_with(ds: Seq<TrackDecision>, a: Action, n: int) -> Seq<u32>
    decreases n,
{
    if n <= 0 {
        Seq::empty()
    } else if ds[n - 1].action == a {
        indices_with(ds, a, n - 1).push(ds[n - 1].index)
    } else {
        indices_with(ds, a, n - 1)
    }
}

proof fn lemma_count_bounded(ds: Seq<TrackDecision>, a: Action, n: int)
    requires
        0 <= n,
    ensures
        count_action(ds, a, n) <= n,
    decreases n,
{
    if n > 0 {
        lemma_count_bounded(ds, a, n - 1);
    }
}

/// The number of decisions with action `a`.
pub fn count_with_action(decisions: &Vec<TrackDecision>, a: Action) -> (r: usize)
    ensures
        r == count_action(decisions@, a, decisions@.len() as int),
{
    let mut n: usize = 0;
    let mut i: usize = 0;
    while i < decisions.len()
        invariant
            i <= decisions@.len(),
            n == count_action(decisions@, a, i as int),
        decreases decisions@.len() - i,
    {
        proof {
            lemma_count_bounded(decisions@, a, i as int);
        }
        if decisions[i].action == a {
            n = n + 1;
        }
        i = i + 1;
    }
    n
}

/// The stream indices kept by the planned decisions, in order.
pub fn default_keep_indices(decisions: &Vec<TrackDecision>) -> (r: Vec<u32>)
    ensures
        r@ == indices_with(decisions@, Action::Keep, decisions@.len() as int),
{
    let mut out: Vec<u32> = Vec::new();
    let mut i: usize = 0;
    while i < decisions.len()
        invariant
            i <= decisions@.len(),
            out@ == indices_with(decisions@, Action::Keep, i as int),
        decreases decisions@.len() - i,
    {
        if decisions[i].action == Action::Keep {
            out.push(decisions[i].index);
        }
        i = i + 1;
    }
    out
}

/// What a user answered to the strip confirmation prompt.
#[derive(Debug, Clone, Copy, PartialEq, Eq, Structural)]
pub enum ConfirmChoice {
    /// Apply the planned decisions.
    Accept,
    /// Cancel the operation.
    Decline,
    /// Choose the kept tracks one by one.
    Custom,
    /// An answer that is none of the above; the operation is cancelled.
    Invalid,
}

/// The choice that a lowercased, trimmed answer stands for.
pub open spec fn confirm_choice_spec(answer: Seq<char>) -> ConfirmChoice {
    if answer.len() == 0 || answer == "y"@ || answer == "yes"@ {
        ConfirmChoice::Accept
    } else if answer == "n"@ || answer == "no"@ {
        ConfirmChoice::Decline
    } else if answer == "c"@ || answer == "custom"@ {
        ConfirmChoice::Custom
    } else {
        ConfirmChoice::Invalid
    }
}

/// Classifies an answer that is already trimmed and lowercased.
pub fn confirm_choice_for(answer: &str) -> (r: ConfirmChoice)
    ensures
        r == confirm_choice_spec(answer@),
{
    if answer.is_empty() || str_eq(answer, "y") || str_eq(answer, "yes") {
        ConfirmChoice::Accept
    } else if str_eq(answer, "n") || str_eq(answer, "no") {
        ConfirmChoice::Decline
    } else if str_eq(answer, "c") || str_eq(answer, "custom") {
        ConfirmChoice::Custom
    } else {
        ConfirmChoice::Invalid
    }
}

/// Reads the answer to the strip confirmation prompt: it is trimmed, lowercased
/// and then classified.
pub fn parse_confirmation(input: &str) -> (r: ConfirmChoice)
    ensures
        r == confirm_choice_spec(lowercase_spec(trim_spec(input@))),
{
    let lowered = to_lowercase(trim(input));
    confirm_choice_for(lowered.as_str())
}

/// Whether an answer to "keep this track?" is a yes: `y` in any ASCII case,
/// surrounded by any white space.
pub fn is_yes_answer(input: &str) -> (r: bool)
    ensures
        r == eq_ignore_ascii_case_spec(trim_spec(input@), "y"@),
{
    eq_ignore_ascii_case(trim(input), "y")
}

/// Whether a custom selection of kept tracks may be applied: at least one
/// track must be kept.
pub fn custom_selection_is_valid(chosen: &Vec<u32>) -> (r: bool)
    ensures
        r == (chosen@.len() > 0),
{
    chosen.len() > 0
}

/// Track titles longer than this many characters are shortened in the table.
pub const TITLE_WIDTH: usize = 22;

/// The title as shown in the table: at most 22 characters, else its first 21
/// characters followed by an ellipsis.
pub fn short_title(title: &str) -> (r: String)
    ensures
        title@.len() <= 22 ==> r@ == title@,
        title@.len() > 22 ==> r@ == title@.subrange(0, 21) + "…"@,
{
    let chars = str_chars(title);
    if chars.len() > TITLE_WIDTH {
        let mut s = title.substring_char(0, 21).to_owned();
        s.append("…");
        s
    } else {
        title.to_owned()
    }
}

/// How a key is shown: keys longer than eight bytes as their first four
/// bytes, `...` and their last four bytes; shorter ones as `****`.
pub open spec fn masked_key_bytes(key: &str) -> Seq<u8> {
    let bytes = key.spec_bytes();
    if key.len() > 8 {
        bytes.subrange(0, 4) + encode_utf8("..."@) + bytes.subrange(
            key.len() - 4,
            bytes.len() as int,
        )
    } else {
        encode_utf8("****"@)
    }
}

proof fn lemma_encode_concat(a: Seq<char>, b: Seq<char>)
    ensures
        encode_utf8(a + b) =~= encode_utf8(a) + encode_utf8(b),
    decreases a.len(),
{
    if a.len() == 0 {
        assert(a + b =~= b);
    } else {
        assert((a + b).drop_first() =~= a.drop_first() + b);
        lemma_encode_concat(a.drop_first(), b);
    }
}

/// Masks an API key for display. A longer key is cut at its fourth byte and
/// four bytes before its end, which must fall between characters.
pub fn mask_api_key(key: &str) -> (r: String)
    requires
        key.len() > 8 ==> is_char_boundary(key.spec_bytes(), 4) && is_char_boundary(
            key.spec_bytes(),
            key.len() - 4,
        ),
    ensures
        encode_utf8(r@) == masked_key_bytes(key),
{
    let n = key.len();
    if n > 8 {
        let (head, _) = key.split_at(4);
        let (_, tail) = key.split_at(n - 4);
        let mut masked = head.to_owned();
        masked.append("...");
        masked.append(tail);
        proof {
            lemma_encode_concat(head@, "..."@);
            lemma_encode_concat(head@ + "..."@, tail@);
        }
        masked
    } else {
        "****".to_owned()
    }
}

} // verus!
