//! The alert card sent after a file was processed: which tracks were kept and
//! stripped, and what the file weighs before and after.
use vstd::prelude::*;

use crate::remux::{format_bytes, format_bytes_spec};
use crate::ui::{count_action, Action, TrackDecision};

verus! {

/// The fields of an alert card.
#[derive(Debug, Clone)]
pub struct AudioStripNotification {
    pub title: String,
    pub origin: String,
    pub kept: String,
    pub stripped: String,
    pub prev_size: String,
    pub new_size: String,
    pub reclaimed: String,
}

/// How a track is listed: `<language> <channels> [<codec>]`.
pub open spec fn track_label(d: TrackDecision) -> Seq<char> {
    d.language@ + " "@ + d.channels@ + " ["@ + d.codec@ + "]"@
}

/// The labels of the first `n` decisions with action `a`, joined with `, `.
pub open spec fn summary_of(ds: Seq<TrackDecision>, a: Action, n: int) -> Seq<char>
    decreases n,
{
    if n <= 0 {
        Seq::empty()
    } else if ds[n - 1].action == a {
        if count_action(ds, a, n - 1) > 0 {
            summary_of(ds, a, n - 1) + ", "@ + track_label(ds[n - 1])
        } else {
            track_label(ds[n - 1])
        }
    } else {
        summary_of(ds, a, n - 1)
    }
}

proof fn lemma_summary_empty(ds: Seq<TrackDecision>, a: Action, n: int)
    requires
        count_action(ds, a, n) == 0,
    ensures
        summary_of(ds, a, n) == Seq::<char>::empty(),
    decreases n,
{
    if n > 0 {
        lemma_summary_empty(ds, a, n - 1);
    }
}

fn label_of(d: &TrackDecision) -> (r: String)
    ensures
        r@ == track_label(*d),
{
    let mut s = d.language.clone();
    s.append(" ");
    s.append(d.channels.as_str());
    s.append(" [");
    s.append(d.codec.as_str());
    s.append("]");
    s
}

/// The kept and the stripped tracks, each as a comma-separated list of labels
/// in track order.
pub fn format_track_summaries(decisions: &Vec<TrackDecision>) -> (r: (String, String))
    ensures
        r.0@ == summary_of(decisions@, Action::Keep, decisions@.len() as int),
        r.1@ == summary_of(decisions@, Action::Strip, decisions@.len() as int),
{
    let mut kept = String::new();
    let mut stripped = String::new();
    let mut any_kept = false;
    let mut any_stripped = false;
    let mut i: usize = 0;
    while i < decisions.len()
        invariant
            i <= decisions@.len(),
            kept@ == summary_of(decisions@, Action::Keep, i as int),
            stripped@ == summary_of(decisions@, Action::Strip, i as int),
            any_kept == (count_action(decisions@, Action::Keep, i as int) > 0),
            any_stripped == (count_action(decisions@, Action::Strip, i as int) > 0),
        decreases decisions@.len() - i,
    {
        let d = &decisions[i];
        let label = label_of(d);
        match d.action {
            Action::Keep => {
                if any_kept {
                    kept.append(", ");
                } else {
                    proof {
                        lemma_summary_empty(decisions@, Action::Keep, i as int);
                    }
                }
                kept.append(label.as_str());
                any_kept = true;
                assert(kept@ =~= summary_of(decisions@, Action::Keep, i + 1));
            },
            Action::Strip => {
                if any_stripped {
                    stripped.append(", ");
                } else {
                    proof {
                        lemma_summary_empty(decisions@, Action::Strip, i as int);
                    }
                }
                stripped.append(label.as_str());
                any_stripped = true;
                assert(stripped@ =~= summary_of(decisions@, Action::Strip, i + 1));
            },
        }
        i = i + 1;
    }
    (kept, stripped)
}

/// The card for a file whose dubs were stripped: `saved` of its `orig_size`
/// bytes were reclaimed.
pub fn notify_strip(
    title: &str,
    origin_desc: &str,
    decisions: &Vec<TrackDecision>,
    orig_size: u64,
    saved: u64,
) -> (r: AudioStripNotification)
    ensures
        r.title@ == title@,
        r.origin@ == origin_desc@,
        r.kept@ == summary_of(decisions@, Action::Keep, decisions@.len() as int),
        r.stripped@ == summary_of(decisions@, Action::Strip, decisions@.len() as int),
        r.prev_size@ == format_bytes_spec(orig_size),
        r.new_size@ == format_bytes_spec(
            if orig_size >= saved {
                (orig_size - saved) as u64
            } else {
                0
            },
        ),
        r.reclaimed@ == format_bytes_spec(saved),
{
    let (kept, stripped) = format_track_summaries(decisions);
    let new_size = orig_size.saturating_sub(saved);
    AudioStripNotification {
        title: title.to_owned(),
        origin: origin_desc.to_owned(),
        kept,
        stripped,
        prev_size: format_bytes(orig_size),
        new_size: format_bytes(new_size),
        reclaimed: format_bytes(saved),
    }
}

/// The card for a file kept whole (multi-audio preserved): nothing stripped,
/// nothing reclaimed.
pub fn notify_preserved_multi(
    title: &str,
    origin_desc: &str,
    decisions: &Vec<TrackDecision>,
    file_size: u64,
) -> (r: AudioStripNotification)
    ensures
        r.title@ == title@,
        r.origin@ == origin_desc@,
        r.kept@ == summary_of(decisions@, Action::Keep, decisions@.len() as int),
        r.stripped@ == "None (Preserved Multi)"@,
        r.prev_size@ == format_bytes_spec(file_size),
        r.new_size@ == format_bytes_spec(file_size),
        r.reclaimed@ == "0 B (Multi Kept)"@,
{
    let (kept, _) = format_track_summaries(decisions);
    AudioStripNotification {
        title: title.to_owned(),
        origin: origin_desc.to_owned(),
        kept,
        stripped: "None (Preserved Multi)".to_owned(),
        prev_size: format_bytes(file_size),
        new_size: format_bytes(file_size),
        reclaimed: "0 B (Multi Kept)".to_owned(),
    }
}

/// The notifier's command-line arguments for a card.
pub open spec fn notification_args_spec(n: AudioStripNotification) -> Seq<Seq<char>> {
    seq![
        "notify"@,
        "audio-strip"@,
        "--title"@,
        n.title@,
        "--origin"@,
        n.origin@,
        "--kept"@,
        n.kept@,
        "--stripped"@,
        n.stripped@,
        "--prev-size"@,
        n.prev_size@,
        "--new-size"@,
        n.new_size@,
        "--reclaimed"@,
        n.reclaimed@,
    ]
}

/// The arguments with which the notifier sends a card.
pub fn notification_args(n: &AudioStripNotification) -> (r: Vec<String>)
    ensures
        r@.len() == 16,
        forall|i: int| 0 <= i < 16 ==> (#[trigger] r@[i])@ == notification_args_spec(*n)[i],
{
    let mut v: Vec<String> = Vec::new();
    v.push("notify".to_owned());
    v.push("audio-strip".to_owned());
    v.push("--title".to_owned());
    v.push(n.title.clone());
    v.push("--origin".to_owned());
    v.push(n.origin.clone());
    v.push("--kept".to_owned());
    v.push(n.kept.clone());
    v.push("--stripped".to_owned());
    v.push(n.stripped.clone());
    v.push("--prev-size".to_owned());
    v.push(n.prev_size.clone());
    v.push("--new-size".to_owned());
    v.push(n.new_size.clone());
    v.push("--reclaimed".to_owned());
    v.push(n.reclaimed.clone());
    v
}

} // verus!
