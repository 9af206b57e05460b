//! The stream retention decision: which audio tracks are kept and which are
//! stripped, given the film's resolved origin.
use vstd::prelude::*;

use crate::ai::{normalize_lang_code, normalized_code, origin_is_confident, FilmOrigin};
use crate::probe::{channel_label_spec, stream_is_und, AudioStream, MediaInfo};
use crate::text::{contains, seq_contains, str_eq, to_lowercase, lowercase_spec};
use crate::ui::{indices_with, Action, TrackDecision};

verus! {

/// Some stream carries the film's native language, and the origin is trusted.
/// Only then may anything be stripped.
pub open spec fn has_native_match_spec(streams: Seq<AudioStream>, origin: FilmOrigin) -> bool {
    &&& origin_is_confident(origin)
    &&& exists|i: int|
        0 <= i < streams.len() && normalized_code(#[trigger] streams[i].language@)
            == origin.native_lang_code@
}

/// The action and reason for one track of a file with several audio tracks.
/// `title_lower` is the track title, lowercased.
pub open spec fn track_verdict(
    s: AudioStream,
    title_lower: Seq<char>,
    native_code: Seq<char>,
    has_native_match: bool,
    primary_index: u32,
) -> (Action, Seq<char>) {
    if stream_is_und(s) {
        (Action::Keep, "Unknown tag (Fail-safe preserved)"@)
    } else if has_native_match && normalized_code(s.language@) == native_code {
        (Action::Keep, "Native theatrical track"@)
    } else if !has_native_match && (s.is_original || seq_contains(title_lower, "original"@)) {
        (Action::Keep, "Original tag preserved"@)
    } else if !has_native_match && s.is_default {
        (Action::Keep, "Default stream fallback"@)
    } else if has_native_match {
        (Action::Strip, "Dubbed audio track"@)
    } else if s.index == primary_index {
        (Action::Keep, "Primary audio fallback"@)
    } else {
        (Action::Keep, "Preserved (Uncertain origin)"@)
    }
}

/// Decides one track of a multi-track file. `title_lower` is its lowercased
/// title, `primary_index` the index of the file's first audio stream.
pub fn classify_track(
    s: &AudioStream,
    title_lower: &str,
    native_code: &str,
    has_native_match: bool,
    primary_index: u32,
) -> (r: (Action, &'static str))
    ensures
        (r.0, r.1@) == track_verdict(*s, title_lower@, native_code@, has_native_match, primary_index),
{
    if s.is_und() {
        (Action::Keep, "Unknown tag (Fail-safe preserved)")
    } else if has_native_match && str_eq(normalize_lang_code(s.language.as_str()), native_code) {
        (Action::Keep, "Native theatrical track")
    } else if !has_native_match && (s.is_original || contains(title_lower, "original")) {
        (Action::Keep, "Original tag preserved")
    } else if !has_native_match && s.is_default {
        (Action::Keep, "Default stream fallback")
    } else if has_native_match {
        (Action::Strip, "Dubbed audio track")
    } else if s.index == primary_index {
        (Action::Keep, "Primary audio fallback")
    } else {
        (Action::Keep, "Preserved (Uncertain origin)")
    }
}

/// Whether some stream's normalised language is `native_code`.
fn any_stream_in(streams: &Vec<AudioStream>, native_code: &str) -> (r: bool)
    ensures
        r == exists|i: int|
            0 <= i < streams@.len() && normalized_code(#[trigger] streams@[i].language@)
                == native_code@,
{
    let mut i: usize = 0;
    while i < streams.len()
        invariant
            i <= streams@.len(),
            forall|j: int|
                0 <= j < i ==> normalized_code(#[trigger] streams@[j].language@) != native_code@,
        decreases streams@.len() - i,
    {
        if str_eq(normalize_lang_code(streams[i].language.as_str()), native_code) {
            return true;
        }
        i = i + 1;
    }
    false
}

/// The shown fields of a decision are those of its stream.
pub open spec fn describes(d: TrackDecision, s: AudioStream) -> bool {
    &&& d.index == s.index
    &&& d.language@ == s.language@
    &&& d.codec@ == s.codec@
    &&& d.channels@ == channel_label_spec(s.channels)
    &&& d.title@ == s.title@
}

fn decision_for(s: &AudioStream, action: Action, reason: &str) -> (d: TrackDecision)
    ensures
        describes(d, *s),
        d.action == action,
        d.reason@ == reason@,
{
    TrackDecision {
        index: s.index,
        language: s.language.clone(),
        codec: s.codec.clone(),
        channels: s.channel_layout_label().to_owned(),
        title: s.title.clone(),
        action,
        reason: reason.to_owned(),
    }
}

/// Evaluates every audio stream against the film's origin.
///
/// A file with a single audio stream is never touched. With several streams,
/// each is decided by `track_verdict`: untagged streams are always kept; when
/// the origin is trusted and some stream carries the native language, native
/// streams are kept and the others are stripped as dubs; otherwise every
/// stream is kept. At least one stream is always kept.
pub fn evaluate_audio_streams(media: &MediaInfo, origin: &FilmOrigin) -> (r: Vec<TrackDecision>)
    ensures
        r@.len() == media.audio_streams@.len(),
        forall|i: int|
            0 <= i < r@.len() ==> describes(#[trigger] r@[i], media.audio_streams@[i]),
        media.audio_streams@.len() <= 1 ==> forall|i: int|
            0 <= i < r@.len() ==> (#[trigger] r@[i]).action == Action::Keep && r@[i].reason@
                == "Only audio stream"@,
        media.audio_streams@.len() > 1 ==> forall|i: int|
            0 <= i < r@.len() ==> ((#[trigger] r@[i]).action, r@[i].reason@) == track_verdict(
                media.audio_streams@[i],
                lowercase_spec(media.audio_streams@[i].title@),
                origin.native_lang_code@,
                has_native_match_spec(media.audio_streams@, *origin),
                media.audio_streams@[0].index,
            ),
        // At least one audio track is always kept.
        r@.len() > 0 ==> exists|i: int| 0 <= i < r@.len() && (#[trigger] r@[i]).action
            == Action::Keep,
        // An origin that is not trusted strips nothing.
        !origin_is_confident(*origin) ==> forall|i: int|
            0 <= i < r@.len() ==> (#[trigger] r@[i]).action == Action::Keep,
        // Untagged streams are never stripped.
        forall|i: int|
            0 <= i < r@.len() && stream_is_und(media.audio_streams@[i]) ==> (
            #[trigger] r@[i]).action == Action::Keep,
        // Only a dub of a trusted origin that is present in the file is stripped.
        forall|i: int|
            0 <= i < r@.len() && (#[trigger] r@[i]).action == Action::Strip ==> {
                &&& has_native_match_spec(media.audio_streams@, *origin)
                &&& normalized_code(media.audio_streams@[i].language@) != origin.native_lang_code@
            },
{
    let streams = &media.audio_streams;
    let mut decisions: Vec<TrackDecision> = Vec::new();
    let total_audio = streams.len();

    if total_audio <= 1 {
        let mut i: usize = 0;
        while i < total_audio
            invariant
                total_audio == streams@.len(),
                total_audio <= 1,
                i <= total_audio,
                decisions@.len() == i,
                forall|j: int|
                    0 <= j < i ==> describes(#[trigger] decisions@[j], streams@[j])
                        && decisions@[j].action == Action::Keep && decisions@[j].reason@
                        == "Only audio stream"@,
            decreases total_audio - i,
        {
            decisions.push(decision_for(&streams[i], Action::Keep, "Only audio stream"));
            i = i + 1;
        }
        if total_audio == 1 {
            assert(decisions@[0].action == Action::Keep);
        }
        return decisions;
    }

    let native_code = origin.native_lang_code.as_str();
    let has_native_match = origin.is_confident() && any_stream_in(streams, native_code);
    let primary_index = streams[0].index;
    let mut kept_count: usize = 0;
    let mut i: usize = 0;
    while i < total_audio
        invariant
            total_audio == streams@.len(),
            total_audio > 1,
            primary_index == streams@[0].index,
            native_code@ == origin.native_lang_code@,
            has_native_match == has_native_match_spec(streams@, *origin),
            i <= total_audio,
            decisions@.len() == i,
            kept_count <= i,
            kept_count > 0 <==> exists|j: int|
                0 <= j < i && (#[trigger] decisions@[j]).action == Action::Keep,
            forall|j: int|
                0 <= j < i ==> describes(#[trigger] decisions@[j], streams@[j]) && (
                decisions@[j].action,
                decisions@[j].reason@,
            ) == track_verdict(
                streams@[j],
                lowercase_spec(streams@[j].title@),
                native_code@,
                has_native_match,
                primary_index,
            ),
        decreases total_audio - i,
    {
        let ghost before = decisions@;
        let s = &streams[i];
        let title_lower = to_lowercase(s.title.as_str());
        let (action, reason) = classify_track(
            s,
            title_lower.as_str(),
            native_code,
            has_native_match,
            primary_index,
        );
        if action == Action::Keep {
            kept_count = kept_count + 1;
        }
        decisions.push(decision_for(s, action, reason));
        proof {
            assert(decisions@[i as int].action == action);
            assert(forall|j: int| 0 <= j < i ==> decisions@[j] == before[j]);
            if action != Action::Keep && kept_count > 0 {
                let w = choose|j: int| 0 <= j < i && (#[trigger] before[j]).action == Action::Keep;
                assert(decisions@[w].action == Action::Keep);
            }
        }
        i = i + 1;
    }

    proof {
        // Some track is kept: without a native match every verdict keeps; with
        // one, the native stream is kept.
        if has_native_match {
            let w = choose|k: int|
                0 <= k < streams@.len() && normalized_code(#[trigger] streams@[k].language@)
                    == origin.native_lang_code@;
            assert(decisions@[w].action == Action::Keep);
        } else {
            assert(decisions@[0].action == Action::Keep);
        }
    }

    // A file never loses all of its audio.
    if kept_count == 0 && decisions.len() > 0 {
        let first = decision_for(&streams[0], Action::Keep, "Emergency single track keeper");
        decisions.set(0, first);
    }
    decisions
}

/// Law: a plan that keeps some track hands a non-empty list of kept streams
/// to the remux, so a stripped file always keeps audio.
pub proof fn law_kept_tracks_reach_the_remux(ds: Seq<TrackDecision>)
    requires
        exists|i: int| 0 <= i < ds.len() && (#[trigger] ds[i]).action == Action::Keep,
    ensures
        indices_with(ds, Action::Keep, ds.len() as int).len() > 0,
{
    let w = choose|i: int| 0 <= i < ds.len() && (#[trigger] ds[i]).action == Action::Keep;
    lemma_indices_grow(ds, w + 1, ds.len() as int);
}

proof fn lemma_indices_grow(ds: Seq<TrackDecision>, m: int, n: int)
    requires
        0 < m <= n <= ds.len(),
        ds[m - 1].action == Action::Keep,
    ensures
        indices_with(ds, Action::Keep, n).len() > 0,
    decreases n - m,
{
    if n > m {
        lemma_indices_grow(ds, m, n - 1);
    }
}

} // verus!
