//! What a strip run or a library sweep does with a file once its tracks are
//! decided.
use vstd::prelude::*;

use crate::ai::{origin_is_confident, FilmOrigin};
use crate::paths::{extension, extension_spec};
use crate::text::{decimal, decimal_string, str_eq, to_lowercase, lowercase_spec};
use crate::ui::{count_action, count_with_action, Action, TrackDecision};

verus! {

/// How an origin is described: `<language> [<confidence>% confident] (via <source>)`.
pub open spec fn origin_description_spec(o: FilmOrigin) -> Seq<char> {
    o.native_lang_name@ + " ["@ + decimal(o.confidence as nat) + "% confident] (via "@ + o.source@
        + ")"@
}

pub fn origin_description(origin: &FilmOrigin) -> (r: String)
    ensures
        r@ == origin_description_spec(*origin),
{
    let mut s = origin.native_lang_name.clone();
    s.append(" [");
    let conf = decimal_string(origin.confidence as u128);
    s.append(conf.as_str());
    s.append("% confident] (via ");
    s.append(origin.source.as_str());
    s.append(")");
    s
}

/// What a strip run does with a decided file.
#[derive(Debug, Clone, Copy, PartialEq, Eq, Structural)]
pub enum StripPlan {
    /// Nothing to strip: only the native audio is present.
    AlreadyClean,
    /// Nothing stripped because the origin is not trusted: every track is
    /// kept, and the preservation is reported.
    PreserveMulti,
    /// Would strip this many tracks; nothing is changed.
    DryRun(usize),
    /// Strip this many tracks (after confirmation).
    Remux(usize),
}

/// Decides what a strip run does: with nothing to strip the file is clean (or,
/// when the origin is not trusted, preserved as multi-audio); otherwise the
/// dubs are stripped, or only counted in a dry run.
pub fn plan_strip(decisions: &Vec<TrackDecision>, origin: &FilmOrigin, dry_run: bool) -> (r:
    StripPlan)
    ensures
        ({
            let strips = count_action(decisions@, Action::Strip, decisions@.len() as int);
            if strips == 0 {
                if origin_is_confident(*origin) {
                    r == StripPlan::AlreadyClean
                } else {
                    r == StripPlan::PreserveMulti
                }
            } else if dry_run {
                r == StripPlan::DryRun(strips as usize)
            } else {
                r == StripPlan::Remux(strips as usize)
            }
        }),
{
    let strip_count = count_with_action(decisions, Action::Strip);
    if strip_count == 0 {
        if origin.is_confident() {
            StripPlan::AlreadyClean
        } else {
            StripPlan::PreserveMulti
        }
    } else if dry_run {
        StripPlan::DryRun(strip_count)
    } else {
        StripPlan::Remux(strip_count)
    }
}

/// A lowercased extension of a video that a sweep considers.
pub open spec fn is_video_extension_spec(lowered: Seq<char>) -> bool {
    lowered == "mkv"@ || lowered == "mp4"@
}

/// The file is a video that a sweep considers: its extension is `mkv` or
/// `mp4` in any case.
pub open spec fn is_sweep_video_spec(path: Seq<char>) -> bool {
    match extension_spec(path) {
        Some(e) => is_video_extension_spec(lowercase_spec(e)),
        None => false,
    }
}

/// Whether a lowercased extension is `mkv` or `mp4`.
pub fn is_video_extension(lowered: &str) -> (r: bool)
    ensures
        r == is_video_extension_spec(lowered@),
{
    str_eq(lowered, "mkv") || str_eq(lowered, "mp4")
}

pub fn is_sweep_video(path: &str) -> (r: bool)
    ensures
        r == is_sweep_video_spec(path@),
{
    match extension(path) {
        Some(e) => {
            let lower = to_lowercase(e);
            is_video_extension(lower.as_str())
        },
        None => false,
    }
}

/// How a resolved origin is announced: a recognised language trusted to strip
/// audio, a recognised language too uncertain to act on, or no language.
#[derive(Debug, Clone, Copy, PartialEq, Eq, Structural)]
pub enum OriginBanner {
    Confident,
    Uncertain,
    Unresolved,
}

pub open spec fn origin_banner_spec(origin: FilmOrigin) -> OriginBanner {
    if origin.native_lang_code@ == "und"@ {
        OriginBanner::Unresolved
    } else if origin_is_confident(origin) {
        OriginBanner::Confident
    } else {
        OriginBanner::Uncertain
    }
}

/// Chooses the banner for a resolved origin: `und` is unresolved, else the
/// origin is confident or uncertain as `FilmOrigin::is_confident` says.
pub fn origin_banner(origin: &FilmOrigin) -> (r: OriginBanner)
    ensures
        r == origin_banner_spec(*origin),
{
    if str_eq(origin.native_lang_code.as_str(), "und") {
        OriginBanner::Unresolved
    } else if origin.is_confident() {
        OriginBanner::Confident
    } else {
        OriginBanner::Uncertain
    }
}

/// How many remuxes of a sweep succeeded.
pub open spec fn successes(outcomes: Seq<Option<u64>>) -> int
    decreases outcomes.len(),
{
    if outcomes.len() == 0 {
        0
    } else {
        successes(outcomes.drop_last()) + if outcomes.last() is Some {
            1int
        } else {
            0int
        }
    }
}

/// The bytes that the successful remuxes of a sweep reclaimed, together.
pub open spec fn bytes_saved(outcomes: Seq<Option<u64>>) -> int
    decreases outcomes.len(),
{
    if outcomes.len() == 0 {
        0
    } else {
        bytes_saved(outcomes.drop_last()) + match outcomes.last() {
            Some(b) => b as int,
            None => 0int,
        }
    }
}

proof fn lemma_totals_bounds(outcomes: Seq<Option<u64>>)
    ensures
        0 <= successes(outcomes) <= outcomes.len(),
        0 <= bytes_saved(outcomes),
    decreases outcomes.len(),
{
    if outcomes.len() > 0 {
        lemma_totals_bounds(outcomes.drop_last());
    }
}

proof fn lemma_saved_grows(outcomes: Seq<Option<u64>>, i: int, j: int)
    requires
        0 <= i <= j <= outcomes.len(),
    ensures
        bytes_saved(outcomes.subrange(0, i)) <= bytes_saved(outcomes.subrange(0, j)),
    decreases j - i,
{
    if j > i {
        lemma_saved_grows(outcomes, i, j - 1);
        assert(outcomes.subrange(0, j).drop_last() =~= outcomes.subrange(0, j - 1));
    }
}

/// Totals a sweep: how many of its remuxes succeeded, and the bytes they
/// reclaimed together (`outcomes` holds each job's reclaimed bytes, `None`
/// for a failed remux).
pub fn sweep_totals(outcomes: &Vec<Option<u64>>) -> (r: (usize, u64))
    requires
        bytes_saved(outcomes@) <= u64::MAX,
    ensures
        r.0 == successes(outcomes@),
        r.1 == bytes_saved(outcomes@),
{
    let mut successful: usize = 0;
    let mut total_saved: u64 = 0;
    let mut i: usize = 0;
    while i < outcomes.len()
        invariant
            i <= outcomes@.len(),
            bytes_saved(outcomes@) <= u64::MAX,
            successful == successes(outcomes@.subrange(0, i as int)),
            total_saved == bytes_saved(outcomes@.subrange(0, i as int)),
        decreases outcomes@.len() - i,
    {
        proof {
            lemma_saved_grows(outcomes@, i + 1, outcomes@.len() as int);
            lemma_totals_bounds(outcomes@.subrange(0, i + 1));
            assert(outcomes@.subrange(0, i + 1).drop_last() =~= outcomes@.subrange(0, i as int));
            assert(outcomes@.subrange(0, outcomes@.len() as int) =~= outcomes@);
        }
        match outcomes[i] {
            Some(saved) => {
                total_saved = total_saved + saved;
                successful = successful + 1;
            },
            None => {},
        }
        i = i + 1;
    }
    assert(outcomes@.subrange(0, outcomes@.len() as int) =~= outcomes@);
    (successful, total_saved)
}

} // verus!
