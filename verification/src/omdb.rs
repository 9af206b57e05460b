//! Film origin lookup in a local cache of OMDb metadata records.
use vstd::prelude::*;

use crate::ai::{normalize_lang_code, normalized_code, FilmOrigin};
use crate::json::{json_str_at, str_at};
use crate::text::{
    contains, decimal, decimal_string, eq_ignore_ascii_case, eq_ignore_ascii_case_spec,
    find_char, first_index_of, seq_contains, str_eq, trim, trim_spec,
};

verus! {

/// The fields of one cached OMDb record that the lookup reads.
#[derive(Debug, Clone)]
pub struct OmdbRecord {
    pub title: Option<String>,
    pub year: Option<String>,
    pub language: Option<String>,
    pub country: Option<String>,
}

pub open spec fn opt_view(o: Option<String>) -> Option<Seq<char>> {
    match o {
        Some(s) => Some(s@),
        None => None,
    }
}

/// The record's fields as text: title, year, language list and country list.
pub type OmdbFields = (Option<Seq<char>>, Option<Seq<char>>, Option<Seq<char>>, Option<Seq<char>>);

impl View for OmdbRecord {
    type V = OmdbFields;

    open spec fn view(&self) -> OmdbFields {
        (opt_view(self.title), opt_view(self.year), opt_view(self.language), opt_view(self.country))
    }
}

/// The fields that a cached JSON document holds at `Title`, `Year`,
/// `Language` and `Country`.
pub open spec fn omdb_fields_of_json(text: Seq<char>) -> OmdbFields {
    (
        json_str_at(text, "/Title"@),
        json_str_at(text, "/Year"@),
        json_str_at(text, "/Language"@),
        json_str_at(text, "/Country"@),
    )
}

/// Reads the fields of a cached OMDb document.
pub fn omdb_record_from_json(text: &str) -> (r: OmdbRecord)
    ensures
        r@ == omdb_fields_of_json(text@),
{
    OmdbRecord {
        title: str_at(text, "/Title"),
        year: str_at(text, "/Year"),
        language: str_at(text, "/Language"),
        country: str_at(text, "/Country"),
    }
}

/// The first language of a comma-separated language list, trimmed.
pub open spec fn first_language(list: Seq<char>) -> Seq<char> {
    match first_index_of(list, ',') {
        Some(i) => trim_spec(list.subrange(0, i)),
        None => trim_spec(list),
    }
}

/// The record's year agrees with the requested one: it mentions the year, or
/// one of the two is unknown.
pub open spec fn year_matches(year: Option<u32>, cached_year: Option<Seq<char>>) -> bool {
    match (year, cached_year) {
        (Some(y), Some(cy)) => seq_contains(cy, decimal(y as nat)),
        _ => true,
    }
}

/// Some stream carries the language `code`, by normalised code or by tag.
pub open spec fn lang_in_streams(streams: Seq<String>, code: Seq<char>) -> bool {
    exists|i: int|
        0 <= i < streams.len() && (normalized_code(#[trigger] streams[i]@) == code
            || eq_ignore_ascii_case_spec(streams[i]@, code))
}

/// How well a record fits the film: `None` when it is another film (title or
/// year differ) or names no language; otherwise 10, plus 100 when its language
/// is among the streams (minus 100 when it is not and there are streams), plus
/// 20 for an Indian production.
pub open spec fn omdb_score(f: OmdbFields, title: Seq<char>, year: Option<u32>, streams: Seq<
    String,
>) -> Option<int> {
    match (f.0, f.2) {
        (Some(cached_title), Some(lang)) => if eq_ignore_ascii_case_spec(cached_title, title)
            && year_matches(year, f.1) {
            let code = normalized_code(first_language(lang));
            let country = match f.3 {
                Some(c) => c,
                None => Seq::empty(),
            };
            let lang_bonus: int = if lang_in_streams(streams, code) {
                100
            } else if streams.len() > 0 {
                -100
            } else {
                0
            };
            let country_bonus: int = if seq_contains(country, "India"@) {
                20
            } else {
                0
            };
            Some(10 + lang_bonus + country_bonus)
        } else {
            None
        },
        _ => None,
    }
}

/// The origin a fitting record describes.
pub open spec fn omdb_origin(f: OmdbFields, year: Option<u32>, o: FilmOrigin) -> bool {
    let lang = f.2.unwrap();
    let country = match f.3 {
        Some(c) => c,
        None => Seq::empty(),
    };
    &&& o.title@ == f.0.unwrap()
    &&& o.year == year
    &&& o.native_lang_code@ == normalized_code(first_language(lang))
    &&& o.native_lang_name@ == first_language(lang)
    &&& o.source@ == "Jellyfin OMDb Cache ("@ + country + ")"@
    &&& o.confidence == 100
}

fn first_language_of(list: &str) -> (r: &str)
    ensures
        r@ == first_language(list@),
{
    match find_char(list, ',') {
        Some(i) => trim(list.substring_char(0, i)),
        None => trim(list),
    }
}

fn any_stream_has(streams: &Vec<String>, code: &str) -> (r: bool)
    ensures
        r == lang_in_streams(streams@, code@),
{
    let mut i: usize = 0;
    while i < streams.len()
        invariant
            i <= streams@.len(),
            forall|j: int|
                0 <= j < i ==> !(normalized_code(#[trigger] streams@[j]@) == code@
                    || eq_ignore_ascii_case_spec(streams@[j]@, code@)),
        decreases streams@.len() - i,
    {
        let s = streams[i].as_str();
        if str_eq(normalize_lang_code(s), code) || eq_ignore_ascii_case(s, code) {
            return true;
        }
        i = i + 1;
    }
    false
}

/// Scores a cached record against the film and, when it describes the film,
/// gives the origin it states (with full confidence).
pub fn score_candidate(
    record: &OmdbRecord,
    title: &str,
    year: Option<u32>,
    stream_langs: &Vec<String>,
) -> (r: Option<(i32, FilmOrigin)>)
    ensures
        match r {
            Some((score, o)) => omdb_score(record@, title@, year, stream_langs@) == Some(
                score as int,
            ) && omdb_origin(record@, year, o),
            None => omdb_score(record@, title@, year, stream_langs@) is None,
        },
{
    let cached_title = match &record.title {
        Some(t) => t,
        None => return None,
    };
    if !eq_ignore_ascii_case(cached_title.as_str(), title) {
        return None;
    }
    let year_ok = match (year, &record.year) {
        (Some(y), Some(cy)) => {
            let digits = decimal_string(y as u128);
            contains(cy.as_str(), digits.as_str())
        },
        _ => true,
    };
    if !year_ok {
        return None;
    }
    let lang_list = match &record.language {
        Some(l) => l,
        None => return None,
    };
    let first_lang = first_language_of(lang_list.as_str());
    let norm = normalize_lang_code(first_lang);
    let country: &str = match &record.country {
        Some(c) => c.as_str(),
        None => "",
    };
    proof {
        reveal_strlit("");
        assert(""@ =~= Seq::<char>::empty());
    }
    let mut score: i32 = 10;
    if any_stream_has(stream_langs, norm) {
        score = score + 100;
    } else if stream_langs.len() > 0 {
        score = score - 100;
    }
    if contains(country, "India") {
        score = score + 20;
    }
    let mut source = "Jellyfin OMDb Cache (".to_owned();
    source.append(country);
    source.append(")");
    Some(
        (
            score,
            FilmOrigin {
                title: cached_title.clone(),
                year,
                native_lang_code: norm.to_owned(),
                native_lang_name: first_lang.to_owned(),
                source,
                confidence: 100,
            },
        ),
    )
}

/// The scores of the cached documents.
pub open spec fn cache_scores(files: Seq<String>, title: Seq<char>, year: Option<u32>, streams: Seq<
    String,
>) -> Seq<Option<int>> {
    Seq::new(
        files.len(),
        |i: int| omdb_score(omdb_fields_of_json(files[i]@), title, year, streams),
    )
}

/// The best of the first `n` scores: the first position holding the highest
/// score above -999, and that score; `(-1, -999)` when none has a score.
pub open spec fn best_candidate(scores: Seq<Option<int>>, n: int) -> (int, int)
    decreases n,
{
    if n <= 0 {
        (-1, -999)
    } else {
        let prev = best_candidate(scores, n - 1);
        match scores[n - 1] {
            Some(s) => if s > prev.1 {
                (n - 1, s)
            } else {
                prev
            },
            None => prev,
        }
    }
}

proof fn lemma_best_candidate(scores: Seq<Option<int>>, n: int)
    requires
        0 <= n <= scores.len(),
    ensures
        best_candidate(scores, n).0 == -1 ==> best_candidate(scores, n).1 == -999,
        best_candidate(scores, n).0 != -1 ==> 0 <= best_candidate(scores, n).0 < n
            && scores[best_candidate(scores, n).0] == Some(best_candidate(scores, n).1),
        best_candidate(scores, n).1 >= -999,
        forall|j: int|
            0 <= j < n ==> match #[trigger] scores[j] {
                Some(s) => s <= best_candidate(scores, n).1,
                None => true,
            },
    decreases n,
{
    if n > 0 {
        lemma_best_candidate(scores, n - 1);
    }
}

/// Looks the film up in the cached OMDb documents (the texts of the cache's
/// JSON files, in directory order): the first document with the highest
/// score wins, provided that score is positive.
pub fn search_local_jellyfin_cache(
    title: &str,
    year: Option<u32>,
    stream_langs: &Vec<String>,
    cache_files: &Vec<String>,
) -> (r: Option<FilmOrigin>)
    ensures
        ({
            let scores = cache_scores(cache_files@, title@, year, stream_langs@);
            let best = best_candidate(scores, scores.len() as int);
            &&& r is Some <==> best.1 > 0
            &&& r matches Some(o) ==> 0 <= best.0 < cache_files@.len() && omdb_origin(
                omdb_fields_of_json(cache_files@[best.0]@),
                year,
                o,
            )
        }),
        // A chosen record fits the film at least as well as every other one.
        r is Some ==> forall|j: int|
            0 <= j < cache_files@.len() ==> match #[trigger] cache_scores(
                cache_files@,
                title@,
                year,
                stream_langs@,
            )[j] {
                Some(s) => s <= best_candidate(
                    cache_scores(cache_files@, title@, year, stream_langs@),
                    cache_files@.len() as int,
                ).1,
                None => true,
            },
{
    let ghost scores = cache_scores(cache_files@, title@, year, stream_langs@);
    let mut best_score: i32 = -999;
    let mut best: Option<FilmOrigin> = None;
    let mut i: usize = 0;
    while i < cache_files.len()
        invariant
            scores == cache_scores(cache_files@, title@, year, stream_langs@),
            i <= cache_files@.len(),
            best_score as int == best_candidate(scores, i as int).1,
            best is None <==> best_candidate(scores, i as int).0 == -1,
            best matches Some(o) ==> 0 <= best_candidate(scores, i as int).0 < i && omdb_origin(
                omdb_fields_of_json(cache_files@[best_candidate(scores, i as int).0]@),
                year,
                o,
            ),
        decreases cache_files@.len() - i,
    {
        proof {
            lemma_best_candidate(scores, i as int);
        }
        let record = omdb_record_from_json(cache_files[i].as_str());
        match score_candidate(&record, title, year, stream_langs) {
            Some((score, origin)) => {
                if score > best_score {
                    best_score = score;
                    best = Some(origin);
                }
            },
            None => {},
        }
        i = i + 1;
    }
    proof {
        lemma_best_candidate(scores, scores.len() as int);
    }
    if best_score > 0 {
        best
    } else {
        None
    }
}

} // verus!
