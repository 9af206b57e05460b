use dubstrip::ai::{
    begin_origin_resolution, infer_origin_from_streams, lang_code_for_key, normalize_lang_code,
    parse_title_and_year, resolve_film_origin, title_and_year_from_cleaned, FilmOrigin,
    OriginLookup, ResolutionStep,
};
use dubstrip::gemini::{
    build_prompt, gemini_model_candidates, gemini_origin_from_response, gemini_request_url,
    is_retryable_status, next_retry_step, sanitize_filename_for_prompt, GeminiError,
    RequestOutcome, RetryStep,
};
use dubstrip::omdb::{omdb_record_from_json, score_candidate, search_local_jellyfin_cache};
use dubstrip::wikipedia::{
    begin_wikipedia_lookup, query_wikipedia_film_origin, WikipediaStep,
    language_in_extract, map_wikidata_qid, search_result_titles, search_url, summary_fields,
    summary_url, wikidata_language, wikidata_url, wikipedia_page_origin, wikipedia_search_queries,
};

fn origin(code: &str, name: &str, confidence: u8) -> FilmOrigin {
    FilmOrigin {
        title: "Test".to_string(),
        year: Some(2026),
        native_lang_code: code.to_string(),
        native_lang_name: name.to_string(),
        source: "Test".to_string(),
        confidence,
    }
}

fn strings(v: &[&str]) -> Vec<String> {
    v.iter().map(|s| s.to_string()).collect()
}

#[test]
fn test_normalize_lang_code() {
    assert_eq!(normalize_lang_code("kn"), "kan");
    assert_eq!(normalize_lang_code("kannada"), "kan");
    assert_eq!(normalize_lang_code("tel"), "tel");
    assert_eq!(normalize_lang_code("hindi"), "hin");
    assert_eq!(normalize_lang_code("en"), "eng");
}

#[test]
fn test_parse_title_and_year() {
    let (t1, y1) = parse_title_and_year("/movies/They Call Him OG (2025) [1080p].mkv");
    assert_eq!(t1, "They Call Him OG");
    assert_eq!(y1, Some(2025));

    let (t2, y2) = parse_title_and_year("/torrents/www.1TamilMV.day - 45 (2025) [DDP5.1].mkv");
    assert_eq!(t2, "45");
    assert_eq!(y2, Some(2025));
}

#[test]
fn test_film_origin_confidence() {
    let confident = origin("tam", "Tamil", 85);
    assert!(confident.is_confident());

    let unconfident = origin("tam", "Tamil", 65);
    assert!(!unconfident.is_confident());
}

#[test]
fn test_parse_title_and_year_mark() {
    let p = "/torrents/www.1TamilMV.haus - Mark (2026) TRUE WEB-DL - 1080p - AVC - [Tam + Tel + Mal + Kan] - (DD+5.1 - 192Kbps & AAC) - 4.2GB - ESub.mkv";
    let (title, year) = parse_title_and_year(p);
    assert_eq!(title, "Mark");
    assert_eq!(year, Some(2026));
}

#[test]
fn normalize_trims_and_lowercases() {
    assert_eq!(normalize_lang_code("  TAMIL \n"), "tam");
    assert_eq!(normalize_lang_code("Malayalam"), "mal");
    assert_eq!(normalize_lang_code("FRA"), "fre");
    assert_eq!(normalize_lang_code("deu"), "ger");
    assert_eq!(normalize_lang_code("zho"), "chi");
    assert_eq!(normalize_lang_code("pl"), "pol");
    assert_eq!(normalize_lang_code("und"), "und");
    assert_eq!(normalize_lang_code(""), "und");
    assert_eq!(normalize_lang_code("klingon"), "und");
}

#[test]
fn lang_code_for_key_is_case_sensitive() {
    assert_eq!(lang_code_for_key("japanese"), "jpn");
    assert_eq!(lang_code_for_key("Japanese"), "und");
    assert_eq!(lang_code_for_key("ko"), "kor");
}

#[test]
fn confidence_threshold_is_eighty_and_und_is_never_confident() {
    assert!(origin("tel", "Telugu", 80).is_confident());
    assert!(!origin("tel", "Telugu", 79).is_confident());
    assert!(!origin("und", "Unknown", 100).is_confident());
}

#[test]
fn title_without_year_or_brackets() {
    let (t, y) = parse_title_and_year("/media/Some.Film_.mkv");
    assert_eq!(t, "Some.Film");
    assert_eq!(y, None);
    let (t, y) = parse_title_and_year("/media/Film [1080p].mkv");
    assert_eq!(t, "Film");
    assert_eq!(y, None);
    let (t, _) = parse_title_and_year("");
    assert_eq!(t, "Unknown");
}

#[test]
fn title_and_year_from_cleaned_parses_digits() {
    let (t, y) = title_and_year_from_cleaned("- Title - (1999)", Some("1999".to_string()));
    assert_eq!(t, "Title");
    assert_eq!(y, Some(1999));
    let (_, y) = title_and_year_from_cleaned("X", Some("+42".to_string()));
    assert_eq!(y, Some(42));
    let (_, y) = title_and_year_from_cleaned("X", Some("١٢٣٤".to_string()));
    assert_eq!(y, None);
    let (_, y) = title_and_year_from_cleaned("X", Some("99999999999".to_string()));
    assert_eq!(y, None);
}

#[test]
fn tracker_prefix_in_brackets_is_removed() {
    let (t, y) = parse_title_and_year("/x/[1TamilMV.lat] Leo (2023) Tamil.mkv");
    assert_eq!(t, "Leo");
    assert_eq!(y, Some(2023));
}

#[test]
fn infers_origin_only_from_agreeing_streams() {
    let o = infer_origin_from_streams("Film", Some(2020), &strings(&["tam", "Tamil", "ta"]))
        .unwrap();
    assert_eq!(o.native_lang_code, "tam");
    assert_eq!(o.native_lang_name, "tam");
    assert_eq!(o.source, "Container Stream Consensus");
    assert_eq!(o.confidence, 90);
    assert!(infer_origin_from_streams("Film", None, &strings(&["tam", "tel"])).is_none());
    assert!(infer_origin_from_streams("Film", None, &strings(&["und", "und"])).is_none());
    assert!(infer_origin_from_streams("Film", None, &vec![]).is_none());
}

#[test]
fn resolution_tries_sources_in_order_and_falls_back() {
    let (query, step) = begin_origin_resolution(
        "/m/www.1TamilMV.day - Leo (2023).mkv",
        strings(&["tam", "tel"]),
    );
    assert_eq!(query.title, "Leo");
    assert_eq!(query.year, Some(2023));
    assert_eq!(query.raw_name, "www.1TamilMV.day - Leo (2023).mkv");
    assert!(matches!(step, ResolutionStep::Lookup(OriginLookup::JellyfinCache)));
    let step = resolve_film_origin(&query, OriginLookup::JellyfinCache, None);
    assert!(matches!(step, ResolutionStep::Lookup(OriginLookup::Wikipedia)));
    let step = resolve_film_origin(&query, OriginLookup::Wikipedia, None);
    assert!(matches!(step, ResolutionStep::Lookup(OriginLookup::Gemini)));
    match resolve_film_origin(&query, OriginLookup::Gemini, None) {
        ResolutionStep::Resolved(o) => {
            assert_eq!(o.native_lang_code, "und");
            assert_eq!(o.native_lang_name, "Unknown / Unresolved");
            assert_eq!(o.source, "Unresolved");
            assert_eq!(o.confidence, 0);
            assert_eq!(o.title, "Leo");
        }
        _ => panic!("resolution must end after Gemini"),
    }
}

#[test]
fn first_found_origin_wins() {
    let (query, _) = begin_origin_resolution("/m/Leo (2023).mkv", strings(&["tam"]));
    match resolve_film_origin(&query, OriginLookup::Wikipedia, Some(origin("tel", "Telugu", 100)))
    {
        ResolutionStep::Resolved(o) => assert_eq!(o.native_lang_code, "tel"),
        _ => panic!("a found origin decides"),
    }
    match resolve_film_origin(&query, OriginLookup::Gemini, None) {
        ResolutionStep::Resolved(o) => {
            assert_eq!(o.native_lang_code, "tam");
            assert_eq!(o.confidence, 90);
        }
        _ => panic!("resolution must end after Gemini"),
    }
}

const OMDB_LEO: &str = r#"{"Title":"Leo","Year":"2023","Language":"Tamil, Telugu","Country":"India"}"#;
const OMDB_OTHER: &str = r#"{"Title":"Leo","Year":"2023","Language":"English","Country":"USA"}"#;

#[test]
fn omdb_record_is_read_from_json() {
    let r = omdb_record_from_json(OMDB_LEO);
    assert_eq!(r.title.as_deref(), Some("Leo"));
    assert_eq!(r.year.as_deref(), Some("2023"));
    assert_eq!(r.language.as_deref(), Some("Tamil, Telugu"));
    assert_eq!(r.country.as_deref(), Some("India"));
    let bad = omdb_record_from_json("not json");
    assert!(bad.title.is_none());
}

#[test]
fn omdb_scoring_rewards_stream_language_and_india() {
    let r = omdb_record_from_json(OMDB_LEO);
    let (score, o) = score_candidate(&r, "LEO", Some(2023), &strings(&["tam", "tel"])).unwrap();
    assert_eq!(score, 130);
    assert_eq!(o.native_lang_code, "tam");
    assert_eq!(o.native_lang_name, "Tamil");
    assert_eq!(o.source, "Jellyfin OMDb Cache (India)");
    assert_eq!(o.confidence, 100);
    let r2 = omdb_record_from_json(OMDB_OTHER);
    let (score2, _) = score_candidate(&r2, "Leo", None, &strings(&["tam"])).unwrap();
    assert_eq!(score2, -90);
    assert!(score_candidate(&r, "Leo", Some(2019), &strings(&["tam"])).is_none());
    assert!(score_candidate(&r, "Jailer", Some(2023), &strings(&["tam"])).is_none());
}

#[test]
fn omdb_cache_picks_best_positive_match() {
    let files = strings(&[OMDB_OTHER, "garbage", OMDB_LEO]);
    let o = search_local_jellyfin_cache("Leo", Some(2023), &strings(&["tam"]), &files).unwrap();
    assert_eq!(o.native_lang_code, "tam");
    let only_other = strings(&[OMDB_OTHER]);
    assert!(search_local_jellyfin_cache("Leo", Some(2023), &strings(&["tam"]), &only_other)
        .is_none());
    assert!(search_local_jellyfin_cache("Leo", None, &vec![], &vec![]).is_none());
}

#[test]
fn wikidata_items_and_extracts_name_languages() {
    assert_eq!(map_wikidata_qid("Q5885"), Some(("Tamil", "tam")));
    assert_eq!(map_wikidata_qid("Q5146"), Some(("Portuguese", "por")));
    assert_eq!(map_wikidata_qid("Q1"), None);
    assert_eq!(
        language_in_extract("Leo is a 2023 Indian Tamil-language action film."),
        Some(("Tamil", "tam"))
    );
    assert_eq!(
        language_in_extract("a Hindi language film and a Kannada language remake"),
        Some(("Kannada", "kan"))
    );
    assert_eq!(language_in_extract("An American film."), None);
}

#[test]
fn wikipedia_queries_cover_variants_and_years() {
    let q = wikipedia_search_queries("Tom and Jerry", Some(2021));
    assert_eq!(
        q,
        strings(&[
            "Tom and Jerry 2021 film",
            "Tom and Jerry 2020 film",
            "Tom and Jerry film",
            "Tom and Jerry",
            "Tom & Jerry 2021 film",
            "Tom & Jerry 2020 film",
            "Tom & Jerry film",
            "Tom & Jerry",
        ])
    );
    let q = wikipedia_search_queries("Leo", None);
    assert_eq!(q, strings(&["Leo film", "Leo"]));
}

#[test]
fn wikipedia_urls() {
    assert_eq!(
        search_url("Leo 2023 film"),
        "https://en.wikipedia.org/w/api.php?action=query&list=search&srsearch=Leo+2023+film&format=json"
    );
    assert_eq!(
        summary_url("Leo (2023 Indian film)"),
        "https://en.wikipedia.org/api/rest_v1/page/summary/Leo_(2023_Indian_film)"
    );
    assert_eq!(wikidata_url("Q1"), "https://www.wikidata.org/wiki/Special:EntityData/Q1.json");
}

#[test]
fn wikipedia_responses_are_read() {
    let search = r#"{"query":{"search":[{"title":"A"},{"notitle":1},{"title":"C"},{"title":"D"}]}}"#;
    assert_eq!(search_result_titles(search), strings(&["A", "C"]));
    assert!(search_result_titles("<html>").is_empty());
    let summary = r#"{"wikibase_item":"Q42","extract":"A Telugu-language film"}"#;
    let (item, extract) = summary_fields(summary).unwrap();
    assert_eq!(item.as_deref(), Some("Q42"));
    assert_eq!(extract, "A Telugu-language film");
    assert!(summary_fields("oops").is_none());
    let entity = r#"{"entities":{"Q42":{"claims":{"P364":[{"mainsnak":{"datavalue":{"value":{"id":"Q8097"}}}}]}}}}"#;
    assert_eq!(wikidata_language(entity, "Q42"), Some(("Telugu", "tel")));
    assert_eq!(wikidata_language(entity, "Q43"), None);
}

#[test]
fn wikipedia_page_origin_requires_stream_match() {
    let streams = strings(&["tel", "hin"]);
    let o = wikipedia_page_origin("Film", Some(2020), &streams, Some(("Telugu", "tel")), "")
        .unwrap();
    assert_eq!(o.native_lang_code, "tel");
    assert_eq!(o.source, "Wikidata P364 / Wikipedia API");
    assert_eq!(o.confidence, 100);
    assert!(wikipedia_page_origin("Film", None, &streams, None, "a Tamil-language film").is_none());
    let o = wikipedia_page_origin("Film", None, &vec![], None, "a Tamil-language film").unwrap();
    assert_eq!(o.native_lang_name, "Tamil");
}

#[test]
fn gemini_candidates_and_url() {
    assert_eq!(
        gemini_model_candidates("my-model"),
        strings(&["my-model", "gemini-3.6-flash", "gemini-flash-latest"])
    );
    assert_eq!(
        gemini_request_url("m", "k"),
        "https://generativelanguage.googleapis.com/v1beta/models/m:generateContent?key=k"
    );
}

#[test]
fn gemini_retry_policy() {
    assert!(is_retryable_status(429));
    assert!(is_retryable_status(503));
    assert!(!is_retryable_status(404));
    assert_eq!(next_retry_step(0, RequestOutcome::Success), RetryStep::ReadResponse);
    assert_eq!(
        next_retry_step(0, RequestOutcome::HttpStatus(500)),
        RetryStep::RetryAfter { delay_secs: 1, next_attempt: 1 }
    );
    assert_eq!(
        next_retry_step(6, RequestOutcome::NetworkError),
        RetryStep::RetryAfter { delay_secs: 60, next_attempt: 7 }
    );
    assert_eq!(next_retry_step(7, RequestOutcome::NetworkError), RetryStep::GiveUp);
    assert_eq!(next_retry_step(0, RequestOutcome::HttpStatus(403)), RetryStep::GiveUp);
}

#[test]
fn gemini_prompt_is_sanitized() {
    assert_eq!(
        sanitize_filename_for_prompt("www.1TamilMV.day - Leo (2023) 1TamilMV.mkv"),
        "- Leo (2023) .mkv"
    );
    let p = build_prompt("Leo", Some(2023), &strings(&["tam", "tel"]), "www.1tamilmv.day Leo");
    assert!(p.starts_with("You are an expert film researcher."));
    assert!(p.contains("- Movie Title: \"Leo\"\n- Release Year: 2023\n"));
    assert!(p.contains("- Audio stream tracks in file: [\"tam\", \"tel\"]\n"));
    assert!(p.contains("- Raw release name: \"Leo\"\nCRITICAL RULES:\n1. Identify"));
    assert!(p.ends_with("- \"reason\": brief explanation"));
    let p = build_prompt("X", None, &vec![], "X");
    assert!(p.contains("- Release Year: Unknown\n"));
}

#[test]
fn gemini_answer_is_read() {
    let resp = r#"{"candidates":[{"content":{"parts":[{"text":"{\"language_code\":\"TA\",\"language_name\":\"Tamil\",\"confidence\":250}"}]}}]}"#;
    let o = gemini_origin_from_response("Leo", Some(2023), "m1", resp).unwrap();
    assert_eq!(o.native_lang_code, "tam");
    assert_eq!(o.native_lang_name, "Tamil");
    assert_eq!(o.confidence, 100);
    assert_eq!(o.source, "Gemini AI (m1)");
    let empty = r#"{"candidates":[]}"#;
    let o = gemini_origin_from_response("Leo", None, "m2", empty).unwrap();
    assert_eq!(o.native_lang_code, "und");
    assert_eq!(o.native_lang_name, "Unknown");
    assert_eq!(o.confidence, 70);
    assert_eq!(
        gemini_origin_from_response("Leo", None, "m", "nope").unwrap_err(),
        GeminiError::InvalidResponse
    );
    let bad_inner = r#"{"candidates":[{"content":{"parts":[{"text":"not json"}]}}]}"#;
    assert!(gemini_origin_from_response("Leo", None, "m", bad_inner).is_err());
}

#[test]
fn language_tags_are_lowercased_by_unicode_rules() {
    assert_eq!(normalize_lang_code("KAN"), "kan");
    assert_eq!(normalize_lang_code("\u{212A}an"), "kan");
    assert_eq!(normalize_lang_code("\u{3000}Hindi\u{85}"), "hin");
}

fn fetched_url(step: &WikipediaStep) -> String {
    match step {
        WikipediaStep::Fetch(url) => url.clone(),
        WikipediaStep::Finished(_) => panic!("lookup finished early"),
    }
}

#[test]
fn wikipedia_lookup_walks_pages_and_entities() {
    let (mut lookup, step) = begin_wikipedia_lookup("Leo", Some(2023), strings(&["tam", "tel"]));
    assert_eq!(
        fetched_url(&step),
        "https://en.wikipedia.org/w/api.php?action=query&list=search&srsearch=Leo+2023+film&format=json"
    );
    let search = r#"{"query":{"search":[{"title":"Leo (band)"},{"title":"Leo (2023 film)"}]}}"#;
    let step = query_wikipedia_film_origin(&mut lookup, Some(search.to_string()));
    assert_eq!(
        fetched_url(&step),
        "https://en.wikipedia.org/api/rest_v1/page/summary/Leo_(band)"
    );
    // The first page is about an English band: no stream carries English.
    let step = query_wikipedia_film_origin(
        &mut lookup,
        Some(r#"{"extract":"Leo is an English-language band."}"#.to_string()),
    );
    assert_eq!(
        fetched_url(&step),
        "https://en.wikipedia.org/api/rest_v1/page/summary/Leo_(2023_film)"
    );
    let step = query_wikipedia_film_origin(
        &mut lookup,
        Some(r#"{"wikibase_item":"Q7","extract":"A film."}"#.to_string()),
    );
    assert_eq!(fetched_url(&step), "https://www.wikidata.org/wiki/Special:EntityData/Q7.json");
    let entity = r#"{"entities":{"Q7":{"claims":{"P364":[{"mainsnak":{"datavalue":{"value":{"id":"Q5885"}}}}]}}}}"#;
    match query_wikipedia_film_origin(&mut lookup, Some(entity.to_string())) {
        WikipediaStep::Finished(Some(o)) => {
            assert_eq!(o.native_lang_code, "tam");
            assert_eq!(o.native_lang_name, "Tamil");
            assert_eq!(o.title, "Leo");
            assert_eq!(o.confidence, 100);
        }
        _ => panic!("the Tamil page decides"),
    }
}

#[test]
fn wikipedia_lookup_gives_up_after_all_queries() {
    let (mut lookup, mut step) = begin_wikipedia_lookup("Leo", None, strings(&["tam"]));
    let mut fetches = 0;
    loop {
        match step {
            WikipediaStep::Fetch(_) => {
                fetches += 1;
                step = query_wikipedia_film_origin(&mut lookup, None);
            }
            WikipediaStep::Finished(o) => {
                assert!(o.is_none());
                break;
            }
        }
    }
    assert_eq!(fetches, 2);
}

#[test]
fn gemini_candidates_must_be_arrays() {
    // `candidates` is an object with a member named "0": indexing by position
    // finds nothing there, so the answer falls back to `{}`.
    let object = r#"{"candidates":{"0":{"content":{"parts":[{"text":"{\"language_code\":\"ta\"}"}]}}}}"#;
    let o = gemini_origin_from_response("Leo", None, "m", object).unwrap();
    assert_eq!(o.native_lang_code, "und");
    assert_eq!(o.native_lang_name, "Unknown");
    assert_eq!(o.confidence, 70);
    let parts_object = r#"{"candidates":[{"content":{"parts":{"0":{"text":"{\"language_code\":\"ta\"}"}}}}]}"#;
    let o = gemini_origin_from_response("Leo", None, "m", parts_object).unwrap();
    assert_eq!(o.native_lang_code, "und");
}

#[test]
fn wikidata_entities_are_looked_up_by_key() {
    let by_key = r#"{"entities":{"0":{"claims":{"P364":[{"mainsnak":{"datavalue":{"value":{"id":"Q1568"}}}}]}}}}"#;
    assert_eq!(wikidata_language(by_key, "0"), Some(("Hindi", "hin")));
    let as_array = r#"{"entities":[{"claims":{"P364":[{"mainsnak":{"datavalue":{"value":{"id":"Q1568"}}}}]}}]}"#;
    assert_eq!(wikidata_language(as_array, "0"), None);
}

#[test]
fn language_codes_normalise_idempotently() {
    for tag in ["  TAMIL ", "Ger", "kn", "fra", "xyz", "ben", "", "\u{212A}an", "Deutsch"] {
        let once = normalize_lang_code(tag);
        assert_eq!(normalize_lang_code(once), once);
        assert_eq!(normalize_lang_code(&tag.trim().to_lowercase()), once);
    }
    assert_eq!(normalize_lang_code("  TAMIL "), "tam");
    assert_eq!(normalize_lang_code("Ger"), "ger");
    assert_eq!(normalize_lang_code("xyz"), "und");
    assert_eq!(normalize_lang_code("ben"), "und");
    assert_eq!(normalize_lang_code(""), "und");
}

#[test]
fn wikipedia_lookup_makes_seven_fetches_per_query() {
    // Every search lists three pages, every page has an entity, and no entity
    // names a language: each query costs a search, three summaries and three
    // entities before the next query.
    let title = "Fast and Furious";
    let queries = wikipedia_search_queries(title, Some(2009));
    assert_eq!(queries.len(), 8);
    let (mut lookup, mut step) = begin_wikipedia_lookup(title, Some(2009), strings(&["eng"]));
    let search = r#"{"query":{"search":[{"title":"A"},{"title":"B"},{"title":"C"},{"title":"D"}]}}"#;
    let summary = r#"{"wikibase_item":"Q1","extract":"Nothing to see."}"#;
    let entity = r#"{"entities":{"Q1":{"claims":{}}}}"#;
    let mut fetches = 0;
    let mut per_query = vec![0; queries.len()];
    loop {
        match step {
            WikipediaStep::Fetch(url) => {
                fetches += 1;
                per_query[lookup.query_index] += 1;
                let body = if url.contains("list=search") {
                    search
                } else if url.contains("/page/summary/") {
                    summary
                } else {
                    entity
                };
                step = query_wikipedia_film_origin(&mut lookup, Some(body.to_string()));
            }
            WikipediaStep::Finished(o) => {
                assert!(o.is_none());
                break;
            }
        }
    }
    assert!(per_query.iter().all(|&n| n == 7));
    assert_eq!(fetches, 7 * queries.len());
}
