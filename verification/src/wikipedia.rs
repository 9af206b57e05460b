//! Film origin lookup through Wikipedia search, page summaries and Wikidata's
//! original-language property (P364): the queries to send and what the answers
//! mean.
use vstd::prelude::*;

use crate::ai::{normalize_lang_code, normalized_code, FilmOrigin};
use crate::json::{array_len_at, json_array_len_at, json_parses, json_str_at, parses,
    pointer_token, pointer_token_spec, str_at};
use crate::omdb::lang_in_streams;
use crate::text::{
    opt_text,
    contains, decimal, decimal_string, eq_ignore_ascii_case, eq_ignore_ascii_case_spec,
    replace, replace_spec, seq_contains, str_eq,
};

verus! {

/// A language as (English name, three-letter code).
pub type Language = (&'static str, &'static str);

pub open spec fn lang_view(l: Language) -> (Seq<char>, Seq<char>) {
    (l.0@, l.1@)
}

pub open spec fn opt_lang_view(l: Option<Language>) -> Option<(Seq<char>, Seq<char>)> {
    match l {
        Some(x) => Some(lang_view(x)),
        None => None,
    }
}

/// The language that a Wikidata language item stands for.
pub open spec fn wikidata_language_spec(qid: Seq<char>) -> Option<(Seq<char>, Seq<char>)> {
    if qid == "Q1568"@ {
        Some(("Hindi"@, "hin"@))
    } else if qid == "Q36186"@ {
        Some(("Kannada"@, "kan"@))
    } else if qid == "Q5885"@ {
        Some(("Tamil"@, "tam"@))
    } else if qid == "Q8097"@ {
        Some(("Telugu"@, "tel"@))
    } else if qid == "Q36236"@ {
        Some(("Malayalam"@, "mal"@))
    } else if qid == "Q1860"@ {
        Some(("English"@, "eng"@))
    } else if qid == "Q5287"@ {
        Some(("Japanese"@, "jpn"@))
    } else if qid == "Q7026"@ {
        Some(("Korean"@, "kor"@))
    } else if qid == "Q1362"@ {
        Some(("Spanish"@, "spa"@))
    } else if qid == "Q150"@ {
        Some(("French"@, "fre"@))
    } else if qid == "Q7737"@ {
        Some(("Russian"@, "rus"@))
    } else if qid == "Q188"@ {
        Some(("German"@, "ger"@))
    } else if qid == "Q652"@ {
        Some(("Italian"@, "ita"@))
    } else if qid == "Q9610"@ {
        Some(("Bengali"@, "ben"@))
    } else if qid == "Q1571"@ {
        Some(("Marathi"@, "mar"@))
    } else if qid == "Q5146"@ {
        Some(("Portuguese"@, "por"@))
    } else {
        None
    }
}

/// Maps a Wikidata language item id to the language it stands for.
pub fn map_wikidata_qid(qid: &str) -> (r: Option<Language>)
    ensures
        opt_lang_view(r) == wikidata_language_spec(qid@),
{
    if str_eq(qid, "Q1568") {
        Some(("Hindi", "hin"))
    } else if str_eq(qid, "Q36186") {
        Some(("Kannada", "kan"))
    } else if str_eq(qid, "Q5885") {
        Some(("Tamil", "tam"))
    } else if str_eq(qid, "Q8097") {
        Some(("Telugu", "tel"))
    } else if str_eq(qid, "Q36236") {
        Some(("Malayalam", "mal"))
    } else if str_eq(qid, "Q1860") {
        Some(("English", "eng"))
    } else if str_eq(qid, "Q5287") {
        Some(("Japanese", "jpn"))
    } else if str_eq(qid, "Q7026") {
        Some(("Korean", "kor"))
    } else if str_eq(qid, "Q1362") {
        Some(("Spanish", "spa"))
    } else if str_eq(qid, "Q150") {
        Some(("French", "fre"))
    } else if str_eq(qid, "Q7737") {
        Some(("Russian", "rus"))
    } else if str_eq(qid, "Q188") {
        Some(("German", "ger"))
    } else if str_eq(qid, "Q652") {
        Some(("Italian", "ita"))
    } else if str_eq(qid, "Q9610") {
        Some(("Bengali", "ben"))
    } else if str_eq(qid, "Q1571") {
        Some(("Marathi", "mar"))
    } else if str_eq(qid, "Q5146") {
        Some(("Portuguese", "por"))
    } else {
        None
    }
}

/// The summary text names the language, as `<Name>-language` or `<Name> language`.
pub open spec fn mentions_language(extract: Seq<char>, name: Seq<char>) -> bool {
    seq_contains(extract, name + "-language"@) || seq_contains(extract, name + " language"@)
}

/// The first language, in the order Kannada, Hindi, Tamil, Telugu, Malayalam,
/// English, that a page summary mentions.
pub open spec fn extract_language_spec(extract: Seq<char>) -> Option<(Seq<char>, Seq<char>)> {
    if mentions_language(extract, "Kannada"@) {
        Some(("Kannada"@, "kan"@))
    } else if mentions_language(extract, "Hindi"@) {
        Some(("Hindi"@, "hin"@))
    } else if mentions_language(extract, "Tamil"@) {
        Some(("Tamil"@, "tam"@))
    } else if mentions_language(extract, "Telugu"@) {
        Some(("Telugu"@, "tel"@))
    } else if mentions_language(extract, "Malayalam"@) {
        Some(("Malayalam"@, "mal"@))
    } else if mentions_language(extract, "English"@) {
        Some(("English"@, "eng"@))
    } else {
        None
    }
}

fn mentions(extract: &str, name: &str) -> (r: bool)
    ensures
        r == mentions_language(extract@, name@),
{
    let mut hyphen = name.to_owned();
    hyphen.append("-language");
    let mut spaced = name.to_owned();
    spaced.append(" language");
    contains(extract, hyphen.as_str()) || contains(extract, spaced.as_str())
}

/// The language that a Wikipedia page summary names, if any.
pub fn language_in_extract(extract: &str) -> (r: Option<Language>)
    ensures
        opt_lang_view(r) == extract_language_spec(extract@),
{
    if mentions(extract, "Kannada") {
        Some(("Kannada", "kan"))
    } else if mentions(extract, "Hindi") {
        Some(("Hindi", "hin"))
    } else if mentions(extract, "Tamil") {
        Some(("Tamil", "tam"))
    } else if mentions(extract, "Telugu") {
        Some(("Telugu", "tel"))
    } else if mentions(extract, "Malayalam") {
        Some(("Malayalam", "mal"))
    } else if mentions(extract, "English") {
        Some(("English", "eng"))
    } else {
        None
    }
}

/// The title written with `&` in place of ` and `, and with ` and ` in place
/// of ` & `, where these occur.
pub open spec fn title_variants_spec(title: Seq<char>) -> Seq<Seq<char>> {
    let base = seq![title];
    let with_amp = if seq_contains(title, " and "@) {
        base.push(replace_spec(title, " and "@, " & "@))
    } else {
        base
    };
    if seq_contains(title, " & "@) {
        with_amp.push(replace_spec(title, " & "@, " and "@))
    } else {
        with_amp
    }
}

/// The search queries for one title variant.
pub open spec fn variant_queries(t: Seq<char>, year: Option<u32>) -> Seq<Seq<char>> {
    let dated = match year {
        Some(y) => seq![
            t + " "@ + decimal(y as nat) + " film"@,
            t + " "@ + decimal((if y > 0 { y - 1 } else { 0 }) as nat) + " film"@,
        ],
        None => Seq::empty(),
    };
    dated + seq![t + " film"@, t]
}

/// All search queries, variant by variant.
pub open spec fn queries_spec(variants: Seq<Seq<char>>, year: Option<u32>, n: int) -> Seq<
    Seq<char>,
>
    decreases n,
{
    if n <= 0 {
        Seq::empty()
    } else {
        queries_spec(variants, year, n - 1) + variant_queries(variants[n - 1], year)
    }
}

pub open spec fn strings_view(v: Seq<String>) -> Seq<Seq<char>> {
    Seq::new(v.len(), |i: int| v[i]@)
}

fn push_query(queries: &mut Vec<String>, parts: &[&str])
    ensures
        final(queries)@.len() == old(queries)@.len() + 1,
        forall|i: int| 0 <= i < old(queries)@.len() ==> final(queries)@[i] == old(queries)@[i],
        final(queries)@[old(queries)@.len() as int]@ == join_parts(parts@, parts@.len() as int),
{
    let mut s = String::new();
    let mut i: usize = 0;
    while i < parts.len()
        invariant
            i <= parts@.len(),
            s@ == join_parts(parts@, i as int),
        decreases parts@.len() - i,
    {
        s.append(parts[i]);
        i = i + 1;
    }
    queries.push(s);
}

/// The concatenation of the first `n` parts.
pub open spec fn join_parts(parts: Seq<&str>, n: int) -> Seq<char>
    decreases n,
{
    if n <= 0 {
        Seq::empty()
    } else {
        join_parts(parts, n - 1) + parts[n - 1]@
    }
}

/// The Wikipedia search queries for a film: for each title variant, with the
/// year and the year before (when the year is known), then `<title> film`,
/// then the bare title.
pub fn wikipedia_search_queries(title: &str, year: Option<u32>) -> (r: Vec<String>)
    ensures
        strings_view(r@) == queries_spec(
            title_variants_spec(title@),
            year,
            title_variants_spec(title@).len() as int,
        ),
{
    proof {
        reveal_strlit(" and ");
        reveal_strlit(" & ");
        assert(" and "@.len() > 0);
        assert(" & "@.len() > 0);
    }
    let mut variants: Vec<String> = Vec::new();
    variants.push(title.to_owned());
    if contains(title, " and ") {
        variants.push(replace(title, " and ", " & "));
    }
    if contains(title, " & ") {
        variants.push(replace(title, " & ", " and "));
    }
    assert(strings_view(variants@) =~= title_variants_spec(title@));
    let ghost vs = title_variants_spec(title@);
    let mut queries: Vec<String> = Vec::new();
    let mut k: usize = 0;
    while k < variants.len()
        invariant
            strings_view(variants@) == vs,
            k <= variants@.len(),
            strings_view(queries@) == queries_spec(vs, year, k as int),
        decreases variants@.len() - k,
    {
        let t = variants[k].as_str();
        let ghost before = queries@;
        match year {
            Some(y) => {
                let this_year = decimal_string(y as u128);
                let prev = if y > 0 {
                    y - 1
                } else {
                    0
                };
                let last_year = decimal_string(prev as u128);
                push_query(&mut queries, &[t, " ", this_year.as_str(), " film"]);
                push_query(&mut queries, &[t, " ", last_year.as_str(), " film"]);
            },
            None => {},
        }
        push_query(&mut queries, &[t, " film"]);
        push_query(&mut queries, &[t]);
        proof {
            assert(vs[k as int] == t@);
            reveal_with_fuel(join_parts, 5);
            assert(strings_view(queries@) =~= strings_view(before) + variant_queries(
                t@,
                year,
            ));
        }
        k = k + 1;
    }
    queries
}

/// The search request URL for a query (spaces written as `+`).
pub open spec fn search_url_spec(query: Seq<char>) -> Seq<char> {
    "https://en.wikipedia.org/w/api.php?action=query&list=search&srsearch="@ + replace_spec(
        query,
        " "@,
        "+"@,
    ) + "&format=json"@
}

pub fn search_url(query: &str) -> (r: String)
    ensures
        r@ == search_url_spec(query@),
{
    proof {
        reveal_strlit(" ");
    }
    let mut url = "https://en.wikipedia.org/w/api.php?action=query&list=search&srsearch=".to_owned();
    let encoded = replace(query, " ", "+");
    url.append(encoded.as_str());
    url.append("&format=json");
    url
}

/// The page summary URL for a page title (spaces written as `_`).
pub open spec fn summary_url_spec(page_title: Seq<char>) -> Seq<char> {
    "https://en.wikipedia.org/api/rest_v1/page/summary/"@ + replace_spec(
        page_title,
        " "@,
        "_"@,
    )
}

pub fn summary_url(page_title: &str) -> (r: String)
    ensures
        r@ == summary_url_spec(page_title@),
{
    proof {
        reveal_strlit(" ");
    }
    let mut url = "https://en.wikipedia.org/api/rest_v1/page/summary/".to_owned();
    let encoded = replace(page_title, " ", "_");
    url.append(encoded.as_str());
    url
}

/// The Wikidata entity URL for an item id.
pub fn wikidata_url(qid: &str) -> (r: String)
    ensures
        r@ == "https://www.wikidata.org/wiki/Special:EntityData/"@ + qid@ + ".json"@,
{
    let mut url = "https://www.wikidata.org/wiki/Special:EntityData/".to_owned();
    url.append(qid);
    url.append(".json");
    url
}

/// Page titles of the first three search results of a search response, leaving
/// out results without a title.
pub open spec fn search_titles_spec(response: Seq<char>, n: int) -> Seq<Seq<char>>
    decreases n,
{
    if n <= 0 {
        Seq::empty()
    } else {
        let prev = search_titles_spec(response, n - 1);
        match json_str_at(
            response,
            "/query/search/"@ + decimal((n - 1) as nat) + "/title"@,
        ) {
            Some(t) => prev.push(t),
            None => prev,
        }
    }
}

/// How many search results are read: at most three.
pub open spec fn results_read(response: Seq<char>) -> int {
    match json_array_len_at(response, "/query/search"@) {
        Some(n) => if n < 3 {
            n as int
        } else {
            3
        },
        None => 0,
    }
}

/// Reads the page titles of the first three results of a search response.
pub fn search_result_titles(response: &str) -> (r: Vec<String>)
    ensures
        strings_view(r@) == search_titles_spec(response@, results_read(response@)),
        r@.len() <= 3,
{
    let count = match array_len_at(response, "/query/search") {
        Some(n) => if n < 3 {
            n
        } else {
            3
        },
        None => 0,
    };
    let mut titles: Vec<String> = Vec::new();
    let mut i: usize = 0;
    while i < count
        invariant
            count == results_read(response@),
            i <= count,
            count <= 3,
            strings_view(titles@) == search_titles_spec(response@, i as int),
            titles@.len() <= i,
        decreases count - i,
    {
        let mut pointer = "/query/search/".to_owned();
        let index = decimal_string(i as u128);
        pointer.append(index.as_str());
        pointer.append("/title");
        match str_at(response, pointer.as_str()) {
            Some(t) => {
                titles.push(t);
                assert(strings_view(titles@) =~= search_titles_spec(response@, i + 1));
            },
            None => {},
        }
        i = i + 1;
    }
    titles
}

/// What a page summary response says: its Wikidata item id (if any) and its
/// summary text (empty if absent); `None` when the response is not JSON.
pub fn summary_fields(response: &str) -> (r: Option<(Option<String>, String)>)
    ensures
        r is Some <==> json_parses(response@),
        r matches Some((item, extract)) ==> {
            &&& match item {
                Some(q) => json_str_at(response@, "/wikibase_item"@) == Some(q@),
                None => json_str_at(response@, "/wikibase_item"@) is None,
            }
            &&& extract@ == match json_str_at(response@, "/extract"@) {
                Some(e) => e,
                None => Seq::empty(),
            }
        },
{
    if !parses(response) {
        return None;
    }
    let item = str_at(response, "/wikibase_item");
    let extract = match str_at(response, "/extract") {
        Some(e) => e,
        None => String::new(),
    };
    Some((item, extract))
}

/// Where an entity's original-language claims sit in a Wikidata response.
pub open spec fn p364_pointer(qid: Seq<char>) -> Seq<char> {
    "/entities/"@ + pointer_token_spec(qid) + "/claims/P364"@
}

/// The original language that a Wikidata entity response states: the first
/// P364 claim's language item, mapped to a language. Entities are looked up
/// by key, so when `entities` is an array nothing is found.
pub open spec fn wikidata_claim_spec(response: Seq<char>, qid: Seq<char>) -> Option<
    (Seq<char>, Seq<char>),
> {
    if json_array_len_at(response, "/entities"@) is Some {
        None
    } else {
        match json_array_len_at(response, p364_pointer(qid)) {
            Some(n) => if n > 0 {
                match json_str_at(
                    response,
                    p364_pointer(qid) + "/0/mainsnak/datavalue/value/id"@,
                ) {
                    Some(id) => wikidata_language_spec(id),
                    None => None,
                }
            } else {
                None
            },
            None => None,
        }
    }
}

/// Reads the original language (Wikidata property P364) of entity `qid` from
/// a Wikidata entity response.
pub fn wikidata_language(response: &str, qid: &str) -> (r: Option<Language>)
    ensures
        opt_lang_view(r) == wikidata_claim_spec(response@, qid@),
{
    if array_len_at(response, "/entities").is_some() {
        return None;
    }
    let mut base = "/entities/".to_owned();
    let token = pointer_token(qid);
    base.append(token.as_str());
    base.append("/claims/P364");
    match array_len_at(response, base.as_str()) {
        Some(n) => if n > 0 {
            let mut id_pointer = base.clone();
            id_pointer.append("/0/mainsnak/datavalue/value/id");
            match str_at(response, id_pointer.as_str()) {
                Some(id) => map_wikidata_qid(id.as_str()),
                None => None,
            }
        } else {
            None
        },
        None => None,
    }
}

/// The language a page is about: Wikidata's claim when there is one, else the
/// language its summary names.
pub open spec fn page_language_spec(
    wikidata: Option<(Seq<char>, Seq<char>)>,
    extract: Seq<char>,
) -> Option<(Seq<char>, Seq<char>)> {
    match wikidata {
        Some(l) => Some(l),
        None => extract_language_spec(extract),
    }
}

/// The origin that a page gives: its language, provided the file has no
/// streams or carries that language in some stream.
pub open spec fn page_origin_ok(
    title: Seq<char>,
    year: Option<u32>,
    streams: Seq<String>,
    wikidata: Option<(Seq<char>, Seq<char>)>,
    extract: Seq<char>,
    r: Option<FilmOrigin>,
) -> bool {
    match page_language_spec(wikidata, extract) {
        Some((name, code)) => if streams.len() == 0 || lang_in_streams(streams, code) {
            r matches Some(o) && o.title@ == title && o.year == year && o.native_lang_code@ == code
                && o.native_lang_name@ == name && o.source@ == "Wikidata P364 / Wikipedia API"@
                && o.confidence == 100
        } else {
            r is None
        },
        None => r is None,
    }
}

/// Decides what one Wikipedia page says of the film's origin, from the
/// language its Wikidata item claims (if it was found) and its summary text.
pub fn wikipedia_page_origin(
    title: &str,
    year: Option<u32>,
    stream_langs: &Vec<String>,
    wikidata: Option<Language>,
    extract: &str,
) -> (r: Option<FilmOrigin>)
    ensures
        page_origin_ok(title@, year, stream_langs@, opt_lang_view(wikidata), extract@, r),
{
    let detected = match wikidata {
        Some(l) => Some(l),
        None => language_in_extract(extract),
    };
    match detected {
        Some((name, code)) => {
            let mut matched = stream_langs.len() == 0;
            let mut i: usize = 0;
            while i < stream_langs.len() && !matched
                invariant
                    i <= stream_langs@.len(),
                    stream_langs@.len() == 0 ==> matched,
                    matched ==> (stream_langs@.len() == 0 || lang_in_streams(
                        stream_langs@,
                        code@,
                    )),
                    !matched ==> forall|j: int|
                        0 <= j < i ==> !(normalized_code(#[trigger] stream_langs@[j]@) == code@
                            || eq_ignore_ascii_case_spec(stream_langs@[j]@, code@)),
                decreases stream_langs@.len() - i,
            {
                let s = stream_langs[i].as_str();
                if str_eq(normalize_lang_code(s), code) || eq_ignore_ascii_case(s, code) {
                    matched = true;
                }
                i = i + 1;
            }
            if matched {
                Some(
                    FilmOrigin {
                        title: title.to_owned(),
                        year,
                        native_lang_code: code.to_owned(),
                        native_lang_name: name.to_owned(),
                        source: "Wikidata P364 / Wikipedia API".to_owned(),
                        confidence: 100,
                    },
                )
            } else {
                None
            }
        },
        None => None,
    }
}

/// Which answer a Wikipedia lookup waits for.
#[derive(Debug, Clone, Copy, PartialEq, Eq, Structural)]
pub enum WikiPhase {
    /// The results of the current search query.
    Search,
    /// The summary of the current result page.
    Summary,
    /// The Wikidata entity of the current result page.
    Wikidata,
}

/// A Wikipedia lookup in progress: the queries, the result pages of the
/// current query, and what is known of the current page.
#[derive(Debug)]
pub struct WikipediaLookup {
    pub title: String,
    pub year: Option<u32>,
    pub stream_langs: Vec<String>,
    pub queries: Vec<String>,
    pub query_index: usize,
    pub pages: Vec<String>,
    pub page_index: usize,
    pub phase: WikiPhase,
    pub pending_qid: String,
    pub pending_extract: String,
}

/// What a Wikipedia lookup asks for next.
#[derive(Debug)]
pub enum WikipediaStep {
    /// Fetch this URL and report its body (or its failure).
    Fetch(String),
    /// The lookup is over, with the origin it found, if any.
    Finished(Option<FilmOrigin>),
}

/// A lookup's state is coherent: it stands at an existing query, at most
/// three result pages are held, and a page is current while its summary or
/// entity is awaited.
pub open spec fn lookup_wf(l: WikipediaLookup) -> bool {
    &&& l.query_index < l.queries@.len()
    &&& l.pages@.len() <= 3
    &&& l.page_index <= l.pages@.len()
    &&& l.phase != WikiPhase::Search ==> l.page_index < l.pages@.len()
    &&& l.phase == WikiPhase::Search ==> l.page_index == 0 && l.pages@.len() == 0
}

/// How far a lookup has come, counted in fetches: each query is worth seven
/// (its search, then a summary and an entity for each of at most three pages);
/// within a query the search counts one and page `i` counts `2i + 2` while its
/// summary is awaited and `2i + 3` while its entity is.
pub open spec fn progress(l: WikipediaLookup) -> int {
    7 * l.query_index + match l.phase {
        WikiPhase::Search => 1,
        WikiPhase::Summary => 2 * l.page_index + 2,
        WikiPhase::Wikidata => 2 * l.page_index + 3,
    }
}

/// Two states of one lookup: the film and the queries are unchanged.
pub open spec fn same_search(a: WikipediaLookup, b: WikipediaLookup) -> bool {
    &&& a.title == b.title
    &&& a.year == b.year
    &&& a.stream_langs == b.stream_langs
    &&& a.queries == b.queries
}

/// The lookup moved on to page `pi` of `pages` (the pages of query `qi`): to
/// that page's summary if there is one, else to the next query's search, else
/// it finished without an origin.
pub open spec fn moved_on(qi: usize, pages: Seq<Seq<char>>, pi: int, l: WikipediaLookup, r: WikipediaStep) -> bool {
    if pi < pages.len() {
        &&& l.query_index == qi
        &&& strings_view(l.pages@) == pages
        &&& l.page_index == pi
        &&& l.phase == WikiPhase::Summary
        &&& r matches WikipediaStep::Fetch(url) && url@ == summary_url_spec(pages[pi])
    } else if qi + 1 < l.queries@.len() {
        &&& l.query_index == qi + 1
        &&& l.pages@.len() == 0
        &&& l.page_index == 0
        &&& l.phase == WikiPhase::Search
        &&& r matches WikipediaStep::Fetch(url) && url@ == search_url_spec(l.queries@[qi + 1]@)
    } else {
        r matches WikipediaStep::Finished(o) && o is None
    }
}

/// The page gives an origin: it names a language, and the file has no
/// streams or carries that language.
pub open spec fn page_gives_origin(
    streams: Seq<String>,
    wikidata: Option<(Seq<char>, Seq<char>)>,
    extract: Seq<char>,
) -> bool {
    match page_language_spec(wikidata, extract) {
        Some((name, code)) => streams.len() == 0 || lang_in_streams(streams, code),
        None => false,
    }
}

/// The current page was decided: its origin ends the lookup, else the lookup
/// moves on to the next page.
pub open spec fn page_decided(
    old: WikipediaLookup,
    wikidata: Option<(Seq<char>, Seq<char>)>,
    extract: Seq<char>,
    l: WikipediaLookup,
    r: WikipediaStep,
) -> bool {
    if page_gives_origin(old.stream_langs@, wikidata, extract) {
        r matches WikipediaStep::Finished(o) && page_origin_ok(
            old.title@,
            old.year,
            old.stream_langs@,
            wikidata,
            extract,
            o,
        )
    } else {
        moved_on(old.query_index, strings_view(old.pages@), old.page_index + 1, l, r)
    }
}

/// The page titles a search response lists (none when the search failed).
pub open spec fn found_titles(response: Option<Seq<char>>) -> Seq<Seq<char>> {
    match response {
        Some(t) => search_titles_spec(t, results_read(t)),
        None => Seq::empty(),
    }
}

/// One step of a Wikipedia lookup, after `response` (the body of the last
/// fetch, `None` when it failed) arrived.
pub open spec fn lookup_step_follows(
    old: WikipediaLookup,
    response: Option<Seq<char>>,
    l: WikipediaLookup,
    r: WikipediaStep,
) -> bool {
    match old.phase {
        WikiPhase::Search => moved_on(old.query_index, found_titles(response), 0, l, r),
        WikiPhase::Summary => match response {
            Some(t) => if json_parses(t) {
                let extract = match json_str_at(t, "/extract"@) {
                    Some(e) => e,
                    None => Seq::empty(),
                };
                match json_str_at(t, "/wikibase_item"@) {
                    Some(q) => {
                        &&& l.query_index == old.query_index
                        &&& l.pages == old.pages
                        &&& l.page_index == old.page_index
                        &&& l.phase == WikiPhase::Wikidata
                        &&& l.pending_qid@ == q
                        &&& l.pending_extract@ == extract
                        &&& r matches WikipediaStep::Fetch(url) && url@
                            == "https://www.wikidata.org/wiki/Special:EntityData/"@ + q
                            + ".json"@
                    },
                    None => page_decided(old, None, extract, l, r),
                }
            } else {
                moved_on(old.query_index, strings_view(old.pages@), old.page_index + 1, l, r)
            },
            None => moved_on(old.query_index, strings_view(old.pages@), old.page_index + 1, l, r),
        },
        WikiPhase::Wikidata => page_decided(
            old,
            match response {
                Some(t) => wikidata_claim_spec(t, old.pending_qid@),
                None => None,
            },
            old.pending_extract@,
            l,
            r,
        ),
    }
}

proof fn lemma_queries_len(vs: Seq<Seq<char>>, year: Option<u32>, n: int)
    requires
        0 <= n <= vs.len(),
    ensures
        queries_spec(vs, year, n).len() == if year is Some {
            4 * n
        } else {
            2 * n
        },
    decreases n,
{
    if n > 0 {
        lemma_queries_len(vs, year, n - 1);
    }
}

/// A film has at most three title variants, hence at most twelve queries.
proof fn lemma_query_count(title: Seq<char>, year: Option<u32>)
    ensures
        1 <= title_variants_spec(title).len() <= 3,
        2 <= queries_spec(title_variants_spec(title), year, title_variants_spec(title).len() as int).len()
            <= 12,
{
    lemma_queries_len(title_variants_spec(title), year, title_variants_spec(title).len() as int);
}

proof fn lemma_search_titles_len(response: Seq<char>, n: int)
    requires
        0 <= n,
    ensures
        search_titles_spec(response, n).len() <= n,
    decreases n,
{
    if n > 0 {
        lemma_search_titles_len(response, n - 1);
    }
}

/// A coherent state of query `q` has made more than `7q` and at most `7q + 7`
/// fetches.
proof fn lemma_progress_window(l: WikipediaLookup)
    requires
        lookup_wf(l),
    ensures
        7 * l.query_index < progress(l) <= 7 * l.query_index + 7,
{
}

/// A step that fetches again leads to a coherent state further on.
proof fn lemma_step_progress(
    old: WikipediaLookup,
    response: Option<Seq<char>>,
    l: WikipediaLookup,
    r: WikipediaStep,
)
    requires
        lookup_wf(old),
        same_search(old, l),
        lookup_step_follows(old, response, l, r),
        r is Fetch,
    ensures
        lookup_wf(l),
        progress(old) < progress(l),
{
    match response {
        Some(t) => lemma_search_titles_len(t, results_read(t)),
        None => {},
    }
    if old.phase != WikiPhase::Search {
        assert(strings_view(old.pages@).len() == old.pages@.len());
        assert(strings_view(l.pages@).len() == l.pages@.len());
    } else {
        assert(strings_view(l.pages@).len() == l.pages@.len());
    }
}

/// Each state of a run awaits one fetch: the first state as the lookup was
/// begun, each later one after a step that fetched again.
pub open spec fn fetching_run(
    states: Seq<WikipediaLookup>,
    responses: Seq<Option<Seq<char>>>,
    steps: Seq<WikipediaStep>,
) -> bool {
    &&& states.len() == responses.len() + 1
    &&& steps.len() == responses.len()
    &&& forall|i: int|
        #![trigger steps[i]]
        0 <= i < steps.len() ==> {
            &&& same_search(states[i], states[i + 1])
            &&& lookup_step_follows(states[i], responses[i], states[i + 1], steps[i])
            &&& steps[i] is Fetch
        }
}

proof fn lemma_run_gain(
    states: Seq<WikipediaLookup>,
    responses: Seq<Option<Seq<char>>>,
    steps: Seq<WikipediaStep>,
    i: int,
    j: int,
)
    requires
        fetching_run(states, responses, steps),
        0 <= i <= j < states.len(),
        lookup_wf(states[i]),
    ensures
        lookup_wf(states[j]),
        states[j].queries == states[i].queries,
        progress(states[j]) >= progress(states[i]) + (j - i),
    decreases j - i,
{
    if j > i {
        lemma_run_gain(states, responses, steps, i, j - 1);
        assert(steps[j - 1] is Fetch);
        lemma_step_progress(states[j - 1], responses[j - 1], states[j], steps[j - 1]);
    }
}

/// A lookup begun as `begin_wikipedia_lookup` begins it, and advanced by
/// `query_wikipedia_film_origin`, makes at most seven fetches per query (the
/// search, then a summary and a Wikidata entity for each of at most three
/// pages) and at most 84 in all (twelve queries at most): two states that
/// await answers for the same query are fewer than seven steps apart, and a
/// run holds at most seven states per query.
pub proof fn law_fetches_per_query(
    states: Seq<WikipediaLookup>,
    responses: Seq<Option<Seq<char>>>,
    steps: Seq<WikipediaStep>,
)
    requires
        fetching_run(states, responses, steps),
        lookup_wf(states[0]),
        states[0].query_index == 0,
        states[0].phase == WikiPhase::Search,
        strings_view(states[0].queries@) == queries_spec(
            title_variants_spec(states[0].title@),
            states[0].year,
            title_variants_spec(states[0].title@).len() as int,
        ),
    ensures
        forall|i: int, j: int|
            0 <= i <= j < states.len() && #[trigger] states[i].query_index
                == #[trigger] states[j].query_index ==> j - i < 7,
        states.len() <= 7 * states[0].queries@.len(),
        states.len() <= 84,
{
    assert forall|i: int, j: int|
        0 <= i <= j < states.len() && #[trigger] states[i].query_index
            == #[trigger] states[j].query_index implies j - i < 7 by {
        lemma_run_gain(states, responses, steps, 0, i);
        lemma_run_gain(states, responses, steps, i, j);
        lemma_progress_window(states[i]);
        lemma_progress_window(states[j]);
    }
    let last = states.len() - 1;
    lemma_run_gain(states, responses, steps, 0, last);
    lemma_progress_window(states[last]);
    lemma_query_count(states[0].title@, states[0].year);
    assert(strings_view(states[0].queries@).len() == states[0].queries@.len());
}

/// Starts looking the film up on Wikipedia: the first search is fetched first.
pub fn begin_wikipedia_lookup(title: &str, year: Option<u32>, stream_langs: Vec<String>) -> (r: (
    WikipediaLookup,
    WikipediaStep,
))
    ensures
        lookup_wf(r.0),
        r.0.title@ == title@,
        r.0.year == year,
        r.0.stream_langs == stream_langs,
        strings_view(r.0.queries@) == queries_spec(
            title_variants_spec(title@),
            year,
            title_variants_spec(title@).len() as int,
        ),
        r.0.query_index == 0,
        r.0.phase == WikiPhase::Search,
        progress(r.0) == 1,
        r.0.queries@.len() <= 12,
        r.1 matches WikipediaStep::Fetch(url) && url@ == search_url_spec(r.0.queries@[0]@),
{
    let queries = wikipedia_search_queries(title, year);
    proof {
        lemma_query_count(title@, year);
        assert(strings_view(queries@).len() == queries@.len());
    }
    let url = search_url(queries[0].as_str());
    (
        WikipediaLookup {
            title: title.to_owned(),
            year,
            stream_langs,
            queries,
            query_index: 0,
            pages: Vec::new(),
            page_index: 0,
            phase: WikiPhase::Search,
            pending_qid: String::new(),
            pending_extract: String::new(),
        },
        WikipediaStep::Fetch(url),
    )
}

fn move_on(lookup: &mut WikipediaLookup, next_page: usize) -> (r: WikipediaStep)
    requires
        old(lookup).query_index < old(lookup).queries@.len(),
        old(lookup).pages@.len() <= 3,
        next_page <= old(lookup).pages@.len(),
    ensures
        same_search(*old(lookup), *final(lookup)),
        moved_on(old(lookup).query_index, strings_view(old(lookup).pages@), next_page as int, *final(lookup), r),
        r is Fetch ==> lookup_wf(*final(lookup)),
        r is Fetch && next_page < old(lookup).pages@.len() ==> final(lookup).pages == old(lookup).pages,
{
    if next_page < lookup.pages.len() {
        let url = summary_url(lookup.pages[next_page].as_str());
        lookup.page_index = next_page;
        lookup.phase = WikiPhase::Summary;
        WikipediaStep::Fetch(url)
    } else if lookup.query_index < lookup.queries.len() - 1 {
        lookup.query_index = lookup.query_index + 1;
        lookup.pages = Vec::new();
        lookup.page_index = 0;
        lookup.phase = WikiPhase::Search;
        let url = search_url(lookup.queries[lookup.query_index].as_str());
        WikipediaStep::Fetch(url)
    } else {
        WikipediaStep::Finished(None)
    }
}

fn decide_page(lookup: &mut WikipediaLookup, wikidata: Option<Language>, extract: &str) -> (r:
    WikipediaStep)
    requires
        lookup_wf(*old(lookup)),
        old(lookup).phase != WikiPhase::Search,
    ensures
        same_search(*old(lookup), *final(lookup)),
        page_decided(*old(lookup), opt_lang_view(wikidata), extract@, *final(lookup), r),
        r is Fetch ==> lookup_wf(*final(lookup)),
{
    match wikipedia_page_origin(
        lookup.title.as_str(),
        lookup.year,
        &lookup.stream_langs,
        wikidata,
        extract,
    ) {
        Some(o) => WikipediaStep::Finished(Some(o)),
        None => {
            let next = lookup.page_index + 1;
            move_on(lookup, next)
        },
    }
}

/// Advances a Wikipedia lookup with the body of the last fetch (`None` when
/// it failed). Search results give up to three pages; each page's summary,
/// and its Wikidata entity when it has one, decide its language; the first
/// page whose language the file carries (or any, for a file without streams)
/// ends the lookup; failed fetches and unusable answers move on to the next
/// page or query; when all queries are spent the lookup ends empty-handed.
pub fn query_wikipedia_film_origin(lookup: &mut WikipediaLookup, response: Option<String>) -> (r:
    WikipediaStep)
    requires
        lookup_wf(*old(lookup)),
    ensures
        same_search(*old(lookup), *final(lookup)),
        lookup_step_follows(*old(lookup), opt_text(response), *final(lookup), r),
        r is Fetch ==> lookup_wf(*final(lookup)),
        // A step that fetches again counts at least one more fetch, and a
        // state of query `q` has made at most `7q + 7`.
        r is Fetch ==> progress(*old(lookup)) < progress(*final(lookup)),
        r is Fetch ==> progress(*final(lookup)) <= 7 * final(lookup).query_index + 7,
{
    match lookup.phase {
        WikiPhase::Search => {
            let titles = match &response {
                Some(t) => search_result_titles(t.as_str()),
                None => Vec::new(),
            };
            assert(strings_view(titles@) =~= found_titles(opt_text(response)));
            lookup.pages = titles;
            lookup.page_index = 0;
            move_on(lookup, 0)
        },
        WikiPhase::Summary => {
            let fields = match &response {
                Some(t) => summary_fields(t.as_str()),
                None => None,
            };
            match fields {
                Some((item, extract)) => match item {
                    Some(qid) => {
                        let url = wikidata_url(qid.as_str());
                        lookup.pending_qid = qid;
                        lookup.pending_extract = extract;
                        lookup.phase = WikiPhase::Wikidata;
                        WikipediaStep::Fetch(url)
                    },
                    None => decide_page(lookup, None, extract.as_str()),
                },
                None => {
                    let next = lookup.page_index + 1;
                    move_on(lookup, next)
                },
            }
        },
        WikiPhase::Wikidata => {
            let lang = match &response {
                Some(t) => wikidata_language(t.as_str(), lookup.pending_qid.as_str()),
                None => None,
            };
            let extract = lookup.pending_extract.clone();
            decide_page(lookup, lang, extract.as_str())
        },
    }
}

} // verus!
