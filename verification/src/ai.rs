//! The film's native language: what a resolved origin says, how language tags
//! are normalised, and how the origin is resolved from several sources.
use vstd::prelude::*;
use vstd::utf8::is_ascii_chars;

use crate::paths::{file_name, file_name_spec, file_stem, file_stem_spec};
use crate::pattern::{capture, regex_capture, regex_replace_first, replace_first};
use crate::text::{
    ascii_lower_char, ascii_lowercase, find_char, first_index_of, lemma_trim_spec_shape,
    lowercase_spec, parse_u32, parse_u32_spec, str_eq, to_lowercase, trim, trim_class,
    trim_class_str, trim_spec, CharClass,
};

verus! {

/// The original theatrical language of a film, and where that knowledge came from.
#[derive(Debug, Clone, PartialEq, Eq)]
pub struct FilmOrigin {
    pub title: String,
    pub year: Option<u32>,
    pub native_lang_code: String,
    pub native_lang_name: String,
    pub source: String,
    pub confidence: u8,
}

/// The least confidence at which an origin is trusted to strip audio.
pub const CONFIDENCE_THRESHOLD: u8 = 80;

/// An origin is trusted when it is at least 80% confident and names a language.
pub open spec fn origin_is_confident(o: FilmOrigin) -> bool {
    o.confidence >= 80 && o.native_lang_code@ != "und"@
}

impl FilmOrigin {
    /// Whether the origin may be acted upon.
    pub fn is_confident(&self) -> (r: bool)
        ensures
            r == origin_is_confident(*self),
    {
        self.confidence >= CONFIDENCE_THRESHOLD && !str_eq(self.native_lang_code.as_str(), "und")
    }
}

/// The three-letter code that a lowercased, trimmed language tag stands for;
/// `und` when the tag is not recognised.
pub open spec fn lang_code_for_key_spec(key: Seq<char>) -> Seq<char> {
    if key == "kn"@ || key == "kan"@ || key == "kannada"@ {
        "kan"@
    } else if key == "te"@ || key == "tel"@ || key == "telugu"@ {
        "tel"@
    } else if key == "ta"@ || key == "tam"@ || key == "tamil"@ {
        "tam"@
    } else if key == "ml"@ || key == "mal"@ || key == "malayalam"@ {
        "mal"@
    } else if key == "hi"@ || key == "hin"@ || key == "hindi"@ {
        "hin"@
    } else if key == "en"@ || key == "eng"@ || key == "english"@ {
        "eng"@
    } else if key == "ja"@ || key == "jpn"@ || key == "japanese"@ {
        "jpn"@
    } else if key == "ko"@ || key == "kor"@ || key == "korean"@ {
        "kor"@
    } else if key == "fr"@ || key == "fra"@ || key == "fre"@ || key == "french"@ {
        "fre"@
    } else if key == "es"@ || key == "spa"@ || key == "spanish"@ {
        "spa"@
    } else if key == "ru"@ || key == "rus"@ || key == "russian"@ {
        "rus"@
    } else if key == "de"@ || key == "deu"@ || key == "ger"@ || key == "german"@ {
        "ger"@
    } else if key == "it"@ || key == "ita"@ || key == "italian"@ {
        "ita"@
    } else if key == "zh"@ || key == "zho"@ || key == "chi"@ || key == "chinese"@ {
        "chi"@
    } else if key == "pl"@ || key == "pol"@ || key == "polish"@ {
        "pol"@
    } else {
        "und"@
    }
}

/// The normalised code of a language tag as written in a container or a database.
pub open spec fn normalized_code(tag: Seq<char>) -> Seq<char> {
    lang_code_for_key_spec(lowercase_spec(trim_spec(tag)))
}

/// Maps a lowercased, trimmed language tag (a two- or three-letter code or an
/// English language name) to its three-letter code.
pub fn lang_code_for_key(key: &str) -> (r: &'static str)
    ensures
        r@ == lang_code_for_key_spec(key@),
{
    if str_eq(key, "kn") || str_eq(key, "kan") || str_eq(key, "kannada") {
        "kan"
    } else if str_eq(key, "te") || str_eq(key, "tel") || str_eq(key, "telugu") {
        "tel"
    } else if str_eq(key, "ta") || str_eq(key, "tam") || str_eq(key, "tamil") {
        "tam"
    } else if str_eq(key, "ml") || str_eq(key, "mal") || str_eq(key, "malayalam") {
        "mal"
    } else if str_eq(key, "hi") || str_eq(key, "hin") || str_eq(key, "hindi") {
        "hin"
    } else if str_eq(key, "en") || str_eq(key, "eng") || str_eq(key, "english") {
        "eng"
    } else if str_eq(key, "ja") || str_eq(key, "jpn") || str_eq(key, "japanese") {
        "jpn"
    } else if str_eq(key, "ko") || str_eq(key, "kor") || str_eq(key, "korean") {
        "kor"
    } else if str_eq(key, "fr") || str_eq(key, "fra") || str_eq(key, "fre") || str_eq(
        key,
        "french",
    ) {
        "fre"
    } else if str_eq(key, "es") || str_eq(key, "spa") || str_eq(key, "spanish") {
        "spa"
    } else if str_eq(key, "ru") || str_eq(key, "rus") || str_eq(key, "russian") {
        "rus"
    } else if str_eq(key, "de") || str_eq(key, "deu") || str_eq(key, "ger") || str_eq(
        key,
        "german",
    ) {
        "ger"
    } else if str_eq(key, "it") || str_eq(key, "ita") || str_eq(key, "italian") {
        "ita"
    } else if str_eq(key, "zh") || str_eq(key, "zho") || str_eq(key, "chi") || str_eq(
        key,
        "chinese",
    ) {
        "chi"
    } else if str_eq(key, "pl") || str_eq(key, "pol") || str_eq(key, "polish") {
        "pol"
    } else {
        "und"
    }
}

/// Normalises a language tag: it is trimmed, lowercased (Unicode) and mapped
/// to its three-letter code, `und` when unrecognised.
pub fn normalize_lang_code(code: &str) -> (r: &'static str)
    ensures
        r@ == normalized_code(code@),
{
    let lowered = to_lowercase(trim(code));
    lang_code_for_key(lowered.as_str())
}

/// The sixteen codes that normalising can give.
pub open spec fn is_known_code(c: Seq<char>) -> bool {
    ||| c == "kan"@
    ||| c == "tel"@
    ||| c == "tam"@
    ||| c == "mal"@
    ||| c == "hin"@
    ||| c == "eng"@
    ||| c == "jpn"@
    ||| c == "kor"@
    ||| c == "fre"@
    ||| c == "spa"@
    ||| c == "rus"@
    ||| c == "ger"@
    ||| c == "ita"@
    ||| c == "chi"@
    ||| c == "pol"@
    ||| c == "und"@
}

/// The tags that normalising recognises, once trimmed and lowercased: the
/// two- and three-letter codes and the English names of the fifteen languages.
pub open spec fn is_language_alias(key: Seq<char>) -> bool {
    ||| key == "kn"@
    ||| key == "kan"@
    ||| key == "kannada"@
    ||| key == "te"@
    ||| key == "tel"@
    ||| key == "telugu"@
    ||| key == "ta"@
    ||| key == "tam"@
    ||| key == "tamil"@
    ||| key == "ml"@
    ||| key == "mal"@
    ||| key == "malayalam"@
    ||| key == "hi"@
    ||| key == "hin"@
    ||| key == "hindi"@
    ||| key == "en"@
    ||| key == "eng"@
    ||| key == "english"@
    ||| key == "ja"@
    ||| key == "jpn"@
    ||| key == "japanese"@
    ||| key == "ko"@
    ||| key == "kor"@
    ||| key == "korean"@
    ||| key == "fr"@
    ||| key == "fra"@
    ||| key == "fre"@
    ||| key == "french"@
    ||| key == "es"@
    ||| key == "spa"@
    ||| key == "spanish"@
    ||| key == "ru"@
    ||| key == "rus"@
    ||| key == "russian"@
    ||| key == "de"@
    ||| key == "deu"@
    ||| key == "ger"@
    ||| key == "german"@
    ||| key == "it"@
    ||| key == "ita"@
    ||| key == "italian"@
    ||| key == "zh"@
    ||| key == "zho"@
    ||| key == "chi"@
    ||| key == "chinese"@
    ||| key == "pl"@
    ||| key == "pol"@
    ||| key == "polish"@
}

/// Three lowercase ASCII letters are their own trimmed lowercase form.
proof fn lemma_lowercase_word(c: Seq<char>)
    requires
        c.len() == 3,
        forall|i: int| 0 <= i < 3 ==> 'a' <= #[trigger] c[i] <= 'z',
    ensures
        is_ascii_chars(c),
        lowercase_spec(trim_spec(c)) == c,
{
    assert(ascii_lowercase(c) =~= c);
    lemma_trim_spec_shape(c);
}

/// Each of the sixteen codes is three lowercase ASCII letters.
proof fn lemma_known_code_letters(c: Seq<char>)
    requires
        is_known_code(c),
    ensures
        c.len() == 3,
        forall|i: int| 0 <= i < 3 ==> 'a' <= #[trigger] c[i] <= 'z',
{
    reveal_strlit("kan");
    reveal_strlit("tel");
    reveal_strlit("tam");
    reveal_strlit("mal");
    reveal_strlit("hin");
    reveal_strlit("eng");
    reveal_strlit("jpn");
    reveal_strlit("kor");
    reveal_strlit("fre");
    reveal_strlit("spa");
    reveal_strlit("rus");
    reveal_strlit("ger");
    reveal_strlit("ita");
    reveal_strlit("chi");
    reveal_strlit("pol");
    reveal_strlit("und");
}

/// Each of the sixteen codes is recognised as itself.
#[verifier::rlimit(40)]
proof fn lemma_known_code_maps_to_itself(c: Seq<char>)
    requires
        is_known_code(c),
    ensures
        lang_code_for_key_spec(c) == c,
{
    reveal_strlit("kan");
    reveal_strlit("tel");
    reveal_strlit("tam");
    reveal_strlit("mal");
    reveal_strlit("hin");
    reveal_strlit("eng");
    reveal_strlit("jpn");
    reveal_strlit("kor");
    reveal_strlit("fra");
    reveal_strlit("fre");
    reveal_strlit("spa");
    reveal_strlit("rus");
    reveal_strlit("deu");
    reveal_strlit("ger");
    reveal_strlit("ita");
    reveal_strlit("zho");
    reveal_strlit("chi");
    reveal_strlit("pol");
    reveal_strlit("und");
    reveal_strlit("kn");
    reveal_strlit("kannada");
    reveal_strlit("te");
    reveal_strlit("telugu");
    reveal_strlit("ta");
    reveal_strlit("tamil");
    reveal_strlit("ml");
    reveal_strlit("malayalam");
    reveal_strlit("hi");
    reveal_strlit("hindi");
    reveal_strlit("en");
    reveal_strlit("english");
    reveal_strlit("ja");
    reveal_strlit("japanese");
    reveal_strlit("ko");
    reveal_strlit("korean");
    reveal_strlit("fr");
    reveal_strlit("french");
    reveal_strlit("es");
    reveal_strlit("spanish");
    reveal_strlit("ru");
    reveal_strlit("russian");
    reveal_strlit("de");
    reveal_strlit("german");
    reveal_strlit("it");
    reveal_strlit("italian");
    reveal_strlit("zh");
    reveal_strlit("chinese");
    reveal_strlit("pl");
    reveal_strlit("polish");
    if c == "kan"@ {
        assert(c[0] == 'k' && c[1] == 'a' && c[2] == 'n');
    }
    if c == "tel"@ {
        assert(c[0] == 't' && c[1] == 'e' && c[2] == 'l');
    }
    if c == "tam"@ {
        assert(c[0] == 't' && c[1] == 'a' && c[2] == 'm');
    }
    if c == "mal"@ {
        assert(c[0] == 'm' && c[1] == 'a' && c[2] == 'l');
    }
    if c == "hin"@ {
        assert(c[0] == 'h' && c[1] == 'i' && c[2] == 'n');
    }
    if c == "eng"@ {
        assert(c[0] == 'e' && c[1] == 'n' && c[2] == 'g');
    }
    if c == "jpn"@ {
        assert(c[0] == 'j' && c[1] == 'p' && c[2] == 'n');
    }
    if c == "kor"@ {
        assert(c[0] == 'k' && c[1] == 'o' && c[2] == 'r');
    }
    if c == "fre"@ {
        assert(c[0] == 'f' && c[1] == 'r' && c[2] == 'e');
    }
    if c == "spa"@ {
        assert(c[0] == 's' && c[1] == 'p' && c[2] == 'a');
    }
    if c == "rus"@ {
        assert(c[0] == 'r' && c[1] == 'u' && c[2] == 's');
    }
    if c == "ger"@ {
        assert(c[0] == 'g' && c[1] == 'e' && c[2] == 'r');
    }
    if c == "ita"@ {
        assert(c[0] == 'i' && c[1] == 't' && c[2] == 'a');
    }
    if c == "chi"@ {
        assert(c[0] == 'c' && c[1] == 'h' && c[2] == 'i');
    }
    if c == "pol"@ {
        assert(c[0] == 'p' && c[1] == 'o' && c[2] == 'l');
    }
    if c == "und"@ {
        assert(c[0] == 'u' && c[1] == 'n' && c[2] == 'd');
    }
}

/// Only `und` among the codes means an unrecognised language.
proof fn lemma_recognised_code_is_not_und(key: Seq<char>)
    requires
        is_language_alias(key),
    ensures
        lang_code_for_key_spec(key) != "und"@,
{
    reveal_strlit("kan");
    reveal_strlit("tel");
    reveal_strlit("tam");
    reveal_strlit("mal");
    reveal_strlit("hin");
    reveal_strlit("eng");
    reveal_strlit("jpn");
    reveal_strlit("kor");
    reveal_strlit("fre");
    reveal_strlit("spa");
    reveal_strlit("rus");
    reveal_strlit("ger");
    reveal_strlit("ita");
    reveal_strlit("chi");
    reveal_strlit("pol");
    reveal_strlit("und");
    assert("und"@[0] == 'u');
}

/// Whatever the tag, normalising gives one of the sixteen codes.
pub proof fn law_normalized_code_is_known(tag: Seq<char>)
    ensures
        is_known_code(normalized_code(tag)),
{
}

/// Normalising is idempotent: a normalised code normalises to itself, for
/// every tag.
pub proof fn law_normalize_idempotent(tag: Seq<char>)
    ensures
        normalized_code(normalized_code(tag)) == normalized_code(tag),
{
    let c = normalized_code(tag);
    lemma_known_code_letters(c);
    lemma_lowercase_word(c);
    lemma_known_code_maps_to_itself(c);
}

/// Trimming and lowercasing an ASCII tag before normalising it changes
/// nothing: `  TAMIL ` and `tamil` give the same code.
pub proof fn law_normalize_ignores_case_and_space(tag: Seq<char>)
    requires
        is_ascii_chars(tag),
    ensures
        normalized_code(lowercase_spec(trim_spec(tag))) == normalized_code(tag),
{
    let t = trim_spec(tag);
    lemma_trim_spec_shape(tag);
    let y = ascii_lowercase(t);
    assert(lowercase_spec(t) == y);
    assert(is_ascii_chars(y));
    assert(ascii_lowercase(y) =~= y);
    lemma_trim_spec_shape(y);
    if y.len() > 0 {
        assert(y[0] == ascii_lower_char(t[0]));
        assert(y.last() == ascii_lower_char(t.last()));
    }
    assert(trim_spec(y) == y);
}

/// A tag normalises to `und` exactly when, trimmed and lowercased, it is none
/// of the recognised codes and names.
pub proof fn law_unrecognised_tag_is_und(tag: Seq<char>)
    ensures
        normalized_code(tag) == "und"@ <==> !is_language_alias(lowercase_spec(trim_spec(tag))),
{
    let key = lowercase_spec(trim_spec(tag));
    if is_language_alias(key) {
        lemma_recognised_code_is_not_und(key);
    }
}

/// Every stream is tagged with the same recognised language as the first.
pub open spec fn streams_agree(streams: Seq<String>) -> bool {
    &&& streams.len() > 0
    &&& normalized_code(streams[0]@) != "und"@
    &&& forall|i: int|
        0 <= i < streams.len() ==> normalized_code(#[trigger] streams[i]@) == normalized_code(
            streams[0]@,
        )
}

/// When all audio streams agree on one recognised language, that language is
/// the origin, with 90% confidence; otherwise nothing is inferred.
pub fn infer_origin_from_streams(title: &str, year: Option<u32>, streams: &Vec<String>) -> (r:
    Option<FilmOrigin>)
    ensures
        r is Some <==> streams_agree(streams@),
        r matches Some(o) ==> {
            &&& o.title@ == title@
            &&& o.year == year
            &&& o.native_lang_code@ == normalized_code(streams@[0]@)
            &&& o.native_lang_name@ == streams@[0]@
            &&& o.source@ == "Container Stream Consensus"@
            &&& o.confidence == 90
        },
{
    if streams.len() == 0 {
        return None;
    }
    let first = normalize_lang_code(streams[0].as_str());
    if str_eq(first, "und") {
        return None;
    }
    let mut i: usize = 0;
    while i < streams.len()
        invariant
            0 < streams@.len(),
            first@ == normalized_code(streams@[0]@),
            i <= streams@.len(),
            forall|j: int| 0 <= j < i ==> normalized_code(#[trigger] streams@[j]@) == first@,
        decreases streams@.len() - i,
    {
        let code = normalize_lang_code(streams[i].as_str());
        if !str_eq(code, first) {
            return None;
        }
        i = i + 1;
    }
    Some(
        FilmOrigin {
            title: title.to_owned(),
            year,
            native_lang_code: first.to_owned(),
            native_lang_name: streams[0].clone(),
            source: "Container Stream Consensus".to_owned(),
            confidence: 90,
        },
    )
}

/// Release-group prefixes that trackers put in front of a title, such as
/// `www.1TamilMV.day - ` or `[site.lat] `.
pub const TRACKER_PREFIX_PATTERN: &'static str =
    r"(?i)^(www\.[a-z0-9\.\-]+\s*-\s*|\[[a-z0-9\.\-]+\]\s*|\d*tamilmv[\.\w\-]*\s*-\s*|tamilblasters[\.\w\-]*\s*-\s*)";

/// A four-digit year in parentheses; group 1 holds the digits.
pub const YEAR_PATTERN: &'static str = r"\((\d{4})\)";

/// The title part of a cleaned release name: what comes before the first `(`,
/// else before the first `[`, else all of it, trimmed.
pub open spec fn title_part_spec(cleaned: Seq<char>) -> Seq<char> {
    match first_index_of(cleaned, '(') {
        Some(i) => trim_spec(cleaned.subrange(0, i)),
        None => match first_index_of(cleaned, '[') {
            Some(i) => trim_spec(cleaned.subrange(0, i)),
            None => trim_spec(cleaned),
        },
    }
}

/// The title of a cleaned release name: its title part without surrounding
/// `-`, `_`, `.` or white space.
pub open spec fn title_spec(cleaned: Seq<char>) -> Seq<char> {
    trim_class(title_part_spec(cleaned), CharClass::TitleSeparator)
}

/// The year given by the captured year digits.
pub open spec fn year_spec(digits: Option<Seq<char>>) -> Option<u32> {
    match digits {
        Some(d) => parse_u32_spec(d),
        None => None,
    }
}

/// Title and year of a release name from which the tracker prefix is already
/// removed; `year_digits` is what the year pattern captured in it.
pub fn title_and_year_from_cleaned(cleaned: &str, year_digits: Option<String>) -> (r: (
    String,
    Option<u32>,
))
    ensures
        r.0@ == title_spec(cleaned@),
        r.1 == year_spec(
            match year_digits {
                Some(d) => Some(d@),
                None => None,
            },
        ),
{
    let year = match &year_digits {
        Some(d) => parse_u32(d.as_str()),
        None => None,
    };
    let title_part = match find_char(cleaned, '(') {
        Some(i) => trim(cleaned.substring_char(0, i)),
        None => match find_char(cleaned, '[') {
            Some(i) => trim(cleaned.substring_char(0, i)),
            None => trim(cleaned),
        },
    };
    let title = trim_class_str(title_part, CharClass::TitleSeparator);
    (title.to_owned(), year)
}

/// The release name with its tracker prefix removed.
pub open spec fn cleaned_name_spec(stem: Seq<char>) -> Seq<char> {
    match regex_replace_first(TRACKER_PREFIX_PATTERN@, stem, ""@) {
        Some(c) => c,
        None => stem,
    }
}

/// The file stem of a path, or `Unknown`.
pub open spec fn stem_or_unknown(path: Seq<char>) -> Seq<char> {
    match file_stem_spec(path) {
        Some(s) => s,
        None => "Unknown"@,
    }
}

/// Extracts the film title and release year from a file path: the file stem
/// loses its tracker prefix, the year is the first parenthesised four-digit
/// number, and the title is what precedes the first bracket.
pub fn parse_title_and_year(path: &str) -> (r: (String, Option<u32>))
    ensures
        r.0@ == title_spec(cleaned_name_spec(stem_or_unknown(path@))),
        r.1 == year_spec(
            regex_capture(YEAR_PATTERN@, cleaned_name_spec(stem_or_unknown(path@)), 1),
        ),
{
    let stem = match file_stem(path) {
        Some(s) => s,
        None => "Unknown",
    };
    let cleaned = match replace_first(TRACKER_PREFIX_PATTERN, stem, "") {
        Some(c) => c,
        None => stem.to_owned(),
    };
    let digits = capture(YEAR_PATTERN, cleaned.as_str(), 1);
    title_and_year_from_cleaned(cleaned.as_str(), digits)
}

/// What the resolution of one file's origin works from.
#[derive(Debug)]
pub struct OriginQuery {
    /// The film title parsed from the file name.
    pub title: String,
    /// The release year parsed from the file name.
    pub year: Option<u32>,
    /// The file name as released.
    pub raw_name: String,
    /// The language tags of the file's audio streams.
    pub stream_langs: Vec<String>,
}

/// The sources of an origin, in the order they are consulted.
#[derive(Debug, Clone, Copy, PartialEq, Eq, Structural)]
pub enum OriginLookup {
    /// The local cache of OMDb records.
    JellyfinCache,
    /// Wikidata's original-language property, or the Wikipedia summary.
    Wikipedia,
    /// The Gemini model (only when an API key is available).
    Gemini,
}

/// What happens next in a resolution.
#[derive(Debug)]
pub enum ResolutionStep {
    /// Consult this source and report what it found.
    Lookup(OriginLookup),
    /// The origin is decided.
    Resolved(FilmOrigin),
}

/// The raw release name: the path's final component, else the parsed title.
pub open spec fn raw_name_spec(path: Seq<char>, title: Seq<char>) -> Seq<char> {
    match file_name_spec(path) {
        Some(n) => n,
        None => title,
    }
}

/// Starts resolving the origin of the file at `path`: the title and year come
/// from the file name, and the local cache is consulted first.
pub fn begin_origin_resolution(path: &str, stream_langs: Vec<String>) -> (r: (
    OriginQuery,
    ResolutionStep,
))
    ensures
        r.0.title@ == title_spec(cleaned_name_spec(stem_or_unknown(path@))),
        r.0.year == year_spec(
            regex_capture(YEAR_PATTERN@, cleaned_name_spec(stem_or_unknown(path@)), 1),
        ),
        r.0.raw_name@ == raw_name_spec(path@, r.0.title@),
        r.0.stream_langs == stream_langs,
        r.1 == ResolutionStep::Lookup(OriginLookup::JellyfinCache),
{
    let (title, year) = parse_title_and_year(path);
    let raw_name = match file_name(path) {
        Some(n) => n.to_owned(),
        None => title.clone(),
    };
    (
        OriginQuery { title, year, raw_name, stream_langs },
        ResolutionStep::Lookup(OriginLookup::JellyfinCache),
    )
}

/// The origin decided when no source knows the film: the streams' common
/// language if they agree on one, else an unresolved origin with no confidence.
pub open spec fn is_fallback_origin(q: OriginQuery, o: FilmOrigin) -> bool {
    &&& o.title@ == q.title@
    &&& o.year == q.year
    &&& if streams_agree(q.stream_langs@) {
        &&& o.native_lang_code@ == normalized_code(q.stream_langs@[0]@)
        &&& o.native_lang_name@ == q.stream_langs@[0]@
        &&& o.source@ == "Container Stream Consensus"@
        &&& o.confidence == 90
    } else {
        &&& o.native_lang_code@ == "und"@
        &&& o.native_lang_name@ == "Unknown / Unresolved"@
        &&& o.source@ == "Unresolved"@
        &&& o.confidence == 0
    }
}

/// One step of a resolution: what follows when `lookup` reported `outcome`.
pub open spec fn step_follows(
    q: OriginQuery,
    lookup: OriginLookup,
    outcome: Option<FilmOrigin>,
    r: ResolutionStep,
) -> bool {
    match outcome {
        Some(o) => r == ResolutionStep::Resolved(o),
        None => match lookup {
            OriginLookup::JellyfinCache => r == ResolutionStep::Lookup(OriginLookup::Wikipedia),
            OriginLookup::Wikipedia => r == ResolutionStep::Lookup(OriginLookup::Gemini),
            OriginLookup::Gemini => r matches ResolutionStep::Resolved(o) && is_fallback_origin(
                q,
                o,
            ),
        },
    }
}

/// Advances the resolution of a film's origin after `lookup` reported
/// `outcome`: a found origin is the answer; otherwise the next source is
/// consulted, and after the last one the streams decide.
pub fn resolve_film_origin(query: &OriginQuery, lookup: OriginLookup, outcome: Option<
    FilmOrigin,
>) -> (r: ResolutionStep)
    ensures
        step_follows(*query, lookup, outcome, r),
{
    match outcome {
        Some(o) => ResolutionStep::Resolved(o),
        None => match lookup {
            OriginLookup::JellyfinCache => ResolutionStep::Lookup(OriginLookup::Wikipedia),
            OriginLookup::Wikipedia => ResolutionStep::Lookup(OriginLookup::Gemini),
            OriginLookup::Gemini => {
                match infer_origin_from_streams(
                    query.title.as_str(),
                    query.year,
                    &query.stream_langs,
                ) {
                    Some(o) => ResolutionStep::Resolved(o),
                    None => ResolutionStep::Resolved(
                        FilmOrigin {
                            title: query.title.clone(),
                            year: query.year,
                            native_lang_code: "und".to_owned(),
                            native_lang_name: "Unknown / Unresolved".to_owned(),
                            source: "Unresolved".to_owned(),
                            confidence: 0,
                        },
                    ),
                }
            },
        },
    }
}

/// The origin that the first source to know the film gives, else the fallback.
pub open spec fn first_found_decides(
    q: OriginQuery,
    cache: Option<FilmOrigin>,
    wiki: Option<FilmOrigin>,
    gemini: Option<FilmOrigin>,
    o: FilmOrigin,
) -> bool {
    match cache {
        Some(c) => o == c,
        None => match wiki {
            Some(w) => o == w,
            None => match gemini {
                Some(g) => o == g,
                None => is_fallback_origin(q, o),
            },
        },
    }
}

/// Law: a resolution consults the local cache, then Wikipedia, then Gemini,
/// and ends after at most these three lookups; the first source that knows the
/// film decides its origin, and only when none does do the streams decide.
pub proof fn law_first_found_origin_decides(
    q: OriginQuery,
    cache: Option<FilmOrigin>,
    wiki: Option<FilmOrigin>,
    gemini: Option<FilmOrigin>,
    r1: ResolutionStep,
    r2: ResolutionStep,
    r3: ResolutionStep,
)
    requires
        step_follows(q, OriginLookup::JellyfinCache, cache, r1),
        r1 == ResolutionStep::Lookup(OriginLookup::Wikipedia) ==> step_follows(
            q,
            OriginLookup::Wikipedia,
            wiki,
            r2,
        ),
        r2 == ResolutionStep::Lookup(OriginLookup::Gemini) ==> step_follows(
            q,
            OriginLookup::Gemini,
            gemini,
            r3,
        ),
    ensures
        match r1 {
            ResolutionStep::Resolved(o) => first_found_decides(q, cache, wiki, gemini, o),
            ResolutionStep::Lookup(l) => l == OriginLookup::Wikipedia && match r2 {
                ResolutionStep::Resolved(o) => first_found_decides(q, cache, wiki, gemini, o),
                ResolutionStep::Lookup(l2) => l2 == OriginLookup::Gemini && (
                r3 matches ResolutionStep::Resolved(o) && first_found_decides(
                    q,
                    cache,
                    wiki,
                    gemini,
                    o,
                )),
            },
        },
{
}

} // verus!
