//! Film origin inference by the Gemini model: the prompt, the request, the
//! retry policy and the reading of the answer.
use vstd::prelude::*;

use crate::ai::{normalize_lang_code, normalized_code, FilmOrigin};
use crate::json::{
    array_len_at, json_array_len_at, json_parses, json_str_at, json_u64_at, parses, str_at, u64_at,
};
use crate::pattern::{regex_replace_every, replace_every};
use crate::text::{decimal, decimal_string, trim, trim_spec};

verus! {

/// The model tried after the configured one.
pub const DEFAULT_GEMINI_MODEL: &'static str = "gemini-3.6-flash";

/// The model tried last.
pub const FALLBACK_GEMINI_MODEL: &'static str = "gemini-flash-latest";

/// The models to ask, in order: the preferred one, then the two defaults.
pub fn gemini_model_candidates(preferred: &str) -> (r: Vec<String>)
    ensures
        r@.len() == 3,
        r@[0]@ == preferred@,
        r@[1]@ == DEFAULT_GEMINI_MODEL@,
        r@[2]@ == FALLBACK_GEMINI_MODEL@,
{
    let mut v: Vec<String> = Vec::new();
    v.push(preferred.to_owned());
    v.push(DEFAULT_GEMINI_MODEL.to_owned());
    v.push(FALLBACK_GEMINI_MODEL.to_owned());
    v
}

/// The most times a failed request is retried.
pub const MAX_RETRIES: usize = 7;

/// The wait, in seconds, before retry number `attempt + 1`.
pub open spec fn retry_delay_spec(attempt: int) -> u64 {
    if attempt == 0 {
        1
    } else if attempt == 1 {
        2
    } else if attempt == 2 {
        5
    } else if attempt == 3 {
        10
    } else if attempt == 4 {
        15
    } else if attempt == 5 {
        30
    } else {
        60
    }
}

/// HTTP statuses worth retrying: 429 (rate limited) and the 5xx server errors.
pub open spec fn is_retryable_spec(status: u16) -> bool {
    status == 429 || (500 <= status && status <= 599)
}

pub fn is_retryable_status(status: u16) -> (r: bool)
    ensures
        r == is_retryable_spec(status),
{
    status == 429 || (500 <= status && status <= 599)
}

/// How one request to the model ended.
#[derive(Debug, Clone, Copy, PartialEq, Eq, Structural)]
pub enum RequestOutcome {
    /// A successful HTTP status; the body is to be read.
    Success,
    /// An unsuccessful HTTP status.
    HttpStatus(u16),
    /// The request did not get a response.
    NetworkError,
}

/// What to do after a request.
#[derive(Debug, Clone, Copy, PartialEq, Eq, Structural)]
pub enum RetryStep {
    /// Read and interpret the response body.
    ReadResponse,
    /// Wait this many seconds, then send the request again as attempt `next_attempt`.
    RetryAfter { delay_secs: u64, next_attempt: usize },
    /// Stop: the model failed.
    GiveUp,
}

/// Decides what follows a request made after `attempt` retries: a success is
/// read; a rate limit, a server error or a network error is retried with a
/// growing wait (1, 2, 5, 10, 15, 30, 60 seconds) up to seven times; anything
/// else ends the attempt.
pub fn next_retry_step(attempt: usize, outcome: RequestOutcome) -> (r: RetryStep)
    ensures
        outcome == RequestOutcome::Success ==> r == RetryStep::ReadResponse,
        outcome != RequestOutcome::Success ==> {
            let retryable = match outcome {
                RequestOutcome::HttpStatus(s) => is_retryable_spec(s),
                _ => true,
            };
            if retryable && attempt < MAX_RETRIES {
                r == (RetryStep::RetryAfter {
                    delay_secs: retry_delay_spec(attempt as int),
                    next_attempt: (attempt + 1) as usize,
                })
            } else {
                r == RetryStep::GiveUp
            }
        },
        // A request is never retried more than seven times.
        r matches RetryStep::RetryAfter { next_attempt, .. } ==> next_attempt <= MAX_RETRIES
            && next_attempt == attempt + 1,
{
    let retryable = match outcome {
        RequestOutcome::Success => return RetryStep::ReadResponse,
        RequestOutcome::HttpStatus(s) => is_retryable_status(s),
        RequestOutcome::NetworkError => true,
    };
    if retryable && attempt < MAX_RETRIES {
        let delay_secs: u64 = match attempt {
            0 => 1,
            1 => 2,
            2 => 5,
            3 => 10,
            4 => 15,
            5 => 30,
            _ => 60,
        };
        RetryStep::RetryAfter { delay_secs, next_attempt: attempt + 1 }
    } else {
        RetryStep::GiveUp
    }
}

/// Tracker site names that bias the model and are removed from release names.
pub const TRACKER_NAME_PATTERN: &'static str = r"(?i)www\.\d*(tamilmv|tamilblasters|tamilrockers|desiscenics|1tamilmv)\.[a-z]+|1tamilmv|tamilblasters|tamilrockers";

/// A release name without tracker site names, trimmed.
pub open spec fn sanitized_name_spec(raw: Seq<char>) -> Seq<char> {
    trim_spec(
        match regex_replace_every(TRACKER_NAME_PATTERN@, raw, ""@) {
            Some(s) => s,
            None => raw,
        },
    )
}

pub fn sanitize_filename_for_prompt(raw: &str) -> (r: String)
    ensures
        r@ == sanitized_name_spec(raw@),
{
    match replace_every(TRACKER_NAME_PATTERN, raw, "") {
        Some(s) => trim(s.as_str()).to_owned(),
        None => trim(raw).to_owned(),
    }
}

/// How `{:?}` writes a list of strings: `["tam", "tel"]`, with each string
/// quoted and escaped.
pub uninterp spec fn debug_list_repr(items: Seq<Seq<char>>) -> Seq<char>;

/// Formats the list with `format!("{:?}", items)`; the text is named, not written out.
#[verifier::external_body]
fn debug_list(items: &Vec<String>) -> (r: String)
    ensures
        r@ == debug_list_repr(items.deep_view()),
{
    format!("{:?}", items)
}

pub const PROMPT_INTRO: &'static str = "You are an expert film researcher. Identify the single original theatrical production language of this movie release:\n\
        - Movie Title: \"";

pub const PROMPT_YEAR: &'static str = "\"\n\
        - Release Year: ";

pub const PROMPT_STREAMS: &'static str = "\n\
        - Audio stream tracks in file: ";

pub const PROMPT_RAW_NAME: &'static str = "\n\
        - Raw release name: \"";

pub const PROMPT_RULES: &'static str = "\"\n\
        CRITICAL RULES:\n\
        1. Identify the authentic primary production language (e.g. Tamil for Kollywood, Telugu for Tollywood, Hindi for Bollywood, Malayalam for Mollywood, Kannada for Sandalwood, English for Hollywood, Japanese for Anime).\n\
        2. Set 'confidence' (0 to 100). If you are uncertain or the title could be an ambiguous remake/dub, set confidence below 70.\n\
        Return strictly JSON with keys:\n\
        - \"language_code\": 3-letter ISO-639-2 (e.g. tam, tel, hin, mal, kan, eng, jpn)\n\
        - \"language_name\": capitalized name (e.g. Tamil, Telugu, Hindi, Malayalam, Kannada, English)\n\
        - \"confidence\": integer between 0 and 100\n\
        - \"reason\": brief explanation";

/// The year as shown to the model.
pub open spec fn year_display_spec(year: Option<u32>) -> Seq<char> {
    match year {
        Some(y) => decimal(y as nat),
        None => "Unknown"@,
    }
}

/// The prompt: the fixed instructions with the title, year, stream list and
/// sanitised release name filled in.
pub open spec fn prompt_spec(
    title: Seq<char>,
    year: Option<u32>,
    streams: Seq<Seq<char>>,
    raw_filename: Seq<char>,
) -> Seq<char> {
    PROMPT_INTRO@ + title + PROMPT_YEAR@ + year_display_spec(year) + PROMPT_STREAMS@
        + debug_list_repr(streams) + PROMPT_RAW_NAME@ + sanitized_name_spec(raw_filename)
        + PROMPT_RULES@
}

/// Builds the question put to the model.
pub fn build_prompt(title: &str, year: Option<u32>, streams: &Vec<String>, raw_filename: &str) -> (r:
    String)
    ensures
        r@ == prompt_spec(title@, year, streams.deep_view(), raw_filename@),
{
    let clean_raw = sanitize_filename_for_prompt(raw_filename);
    let year_display = match year {
        Some(y) => decimal_string(y as u128),
        None => "Unknown".to_owned(),
    };
    let stream_list = debug_list(streams);
    let mut p = PROMPT_INTRO.to_owned();
    p.append(title);
    p.append(PROMPT_YEAR);
    p.append(year_display.as_str());
    p.append(PROMPT_STREAMS);
    p.append(stream_list.as_str());
    p.append(PROMPT_RAW_NAME);
    p.append(clean_raw.as_str());
    p.append(PROMPT_RULES);
    p
}

/// The request URL for a model.
pub fn gemini_request_url(model: &str, api_key: &str) -> (r: String)
    ensures
        r@ == "https://generativelanguage.googleapis.com/v1beta/models/"@ + model@
            + ":generateContent?key="@ + api_key@,
{
    let mut url = "https://generativelanguage.googleapis.com/v1beta/models/".to_owned();
    url.append(model);
    url.append(":generateContent?key=");
    url.append(api_key);
    url
}

/// Why a model's answer could not be used.
#[derive(Debug, Clone, Copy, PartialEq, Eq, Structural)]
pub enum GeminiError {
    /// The response, or the JSON text inside its first candidate, is not JSON.
    InvalidResponse,
}

/// Where the model's own text sits in a response.
pub open spec fn candidate_pointer() -> Seq<char> {
    "/candidates/0/content/parts/0/text"@
}

/// The model's answer text: the text of the first part of the first
/// candidate, else `{}`. Both `candidates` and that candidate's `parts` must
/// be arrays: a numeric step through an object finds nothing.
pub open spec fn candidate_text_spec(response: Seq<char>) -> Seq<char> {
    if json_array_len_at(response, "/candidates"@) is Some && json_array_len_at(
        response,
        "/candidates/0/content/parts"@,
    ) is Some {
        match json_str_at(response, candidate_pointer()) {
            Some(t) => t,
            None => "{}"@,
        }
    } else {
        "{}"@
    }
}

/// The origin read from an answer, given as its fields.
pub open spec fn gemini_origin_ok(
    title: Seq<char>,
    year: Option<u32>,
    model: Seq<char>,
    answer: Seq<char>,
    o: FilmOrigin,
) -> bool {
    let code = match json_str_at(answer, "/language_code"@) {
        Some(c) => c,
        None => "und"@,
    };
    let name = match json_str_at(answer, "/language_name"@) {
        Some(n) => n,
        None => "Unknown"@,
    };
    let confidence = match json_u64_at(answer, "/confidence"@) {
        Some(c) => c,
        None => 70,
    };
    &&& o.title@ == title
    &&& o.year == year
    &&& o.native_lang_code@ == normalized_code(code)
    &&& o.native_lang_name@ == name
    &&& o.source@ == "Gemini AI ("@ + model + ")"@
    &&& o.confidence as int == if confidence < 100 {
        confidence as int
    } else {
        100
    }
}

/// Reads the origin that model `model` answered: the answer is JSON text
/// inside the response's first candidate, with a language code (default
/// `und`), name (default `Unknown`) and confidence (default 70, at most 100).
pub fn gemini_origin_from_response(
    title: &str,
    year: Option<u32>,
    model: &str,
    response: &str,
) -> (r: Result<FilmOrigin, GeminiError>)
    ensures
        r is Ok <==> json_parses(response@) && json_parses(candidate_text_spec(response@)),
        r matches Ok(o) ==> gemini_origin_ok(title@, year, model@, candidate_text_spec(response@), o),
{
    if !parses(response) {
        return Err(GeminiError::InvalidResponse);
    }
    let arrays = array_len_at(response, "/candidates").is_some() && array_len_at(
        response,
        "/candidates/0/content/parts",
    ).is_some();
    let answer = if arrays {
        match str_at(response, "/candidates/0/content/parts/0/text") {
            Some(t) => t,
            None => "{}".to_owned(),
        }
    } else {
        "{}".to_owned()
    };
    if !parses(answer.as_str()) {
        return Err(GeminiError::InvalidResponse);
    }
    let code = match str_at(answer.as_str(), "/language_code") {
        Some(c) => c,
        None => "und".to_owned(),
    };
    let name = match str_at(answer.as_str(), "/language_name") {
        Some(n) => n,
        None => "Unknown".to_owned(),
    };
    let raw_confidence = match u64_at(answer.as_str(), "/confidence") {
        Some(c) => c,
        None => 70,
    };
    let confidence: u8 = if raw_confidence < 100 {
        raw_confidence as u8
    } else {
        100
    };
    let mut source = "Gemini AI (".to_owned();
    source.append(model);
    source.append(")");
    Ok(
        FilmOrigin {
            title: title.to_owned(),
            year,
            native_lang_code: normalize_lang_code(code.as_str()).to_owned(),
            native_lang_name: name,
            source,
            confidence,
        },
    )
}

} // verus!
