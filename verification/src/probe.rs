//! Media container description: the streams that a probe of a file reports.
use vstd::prelude::*;

use crate::text::{eq_ignore_ascii_case, eq_ignore_ascii_case_spec, str_eq};

verus! {

/// What a probe reports of one media file.
#[derive(Debug, Clone)]
pub struct MediaInfo {
    pub path: String,
    pub size_bytes: u64,
    pub video_count: usize,
    pub audio_streams: Vec<AudioStream>,
    pub subtitle_count: usize,
}

/// One audio stream of a media file.
#[derive(Debug, Clone)]
pub struct AudioStream {
    pub index: u32,
    pub codec: String,
    pub channels: u32,
    pub language: String,
    pub title: String,
    pub is_default: bool,
    pub is_original: bool,
}

/// The language tag of the stream is missing or explicitly unknown.
pub open spec fn stream_is_und(s: AudioStream) -> bool {
    ||| s.language@.len() == 0
    ||| eq_ignore_ascii_case_spec(s.language@, "und"@)
    ||| eq_ignore_ascii_case_spec(s.language@, "unknown"@)
}

/// The label under which a channel count is shown.
pub open spec fn channel_label_spec(channels: u32) -> Seq<char> {
    if channels == 1 {
        "1.0 Mono"@
    } else if channels == 2 {
        "2.0 Stereo"@
    } else if channels == 6 {
        "5.1 Surround"@
    } else if channels == 8 {
        "7.1 Surround"@
    } else {
        "Multi-Channel"@
    }
}

impl AudioStream {
    /// Whether the stream carries no usable language tag (empty, `und` or `unknown`,
    /// in any ASCII case).
    pub fn is_und(&self) -> (r: bool)
        ensures
            r == stream_is_und(*self),
    {
        self.language.as_str().is_empty() || eq_ignore_ascii_case(self.language.as_str(), "und")
            || eq_ignore_ascii_case(self.language.as_str(), "unknown")
    }

    /// A readable name for the stream's channel layout.
    pub fn channel_layout_label(&self) -> (r: &'static str)
        ensures
            r@ == channel_label_spec(self.channels),
    {
        match self.channels {
            1 => "1.0 Mono",
            2 => "2.0 Stereo",
            6 => "5.1 Surround",
            8 => "7.1 Surround",
            _ => "Multi-Channel",
        }
    }
}

/// One stream as the container probe lists it, before classification.
#[derive(Debug, Clone)]
pub struct ProbeStream {
    pub index: u32,
    pub codec_name: Option<String>,
    pub codec_type: String,
    pub channels: Option<u32>,
    pub default_flag: Option<u32>,
    pub original_flag: Option<u32>,
    pub language: Option<String>,
    pub title: Option<String>,
}

/// The kind of a probed stream, by its `codec_type`.
pub open spec fn is_kind(p: ProbeStream, kind: Seq<char>) -> bool {
    p.codec_type@ == kind
}

/// The number of streams of `kind` among the first `n` of `ps`.
pub open spec fn count_kind(ps: Seq<ProbeStream>, kind: Seq<char>, n: int) -> nat
    decreases n,
{
    if n <= 0 {
        0
    } else {
        count_kind(ps, kind, n - 1) + if is_kind(ps[n - 1], kind) {
            1nat
        } else {
            0nat
        }
    }
}

/// The audio streams among the first `n` of `ps`, in order.
pub open spec fn audio_of(ps: Seq<ProbeStream>, n: int) -> Seq<ProbeStream>
    decreases n,
{
    if n <= 0 {
        Seq::empty()
    } else if is_kind(ps[n - 1], "audio"@) {
        audio_of(ps, n - 1).push(ps[n - 1])
    } else {
        audio_of(ps, n - 1)
    }
}

/// The audio stream description that a probed audio stream gives.
pub open spec fn audio_stream_of(p: ProbeStream, s: AudioStream) -> bool {
    &&& s.index == p.index
    &&& s.codec@ == (match p.codec_name {
        Some(c) => c@,
        None => "unknown"@,
    })
    &&& s.channels == (match p.channels {
        Some(c) => c,
        None => 2,
    })
    &&& s.is_default == (p.default_flag == Some(1u32))
    &&& s.is_original == (p.original_flag == Some(1u32))
    &&& s.language@ == (match p.language {
        Some(l) => l@,
        None => "und"@,
    })
    &&& s.title@ == (match p.title {
        Some(t) => t@,
        None => Seq::<char>::empty(),
    })
}

fn owned_or(v: &Option<String>, default: &str) -> (r: String)
    ensures
        r@ == (match v {
            Some(s) => s@,
            None => default@,
        }),
{
    match v {
        Some(s) => s.clone(),
        None => default.to_owned(),
    }
}

/// Builds the description of a media file from the streams its probe listed:
/// video and subtitle streams are counted, audio streams are kept in order with
/// their defaults filled in (two channels, language `und`, codec `unknown`).
pub fn media_info_from_streams(path: String, size_bytes: u64, streams: &Vec<ProbeStream>) -> (r:
    MediaInfo)
    ensures
        r.path == path,
        r.size_bytes == size_bytes,
        r.video_count == count_kind(streams@, "video"@, streams@.len() as int),
        r.subtitle_count == count_kind(streams@, "subtitle"@, streams@.len() as int),
        r.audio_streams@.len() == audio_of(streams@, streams@.len() as int).len(),
        forall|i: int|
            0 <= i < r.audio_streams@.len() ==> audio_stream_of(
                #[trigger] audio_of(streams@, streams@.len() as int)[i],
                r.audio_streams@[i],
            ),
{
    let mut video_count: usize = 0;
    let mut subtitle_count: usize = 0;
    let mut audio_streams: Vec<AudioStream> = Vec::new();
    let mut i: usize = 0;
    while i < streams.len()
        invariant
            i <= streams@.len(),
            video_count == count_kind(streams@, "video"@, i as int),
            subtitle_count == count_kind(streams@, "subtitle"@, i as int),
            audio_streams@.len() == audio_of(streams@, i as int).len(),
            forall|j: int|
                0 <= j < audio_streams@.len() ==> audio_stream_of(
                    #[trigger] audio_of(streams@, i as int)[j],
                    audio_streams@[j],
                ),
            count_kind(streams@, "video"@, i as int) <= i,
            count_kind(streams@, "subtitle"@, i as int) <= i,
        decreases streams@.len() - i,
    {
        let s = &streams[i];
        let kind = s.codec_type.as_str();
        let ghost prev = audio_of(streams@, i as int);
        proof {
            reveal_strlit("video");
            reveal_strlit("subtitle");
            reveal_strlit("audio");
            assert("video"@[0] == 'v' && "subtitle"@[0] == 's' && "audio"@[0] == 'a');
            assert("video"@ != "subtitle"@);
            assert("video"@ != "audio"@);
            assert("subtitle"@ != "audio"@);
        }
        if str_eq(kind, "video") {
            video_count = video_count + 1;
        } else if str_eq(kind, "subtitle") {
            subtitle_count = subtitle_count + 1;
        } else if str_eq(kind, "audio") {
            let channels = match s.channels {
                Some(c) => c,
                None => 2,
            };
            let is_default = match s.default_flag {
                Some(v) => v == 1,
                None => false,
            };
            let is_original = match s.original_flag {
                Some(v) => v == 1,
                None => false,
            };
            let stream = AudioStream {
                index: s.index,
                codec: owned_or(&s.codec_name, "unknown"),
                channels,
                language: owned_or(&s.language, "und"),
                title: owned_or(&s.title, ""),
                is_default,
                is_original,
            };
            proof {
                reveal_strlit("");
                assert(""@ =~= Seq::<char>::empty());
            }
            audio_streams.push(stream);
        }
        proof {
            assert(audio_of(streams@, i + 1) == if is_kind(streams@[i as int], "audio"@) {
                prev.push(streams@[i as int])
            } else {
                prev
            });
        }
        i = i + 1;
    }
    MediaInfo { path, size_bytes, video_count, audio_streams, subtitle_count }
}

} // verus!
