use dubstrip::ai::FilmOrigin;
use dubstrip::config::{
    choose_gemini_key, choose_gemini_model, parse_toml_config, render_config, DubstripConfig,
};
use dubstrip::decide::{classify_track, evaluate_audio_streams};
use dubstrip::notify::{
    format_track_summaries, notification_args, notify_preserved_multi, notify_strip,
};
use dubstrip::paths::{extension, file_name, file_stem};
use dubstrip::plan::{
    is_sweep_video, is_video_extension, origin_banner, origin_description, plan_strip,
    sweep_totals, OriginBanner, StripPlan,
};
use dubstrip::probe::{media_info_from_streams, AudioStream, MediaInfo, ProbeStream};
use dubstrip::remux::{bytes_reclaimed, check_remuxed_size, format_bytes, remux_arguments, RemuxError};
use dubstrip::safety::{
    advance_safety_check, fuser_reports_lock, incomplete_extension, is_file_safe_and_complete,
    passes_name_and_path_check, passes_quiescence, SafetyGate, SafetyStep,
};
use dubstrip::ui::{
    default_keep_indices, is_yes_answer, mask_api_key, parse_confirmation, short_title, Action,
    ConfirmChoice,
    TrackDecision,
};

fn stream(index: u32, language: &str, title: &str, is_default: bool) -> AudioStream {
    AudioStream {
        index,
        codec: "aac".to_string(),
        channels: 6,
        language: language.to_string(),
        title: title.to_string(),
        is_default,
        is_original: false,
    }
}

fn media(streams: Vec<AudioStream>) -> MediaInfo {
    MediaInfo {
        path: "/m/film.mkv".to_string(),
        size_bytes: 1000,
        video_count: 1,
        audio_streams: streams,
        subtitle_count: 0,
    }
}

fn origin(code: &str, confidence: u8) -> FilmOrigin {
    FilmOrigin {
        title: "Film".to_string(),
        year: Some(2024),
        native_lang_code: code.to_string(),
        native_lang_name: "Native".to_string(),
        source: "Test".to_string(),
        confidence,
    }
}

#[test]
fn test_single_track_is_immune() {
    let media = MediaInfo {
        path: "/test.mkv".to_string(),
        size_bytes: 1000,
        video_count: 1,
        subtitle_count: 1,
        audio_streams: vec![AudioStream {
            index: 1,
            codec: "aac".to_string(),
            channels: 2,
            language: "hin".to_string(),
            title: "Dub".to_string(),
            is_default: true,
            is_original: false,
        }],
    };
    let origin = FilmOrigin {
        title: "Test".to_string(),
        year: Some(2025),
        native_lang_code: "tel".to_string(),
        native_lang_name: "Telugu".to_string(),
        source: "Test".to_string(),
        confidence: 100,
    };

    let decisions = evaluate_audio_streams(&media, &origin);
    assert_eq!(decisions.len(), 1);
    assert_eq!(decisions[0].action, Action::Keep);
}

#[test]
fn test_incomplete_extensions_rejected() {
    assert!(!passes_name_and_path_check("/downloads/movie.mkv.!qB"));
    assert!(!passes_name_and_path_check("/downloads/movie.mkv.part"));
    assert!(!passes_name_and_path_check("/downloads/incomplete/movie.mkv"));
    assert!(passes_name_and_path_check("/downloads/completed/movie.mkv"));
}

#[test]
fn dubs_are_stripped_when_origin_is_trusted() {
    let m = media(vec![
        stream(1, "tam", "", false),
        stream(2, "tel", "", false),
        stream(3, "mal", "", true),
        stream(4, "und", "", false),
        stream(5, "Malayalam", "", false),
    ]);
    let d = evaluate_audio_streams(&m, &origin("mal", 100));
    let actions: Vec<Action> = d.iter().map(|x| x.action).collect();
    assert_eq!(
        actions,
        vec![Action::Strip, Action::Strip, Action::Keep, Action::Keep, Action::Keep]
    );
    assert_eq!(d[0].reason, "Dubbed audio track");
    assert_eq!(d[2].reason, "Native theatrical track");
    assert_eq!(d[3].reason, "Unknown tag (Fail-safe preserved)");
    assert_eq!(d[0].channels, "5.1 Surround");
    assert_eq!(d[4].language, "Malayalam");
}

#[test]
fn untrusted_origin_strips_nothing() {
    let m = media(vec![stream(1, "tam", "", false), stream(2, "mal", "", false)]);
    let d = evaluate_audio_streams(&m, &origin("mal", 79));
    assert!(d.iter().all(|x| x.action == Action::Keep));
    assert_eq!(d[0].reason, "Primary audio fallback");
    assert_eq!(d[1].reason, "Preserved (Uncertain origin)");
}

#[test]
fn no_native_track_keeps_everything() {
    let m = media(vec![
        stream(3, "tam", "Original Audio", false),
        stream(4, "tel", "", true),
        stream(5, "hin", "", false),
    ]);
    let d = evaluate_audio_streams(&m, &origin("kan", 100));
    assert!(d.iter().all(|x| x.action == Action::Keep));
    assert_eq!(d[0].reason, "Original tag preserved");
    assert_eq!(d[1].reason, "Default stream fallback");
    assert_eq!(d[2].reason, "Preserved (Uncertain origin)");
}

#[test]
fn empty_stream_list_gives_no_decisions() {
    let d = evaluate_audio_streams(&media(vec![]), &origin("mal", 100));
    assert!(d.is_empty());
}

#[test]
fn classify_track_reads_lowercased_title() {
    let s = stream(2, "tel", "ORIGINAL", false);
    assert_eq!(classify_track(&s, "original", "mal", false, 1), (Action::Keep, "Original tag preserved"));
    assert_eq!(classify_track(&s, "", "tel", true, 1), (Action::Keep, "Native theatrical track"));
    assert_eq!(classify_track(&s, "", "mal", true, 1), (Action::Strip, "Dubbed audio track"));
}

#[test]
fn probe_streams_are_classified() {
    let streams = vec![
        ProbeStream {
            index: 0,
            codec_name: Some("h264".to_string()),
            codec_type: "video".to_string(),
            channels: None,
            default_flag: Some(1),
            original_flag: None,
            language: None,
            title: None,
        },
        ProbeStream {
            index: 1,
            codec_name: None,
            codec_type: "audio".to_string(),
            channels: None,
            default_flag: Some(1),
            original_flag: Some(0),
            language: None,
            title: None,
        },
        ProbeStream {
            index: 2,
            codec_name: Some("subrip".to_string()),
            codec_type: "subtitle".to_string(),
            channels: None,
            default_flag: None,
            original_flag: None,
            language: Some("eng".to_string()),
            title: None,
        },
    ];
    let m = media_info_from_streams("/a.mkv".to_string(), 42, &streams);
    assert_eq!(m.video_count, 1);
    assert_eq!(m.subtitle_count, 1);
    assert_eq!(m.audio_streams.len(), 1);
    let a = &m.audio_streams[0];
    assert_eq!(a.index, 1);
    assert_eq!(a.codec, "unknown");
    assert_eq!(a.channels, 2);
    assert_eq!(a.language, "und");
    assert_eq!(a.title, "");
    assert!(a.is_default);
    assert!(!a.is_original);
    assert!(a.is_und());
    assert_eq!(a.channel_layout_label(), "2.0 Stereo");
}

#[test]
fn channel_labels_and_und_tags() {
    let mut s = stream(1, "UNKNOWN", "", false);
    assert!(s.is_und());
    s.language = "tam".to_string();
    assert!(!s.is_und());
    for (c, l) in [(1, "1.0 Mono"), (2, "2.0 Stereo"), (6, "5.1 Surround"), (8, "7.1 Surround"), (3, "Multi-Channel")] {
        s.channels = c;
        assert_eq!(s.channel_layout_label(), l);
    }
}

#[test]
fn format_bytes_exact_values() {
    assert_eq!(format_bytes(0), "0 B");
    assert_eq!(format_bytes(1023), "1023 B");
    assert_eq!(format_bytes(1024), "1.0 KiB");
    assert_eq!(format_bytes(1536), "1.5 KiB");
    assert_eq!(format_bytes(1048576), "1.0 MiB");
    assert_eq!(format_bytes(1073741824), "1.00 GiB");
    assert_eq!(format_bytes(11_531_655_004), "10.74 GiB");
}

#[test]
fn format_bytes_agrees_with_float_formatting() {
    const KIB: u64 = 1024;
    const MIB: u64 = KIB * 1024;
    const GIB: u64 = MIB * 1024;
    fn reference(bytes: u64) -> String {
        if bytes >= GIB {
            format!("{:.2} GiB", bytes as f64 / GIB as f64)
        } else if bytes >= MIB {
            format!("{:.1} MiB", bytes as f64 / MIB as f64)
        } else if bytes >= KIB {
            format!("{:.1} KiB", bytes as f64 / KIB as f64)
        } else {
            format!("{bytes} B")
        }
    }
    let mut samples: Vec<u64> = vec![
        1_207_959_552, // 1.125 GiB: a tie
        1_218_702_950,
        3 * GIB / 8 * 3,
        GIB + GIB / 200,
        5 * MIB / 20 * 3,
        KIB * 5 / 4 * 3 / 2,
        KIB + 51,
        KIB * 1023 + 1000,
        (1u64 << 53) + 1,
        (1u64 << 53) + 3,
        (1u64 << 60) + (1u64 << 7) * 3,
        u64::MAX,
        u64::MAX - 2047,
        999_999_999_999,
    ];
    let mut x: u64 = 0x9e37_79b9_7f4a_7c15;
    for _ in 0..2000 {
        x ^= x << 13;
        x ^= x >> 7;
        x ^= x << 17;
        samples.push(x >> (x % 64));
    }
    for b in samples {
        assert_eq!(format_bytes(b), reference(b), "bytes = {b}");
    }
}

#[test]
fn remux_arguments_keep_chosen_audio() {
    let args = remux_arguments("/m/a.mkv", "/m/a.tmp.mkv", &vec![1, 3]).unwrap();
    assert_eq!(
        args,
        vec![
            "-y", "-v", "error", "-i", "/m/a.mkv", "-map", "0:v", "-map", "0:1", "-map", "0:3",
            "-map", "0:s?", "-map_chapters", "0", "-c", "copy", "/m/a.tmp.mkv"
        ]
    );
    assert_eq!(remux_arguments("a", "b", &vec![]).unwrap_err(), RemuxError::NoAudioKept);
    assert_eq!(check_remuxed_size(10239), Err(RemuxError::SuspiciouslySmall(10239)));
    assert_eq!(check_remuxed_size(10240), Ok(()));
    assert_eq!(bytes_reclaimed(100, 30), 70);
    assert_eq!(bytes_reclaimed(30, 100), 0);
}

#[test]
fn safety_gates_run_in_order() {
    assert_eq!(is_file_safe_and_complete("/d/incomplete/a.mkv", false), SafetyStep::Verdict(false));
    assert_eq!(
        is_file_safe_and_complete("/d/a.mkv", false),
        SafetyStep::Check(SafetyGate::ActiveLock)
    );
    assert_eq!(
        advance_safety_check(SafetyGate::ActiveLock, true, false),
        SafetyStep::Check(SafetyGate::Quiescence)
    );
    assert_eq!(
        advance_safety_check(SafetyGate::ActiveLock, true, true),
        SafetyStep::Check(SafetyGate::ContainerIndex)
    );
    assert_eq!(advance_safety_check(SafetyGate::Quiescence, false, false), SafetyStep::Verdict(false));
    assert_eq!(advance_safety_check(SafetyGate::ContainerIndex, true, false), SafetyStep::Verdict(true));
    assert!(!passes_name_and_path_check("/D/DOWNLOADING/a.mkv"));
    assert!(!passes_name_and_path_check("/d/a.mkv.CrDownload"));
    assert!(passes_name_and_path_check("/d/.part"));
}

#[test]
fn lock_and_settling_decisions() {
    assert!(fuser_reports_lock(true, " 1234", ""));
    assert!(fuser_reports_lock(true, "", "/f: 12w"));
    assert!(!fuser_reports_lock(true, "  \n", ""));
    assert!(!fuser_reports_lock(false, "1234", "w"));
    assert!(passes_quiescence(None));
    assert!(passes_quiescence(Some(60)));
    assert!(!passes_quiescence(Some(59)));
}

#[test]
fn path_components() {
    assert_eq!(file_name("/a/b.mkv"), Some("b.mkv"));
    assert_eq!(file_name("/a/b.mkv/."), Some("b.mkv"));
    assert_eq!(file_name("/a/b//"), Some("b"));
    assert_eq!(file_name("/a/.."), None);
    assert_eq!(file_name("/"), None);
    assert_eq!(file_stem("/a/.hidden"), Some(".hidden"));
    assert_eq!(file_stem("/a/x.tar.gz"), Some("x.tar"));
    assert_eq!(extension("/a/x.tar.gz"), Some("gz"));
    assert_eq!(extension("/a/.hidden"), None);
    assert_eq!(extension("/a/noext"), None);
}

fn decision(index: u32, lang: &str, action: Action) -> TrackDecision {
    TrackDecision {
        index,
        language: lang.to_string(),
        codec: "aac".to_string(),
        channels: "2.0 Stereo".to_string(),
        title: String::new(),
        action,
        reason: String::new(),
    }
}

#[test]
fn summaries_and_notifications() {
    let d = vec![
        decision(1, "tam", Action::Strip),
        decision(2, "mal", Action::Keep),
        decision(3, "tel", Action::Strip),
    ];
    let (kept, stripped) = format_track_summaries(&d);
    assert_eq!(kept, "mal 2.0 Stereo [aac]");
    assert_eq!(stripped, "tam 2.0 Stereo [aac], tel 2.0 Stereo [aac]");
    let n = notify_strip("Leo", "Tamil", &d, 2048, 1024);
    assert_eq!(n.prev_size, "2.0 KiB");
    assert_eq!(n.new_size, "1.0 KiB");
    assert_eq!(n.reclaimed, "1.0 KiB");
    assert_eq!(n.stripped, stripped);
    let args = notification_args(&n);
    assert_eq!(args.len(), 16);
    assert_eq!(args[3], "Leo");
    assert_eq!(args[14], "--reclaimed");
    let p = notify_preserved_multi("Leo", "Tamil", &d, 10);
    assert_eq!(p.stripped, "None (Preserved Multi)");
    assert_eq!(p.prev_size, "10 B");
    assert_eq!(p.reclaimed, "0 B (Multi Kept)");
    assert_eq!(default_keep_indices(&d), vec![2]);
}

#[test]
fn strip_plans() {
    let clean = vec![decision(1, "mal", Action::Keep)];
    let dubbed = vec![decision(1, "mal", Action::Keep), decision(2, "tam", Action::Strip)];
    assert_eq!(plan_strip(&clean, &origin("mal", 90), false), StripPlan::AlreadyClean);
    assert_eq!(plan_strip(&clean, &origin("mal", 50), false), StripPlan::PreserveMulti);
    assert_eq!(plan_strip(&dubbed, &origin("mal", 90), true), StripPlan::DryRun(1));
    assert_eq!(plan_strip(&dubbed, &origin("mal", 90), false), StripPlan::Remux(1));
    assert_eq!(origin_description(&origin("mal", 85)), "Native [85% confident] (via Test)");
    assert!(is_sweep_video("/a/b.MKV"));
    assert!(is_sweep_video("/a/b.mp4"));
    assert!(!is_sweep_video("/a/b.avi"));
}

#[test]
fn confirmation_answers() {
    assert_eq!(parse_confirmation("\n"), ConfirmChoice::Accept);
    assert_eq!(parse_confirmation(" YES "), ConfirmChoice::Accept);
    assert_eq!(parse_confirmation("n"), ConfirmChoice::Decline);
    assert_eq!(parse_confirmation("Custom"), ConfirmChoice::Custom);
    assert_eq!(parse_confirmation("maybe"), ConfirmChoice::Invalid);
    assert!(is_yes_answer(" Y\n"));
    assert!(!is_yes_answer("yes"));
    assert_eq!(short_title("short"), "short");
    assert_eq!(short_title("abcdefghijklmnopqrstuvwxyz"), "abcdefghijklmnopqrstu…");
}

#[test]
fn config_round_trip_and_priorities() {
    let c = parse_toml_config("# c\ngemini_api_key = \"abc\"\r\ngemini_model='m1'\ngemini_model = \"\"\n");
    assert_eq!(c.gemini_api_key.as_deref(), Some("abc"));
    assert_eq!(c.gemini_model.as_deref(), Some("m1"));
    let text = render_config(&c);
    assert_eq!(text, "# DubStrip Configuration\ngemini_api_key = \"abc\"\ngemini_model = \"m1\"\n");
    let back = parse_toml_config(&text);
    assert_eq!(back.gemini_api_key, c.gemini_api_key);
    assert_eq!(back.gemini_model, c.gemini_model);
    let empty = DubstripConfig::default();
    assert_eq!(choose_gemini_model(None, &empty), "gemini-3.6-flash");
    assert_eq!(choose_gemini_model(Some("  ".to_string()), &c), "m1");
    assert_eq!(choose_gemini_model(Some(" env ".to_string()), &c), "env");
    assert_eq!(choose_gemini_key(None, &c, None).as_deref(), Some("abc"));
    assert_eq!(choose_gemini_key(Some(" k ".to_string()), &c, None).as_deref(), Some("k"));
    assert_eq!(
        choose_gemini_key(None, &empty, Some("inherited".to_string())).as_deref(),
        Some("inherited")
    );
    assert_eq!(choose_gemini_key(None, &empty, None), None);
}

#[test]
fn kannada_original_keeps_kannada_and_strips_malayalam() {
    let m = media(vec![
        stream(1, "kan", "", true),
        stream(2, "mal", "", false),
        stream(3, "tel", "", false),
        stream(4, "hin", "", false),
    ]);
    let d = evaluate_audio_streams(&m, &origin("kan", 95));
    let actions: Vec<Action> = d.iter().map(|x| x.action).collect();
    assert_eq!(actions, vec![Action::Keep, Action::Strip, Action::Strip, Action::Strip]);
    assert_eq!(default_keep_indices(&d), vec![1]);
}

#[test]
fn unresolved_origin_preserves_multi() {
    let m = media(vec![stream(1, "tam", "", true), stream(2, "tel", "", false)]);
    let unresolved = FilmOrigin {
        title: "Film".to_string(),
        year: None,
        native_lang_code: "und".to_string(),
        native_lang_name: "Unknown / Unresolved".to_string(),
        source: "Unresolved".to_string(),
        confidence: 0,
    };
    let d = evaluate_audio_streams(&m, &unresolved);
    assert!(d.iter().all(|x| x.action == Action::Keep));
    assert_eq!(plan_strip(&d, &unresolved, false), StripPlan::PreserveMulti);
}

#[test]
fn every_incomplete_extension_is_rejected() {
    for ext in ["!qb", "part", "crdownload", "tmp", "downloading", "aria2", "PART", "Tmp"] {
        let p = format!("/media/movie.mkv.{ext}");
        assert!(!passes_name_and_path_check(&p), "{p}");
    }
    assert!(passes_name_and_path_check("/media/movie.mkv"));
    assert!(passes_name_and_path_check("/media/partial/movie.mkv"));
}

#[test]
fn remux_copies_streams_without_reencoding() {
    let args = remux_arguments("in.mkv", "out.mkv", &vec![2]).unwrap();
    let joined = args.join(" ");
    assert!(joined.contains("-c copy"));
    assert!(joined.contains("-map 0:v"));
    assert!(joined.contains("-map 0:2"));
}

#[test]
fn gemini_key_is_absent_only_when_every_source_is_blank() {
    let blank = parse_toml_config("gemini_api_key = \"  \"\n");
    assert_eq!(blank.gemini_api_key, None);
    let stored = DubstripConfig {
        gemini_api_key: Some("  ".to_string()),
        gemini_model: None,
    };
    assert_eq!(choose_gemini_key(Some(" \t".to_string()), &stored, None), None);
    assert_eq!(
        choose_gemini_key(Some(" ".to_string()), &stored, Some("ryoiki".to_string())).as_deref(),
        Some("ryoiki")
    );
    let set = DubstripConfig {
        gemini_api_key: Some(" cfg ".to_string()),
        gemini_model: None,
    };
    assert_eq!(choose_gemini_key(Some("".to_string()), &set, Some("x".to_string())).as_deref(), Some("cfg"));
}

#[test]
fn api_keys_are_masked() {
    assert_eq!(mask_api_key("AIzaSyExampleKey1234"), "AIza...1234");
    assert_eq!(mask_api_key("123456789"), "1234...6789");
    assert_eq!(mask_api_key("12345678"), "****");
    assert_eq!(mask_api_key(""), "****");
    assert_eq!(mask_api_key("ééé-abcd-éé"), "éé...éé");
}

#[test]
fn origin_banners() {
    assert_eq!(origin_banner(&origin("tam", 95)), OriginBanner::Confident);
    assert_eq!(origin_banner(&origin("tam", 80)), OriginBanner::Confident);
    assert_eq!(origin_banner(&origin("tam", 79)), OriginBanner::Uncertain);
    assert_eq!(origin_banner(&origin("und", 100)), OriginBanner::Unresolved);
}

#[test]
fn sweep_totals_count_successes_and_bytes() {
    assert_eq!(sweep_totals(&vec![]), (0, 0));
    assert_eq!(sweep_totals(&vec![Some(10), None, Some(5), Some(0)]), (3, 15));
    assert_eq!(sweep_totals(&vec![None, None]), (0, 0));
}

#[test]
fn lowercased_extensions() {
    assert!(incomplete_extension("part"));
    assert!(incomplete_extension("!qb"));
    assert!(!incomplete_extension("PART"));
    assert!(!incomplete_extension("mkv"));
    assert!(is_video_extension("mkv"));
    assert!(is_video_extension("mp4"));
    assert!(!is_video_extension("MKV"));
    assert!(!is_video_extension("avi"));
    assert!(is_sweep_video("/m/Film.MKV"));
    assert!(!passes_name_and_path_check("/m/Film.mkv.PART"));
}
