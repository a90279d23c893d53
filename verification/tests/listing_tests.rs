use streamgrab::domain::download::listing::{
    listing_messages, parse_segments_from_line, parse_stdout_streams, sort_by_bandwidth, stdout_rates_fit,
};
use streamgrab::domain::download::stream_info::{parse_video_line, video_line_fits};
use streamgrab::tools::version::{parse_ffmpeg_version, parse_nm3u8dl_version};

#[test]
fn video_lines() {
    let v = parse_video_line("Vid 960x544 | 785 Kbps | mp4a.40.2 | 56 Segments | ~02m49s").unwrap();
    assert_eq!(v.resolution, "960x544");
    assert_eq!((v.width, v.height), (960, 544));
    assert_eq!(v.base.bandwidth, 785_000);
    assert_eq!(v.base.codecs, "mp4a.40.2");
    assert_eq!(v.video_range, "SDR");
    let w = parse_video_line("x | Vid 1280x720").unwrap();
    assert_eq!(w.base.bandwidth, 0);
    assert_eq!(w.base.codecs, "");
    assert!(parse_video_line("Aud a").is_none());
    assert!(video_line_fits("Vid 1x1 | 4294967 Kbps"));
    assert!(!video_line_fits("Vid 1x1 | 4294968 Kbps"));
}

#[test]
fn segment_counts() {
    assert_eq!(parse_segments_from_line("Vid 960x544 | 56 Segments"), Some(56));
    assert_eq!(parse_segments_from_line("12segment"), Some(12));
    assert_eq!(parse_segments_from_line("no count here"), None);
}

#[test]
fn listing_is_read_and_sorted() {
    let out = "\
21:29:59.639 INFO : Vid 960x544 | 785 Kbps | avc1 | 56 Segments | ~02m49s\r
Vid 1920x1080 | 4000 Kbps | avc1 | 56 Segments
  Aud audio-32000 | Audio | 57 Segments | ~02m49s
Aud audio-128000 | Audio | 57 Segments
Sub zh | Chinese
";
    assert!(stdout_rates_fit(out));
    let r = parse_stdout_streams(out);
    assert_eq!(r.videos.len(), 2);
    assert_eq!(r.videos[0].resolution, "1920x1080");
    assert_eq!(r.videos[1].resolution, "960x544");
    assert_eq!(r.audios[0].base.bandwidth, 128000);
    assert_eq!(r.audios[1].base.bandwidth, 32000);
    assert_eq!(r.subtitles.len(), 1);
    // The largest "N Segments" count.
    assert_eq!(r.segment_count, 57);
}

#[test]
fn documented_example_listing() {
    let out = "Vid 960x544 | 785 Kbps | mp4a.40.2 | 56 Segments | ~02m49s\nAud audio-32000 | Audio | 57 Segments | ~02m49s";
    let r = parse_stdout_streams(out);
    assert_eq!(r.videos.len(), 1);
    assert_eq!((r.videos[0].width, r.videos[0].height), (960, 544));
    assert_eq!(r.videos[0].base.bandwidth, 785_000);
    assert_eq!(r.audios.len(), 1);
    assert_eq!(r.audios[0].base.bandwidth, 32_000);
    assert_eq!(r.segment_count, 57);
}

#[test]
fn equal_bandwidths_keep_their_order() {
    let out = "Vid 1x1 | 5 Kbps | a\nVid 2x2 | 9 Kbps | b\nVid 3x3 | 5 Kbps | c\n";
    let r = parse_stdout_streams(out);
    let order: Vec<&str> = r.videos.iter().map(|v| v.base.codecs.as_str()).collect();
    assert_eq!(order, vec!["b", "a", "c"]);
    let again = sort_by_bandwidth(r.videos.clone());
    assert_eq!(again, r.videos);
}

#[test]
fn empty_listing() {
    let r = parse_stdout_streams("");
    assert!(r.videos.is_empty() && r.audios.is_empty() && r.subtitles.is_empty());
    assert_eq!(r.segment_count, 0);
}

#[test]
fn nm3u8dl_versions() {
    assert_eq!(
        parse_nm3u8dl_version("N_m3u8DL-RE version 0.3.0-beta\n", "").as_deref(),
        Some("0.3.0-beta")
    );
    assert_eq!(
        parse_nm3u8dl_version("Version: 1.2.3 (build)\n", "").as_deref(),
        Some("1.2.3")
    );
    assert_eq!(parse_nm3u8dl_version("release 9.9.9\n", "").as_deref(), None);
    assert_eq!(parse_nm3u8dl_version("", "warning 2.4.6\n").as_deref(), Some("2.4.6"));
    assert_eq!(parse_nm3u8dl_version("version\n", "").as_deref(), None);
}

#[test]
fn ffmpeg_versions() {
    assert_eq!(
        parse_ffmpeg_version("ffmpeg version 6.1.1 Copyright (c) 2000-2023\nbuilt with gcc").as_deref(),
        Some("6.1.1")
    );
    assert_eq!(parse_ffmpeg_version("ffmpeg version 7.0-static").as_deref(), Some("7.0"));
    assert_eq!(parse_ffmpeg_version("\nffmpeg version 6.1").as_deref(), None);
    assert_eq!(parse_ffmpeg_version("").as_deref(), None);
}

use streamgrab::tools::version::{tool_info, tool_not_found};

#[test]
fn tool_information() {
    let missing = tool_info("FFmpeg", "/x/ffmpeg".into(), false, Ok((String::new(), String::new())), false);
    assert!(!missing.installed);
    assert_eq!(missing.error.as_deref(), Some("文件不存在"));
    assert_eq!(missing.path.as_deref(), Some("/x/ffmpeg"));
    let failed = tool_info("FFmpeg", "/x/ffmpeg".into(), true, Err("denied".into()), false);
    assert_eq!(failed.error.as_deref(), Some("执行失败: denied"));
    let ok = tool_info(
        "N_m3u8DL-RE",
        "/x/re".into(),
        true,
        Ok(("N_m3u8DL-RE version 0.3.0\n".into(), String::new())),
        true,
    );
    assert!(ok.installed);
    assert_eq!(ok.version.as_deref(), Some("0.3.0"));
    assert_eq!(tool_not_found("FFmpeg"), "FFmpeg 未找到，请配置路径");
}

#[test]
fn listing_messages_strip_log_prefixes() {
    let out = "21:29:59.639 INFO : Vid 960x544 | 785 Kbps\n  Aud mp4a | 128 Kbps  \r\n12:00:00.1 WARN: ~02m49s\nplain";
    assert_eq!(
        listing_messages(out),
        vec![
            "Vid 960x544 | 785 Kbps".to_string(),
            "Aud mp4a | 128 Kbps".to_string(),
            "~02m49s".to_string(),
            "plain".to_string(),
        ]
    );
}
