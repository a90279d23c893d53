use streamgrab::domain::download::probe::{parse_ffprobe_output, streams_from_probe, ProbeStream};
use streamgrab::domain::download::stream_info::{parse_audio_line, parse_subtitle_line};
use streamgrab::domain::download::{ProgressTracker, SamplingPolicy, TaskProgressBuffer};

#[test]
fn audio_lines() {
    let a = parse_audio_line("Aud audio-32000 | Audio | 57 Segments | ~02m49s").unwrap();
    assert_eq!(a.base.id, "audio-32000");
    assert_eq!(a.base.name, "audio-32000");
    assert_eq!(a.base.bandwidth, 32000);
    assert_eq!(a.channels, "2");
    assert!(!a.is_default);
    let b = parse_audio_line("21:29:59.639 INFO : x | Aud en | English").unwrap();
    assert_eq!(b.base.id, "en");
    assert_eq!(b.base.bandwidth, 0);
    assert!(parse_audio_line("Vid 960x544 | 785 Kbps").is_none());
}

#[test]
fn subtitle_lines() {
    let s = parse_subtitle_line("Sub zh-Hans | Chinese | WebVTT").unwrap();
    assert_eq!(s.base.id, "zh-Hans");
    assert_eq!(s.format, "srt");
    assert!(!s.is_forced);
    assert!(parse_subtitle_line("Subtitle").is_none());
}

fn probe(codec_type: &str) -> ProbeStream {
    ProbeStream {
        codec_type: Some(codec_type.into()),
        width: None,
        height: None,
        codec_name: None,
        bit_rate: None,
        channels: None,
        sample_rate: None,
        language: None,
    }
}

#[test]
fn streams_of_a_direct_url() {
    let mut v = probe("video");
    v.width = Some(1920);
    v.height = Some(1080);
    v.codec_name = Some("h264".into());
    v.bit_rate = Some("4000000".into());
    let mut a = probe("audio");
    a.codec_name = Some("aac".into());
    a.sample_rate = Some("44100".into());
    a.language = Some("eng".into());
    let (videos, audios) = streams_from_probe(&vec![v, probe("data"), a]).unwrap();
    assert_eq!(videos.len(), 1);
    assert_eq!(videos[0].resolution, "1920x1080");
    assert_eq!(videos[0].base.id, "video_1920x1080");
    assert_eq!(videos[0].base.bandwidth, 4000000);
    assert_eq!(videos[0].base.selected, Some(true));
    assert_eq!(videos[0].video_range, "SDR");
    assert_eq!(audios.len(), 1);
    assert_eq!(audios[0].channels, "2");
    assert_eq!(audios[0].sample_rate, 44100);
    assert_eq!(audios[0].base.language, "eng");
    assert!(audios[0].is_default);
}

#[test]
fn probe_without_streams_is_refused() {
    assert_eq!(
        streams_from_probe(&vec![probe("data")]).unwrap_err(),
        "未找到有效的视频或音频流"
    );
    let mut big = probe("video");
    big.width = Some(4294967296 + 7);
    let (videos, _) = streams_from_probe(&vec![big]).unwrap();
    assert_eq!(videos[0].width, 7);
    assert_eq!(videos[0].resolution, "7x0");
}

#[test]
fn progress_sampling() {
    let policy = SamplingPolicy::new();
    let mut b = TaskProgressBuffer::default();
    // The first report is kept: the percent moved from the initial -100.
    assert!(b.record(0, 100, 0, 1_000, policy).is_none());
    assert_eq!(b.points.len(), 1);
    // Less than 2 % and speed steady: dropped.
    assert!(b.record(1, 110, 10, 1_500, policy).is_none());
    assert_eq!(b.points.len(), 1);
    // Speed changed by more than 20 %: kept, and a save is due (2 s passed
    // since the start at 0 ms).
    let saved = b.record(1, 200, 20, 2_500, policy).unwrap();
    assert_eq!(saved.len(), 2);
    assert!(b.points.is_empty());
    assert_eq!(b.last_save_time, 2_500);
    // The save emptied the buffer; 1 % more with no speed to compare: dropped.
    assert!(b.record(2, 200, 25, 2_600, policy).is_none());
    assert!(b.points.is_empty());
    // 2 % more: kept, not yet due.
    assert!(b.record(3, 200, 30, 3_000, policy).is_none());
    assert_eq!(b.points.len(), 1);
    let rest = b.into_remaining().unwrap();
    assert_eq!(rest[0].percent, 3);
    assert!(TaskProgressBuffer::default().into_remaining().is_none());
}

#[test]
fn ffprobe_json_is_read() {
    let json = r#"{
        "streams": [
            {"codec_type": "video", "codec_name": "h264", "width": 1280, "height": 720, "bit_rate": "2500000"},
            {"codec_type": "audio", "codec_name": "aac", "channels": 6, "sample_rate": "48000", "tags": {"language": "jpn"}},
            {"codec_type": "data"}
        ],
        "format": {"duration": "12.5"}
    }"#;
    let (videos, audios, duration) = parse_ffprobe_output(json).unwrap();
    assert_eq!(videos.len(), 1);
    assert_eq!(videos[0].resolution, "1280x720");
    assert_eq!(videos[0].base.bandwidth, 2_500_000);
    assert_eq!(videos[0].base.codecs, "h264");
    assert_eq!(audios.len(), 1);
    assert_eq!(audios[0].channels, "6");
    assert_eq!(audios[0].sample_rate, 48_000);
    assert_eq!(audios[0].base.language, "jpn");
    assert_eq!(duration.as_deref(), Some("12.5"));

    // A number of seconds is passed on as written.
    let (_, _, d) = parse_ffprobe_output(r#"{"streams":[{"codec_type":"audio"}],"format":{"duration":3}}"#).unwrap();
    assert_eq!(d.as_deref(), Some("3"));
    // No duration, and a width that is not a number.
    let (v, _, d) = parse_ffprobe_output(r#"{"streams":[{"codec_type":"video","width":"x"}]}"#).unwrap();
    assert_eq!(v[0].width, 0);
    assert!(d.is_none());
}

#[test]
fn ffprobe_json_errors() {
    let e = parse_ffprobe_output("not json").unwrap_err();
    assert!(e.starts_with("解析 ffprobe 输出失败: "));
    assert!(e.len() > "解析 ffprobe 输出失败: ".len());
    assert_eq!(parse_ffprobe_output("{}").unwrap_err(), "未找到有效的视频或音频流");
    assert_eq!(
        parse_ffprobe_output(r#"{"streams":[{"codec_type":"subtitle"}]}"#).unwrap_err(),
        "未找到有效的视频或音频流"
    );
}

#[test]
fn tracker_keeps_a_buffer_per_task() {
    let mut t = ProgressTracker::new();
    // First reports of two tasks are kept; nothing is due before 2 s.
    assert!(t.record_progress("a", 5, 100, 1, 1_000).is_none());
    assert!(t.record_progress("b", 1, 100, 1, 1_000).is_none());
    // Under 2 % and steady speed: dropped.
    assert!(t.record_progress("a", 6, 100, 2, 1_500).is_none());
    // 2 % more, 2 s after the start: the buffer is handed out.
    let saved = t.record_progress("a", 7, 100, 3, 2_500).unwrap();
    assert_eq!(saved.iter().map(|p| p.percent).collect::<Vec<_>>(), vec![5, 7]);
    // After the save, 1 % more is dropped.
    assert!(t.record_progress("a", 8, 100, 4, 2_600).is_none());
    assert!(t.flush("a").is_none());
    // "b" kept its point; flushing hands it out once.
    assert_eq!(t.flush("b").unwrap()[0].percent, 1);
    assert!(t.flush("b").is_none());
    // A flushed task starts afresh: its first report is kept, and with no
    // save since time 0 it is due at once.
    assert_eq!(t.record_progress("a", 1, 0, 0, 3_000).unwrap().len(), 1);
    assert!(t.record_progress("a", 4, 0, 0, 3_100).is_none());
    t.clear("a");
    assert!(t.flush("a").is_none());
}
