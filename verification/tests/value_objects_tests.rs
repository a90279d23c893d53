use streamgrab::domain::config::value_objects::{
    DecryptionEngine, DownloaderType, HlsEncryptionMethod, Language, LogLevel, MuxFormat,
    SubtitleFormat, Theme,
};

#[test]
fn text_forms_parse_back() {
    for v in [DecryptionEngine::FFmpeg, DecryptionEngine::MP4Decrypt, DecryptionEngine::ShakaPackager] {
        assert_eq!(DecryptionEngine::parse(v.as_str()), Ok(v));
    }
    for v in [MuxFormat::MP4, MuxFormat::MKV] {
        assert_eq!(MuxFormat::parse(v.as_str()), Ok(v));
    }
    for v in [SubtitleFormat::SRT, SubtitleFormat::VTT] {
        assert_eq!(SubtitleFormat::parse(v.as_str()), Ok(v));
    }
    for v in [Theme::Light, Theme::Dark, Theme::System] {
        assert_eq!(Theme::parse(v.as_str()), Ok(v));
    }
    for v in [Language::ZhCN, Language::ZhTW, Language::EnUS] {
        assert_eq!(Language::parse(v.as_str()), Ok(v));
    }
    for v in [LogLevel::Debug, LogLevel::Info, LogLevel::Warn, LogLevel::Error, LogLevel::Off] {
        assert_eq!(LogLevel::parse(v.as_str()), Ok(v));
    }
}

#[test]
fn parsing_ignores_case() {
    assert_eq!(DecryptionEngine::parse("mp4decrypt"), Ok(DecryptionEngine::MP4Decrypt));
    assert_eq!(SubtitleFormat::parse("vtt"), Ok(SubtitleFormat::VTT));
    assert_eq!(MuxFormat::parse("MKV"), Ok(MuxFormat::MKV));
    assert_eq!(DownloaderType::parse("FFmpeg"), Ok(DownloaderType::FFmpeg));
    assert_eq!(HlsEncryptionMethod::parse("aes_128"), Ok(HlsEncryptionMethod::AES_128));
}

#[test]
fn unknown_values_are_named() {
    assert_eq!(MuxFormat::parse("avi"), Err("Unknown mux format: avi".to_string()));
    assert_eq!(
        DownloaderType::parse("yt-dlp"),
        Err("Unknown downloader type: yt-dlp".to_string())
    );
    assert_eq!("m3u8".parse::<DownloaderType>(), Ok(DownloaderType::M3U8DL));
}
