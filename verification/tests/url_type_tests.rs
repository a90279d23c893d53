use streamgrab::domain::download::{ToolId, UrlType};

#[test]
fn detect_stream_urls() {
    assert_eq!(
        UrlType::detect("https://example.com/video/index.m3u8"),
        UrlType::Hls
    );
    assert_eq!(
        UrlType::detect("https://example.com/index.m3u8?token=abc"),
        UrlType::Hls
    );
    assert_eq!(
        UrlType::detect("https://example.com/manifest.mpd"),
        UrlType::Dash
    );
    assert_eq!(
        UrlType::detect("https://example.com/video.ism/manifest"),
        UrlType::Mss
    );
    assert_eq!(
        UrlType::detect("https://example.com/video.isml/manifest?filter=x"),
        UrlType::Mss
    );
}

#[test]
fn detect_direct_video_urls() {
    assert_eq!(
        UrlType::detect("https://example.com/movie.mp4"),
        UrlType::HttpVideo
    );
    assert_eq!(
        UrlType::detect("https://example.com/movie.MP4?sig=1"),
        UrlType::HttpVideo
    );
    assert_eq!(
        UrlType::detect("https://example.com/song.mp3"),
        UrlType::HttpVideo
    );
    assert_eq!(
        UrlType::detect("https://example.com/clip.webm"),
        UrlType::HttpVideo
    );
}

#[test]
fn detect_unknown_urls() {
    assert_eq!(
        UrlType::detect("https://example.com/page.html"),
        UrlType::Unknown
    );
    assert_eq!(UrlType::detect("https://example.com/"), UrlType::Unknown);
    assert_eq!(UrlType::detect("not a url"), UrlType::Unknown);
}

#[test]
fn engine_mapping() {
    assert_eq!(UrlType::Hls.engine(), Some(ToolId::Nm3u8dl));
    assert_eq!(UrlType::Dash.engine(), Some(ToolId::Nm3u8dl));
    assert_eq!(UrlType::Mss.engine(), Some(ToolId::Nm3u8dl));
    assert_eq!(UrlType::HttpVideo.engine(), Some(ToolId::Ffmpeg));
    assert_eq!(UrlType::Unknown.engine(), None);

    assert!(UrlType::HttpVideo.needs_ffmpeg());
    assert!(!UrlType::Hls.needs_ffmpeg());
    assert!(UrlType::Hls.is_streaming());
    assert!(!UrlType::HttpVideo.is_streaming());
}

#[test]
fn detection_ignores_case() {
    assert_eq!(UrlType::detect("HTTPS://EXAMPLE.COM/INDEX.M3U8"), UrlType::Hls);
    assert_eq!(UrlType::detect("https://example.com/a.MPD?x=1"), UrlType::Dash);
}

#[test]
fn query_marker_needs_the_question_mark() {
    // ".mp4" in the middle of a path without a following "?" is no marker.
    assert_eq!(UrlType::detect("https://example.com/a.mp4/page"), UrlType::Unknown);
    assert_eq!(UrlType::detect("https://example.com/a.mkv?x"), UrlType::HttpVideo);
}
