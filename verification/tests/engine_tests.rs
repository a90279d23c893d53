use streamgrab::domain::download::engine::{dispatch_engine, find_engine};
use streamgrab::domain::download::{ToolId, UrlType};

#[test]
fn tool_id_str_round_trip() {
    for (id, s) in [(ToolId::Nm3u8dl, "nm3u8dl"), (ToolId::Ffmpeg, "ffmpeg")] {
        assert_eq!(id.as_str(), s);
        assert_eq!(s.parse::<ToolId>().unwrap(), id);
        assert_eq!(ToolId::parse(s).unwrap(), id);
    }
    assert!("yt-dlp".parse::<ToolId>().is_err());
}

#[test]
fn unknown_tool_message_names_it() {
    let e = ToolId::parse("yt-dlp").unwrap_err();
    assert_eq!(e.message(), "未知工具: yt-dlp");
}

/// Which of the two registered engines (N_m3u8DL-RE first, then FFmpeg)
/// handle a URL type.
fn registered_handles(t: UrlType) -> Vec<bool> {
    vec![t.is_streaming(), t.needs_ffmpeg()]
}

fn registered_ids() -> Vec<ToolId> {
    vec![ToolId::Nm3u8dl, ToolId::Ffmpeg]
}

#[test]
fn dispatch_by_url_type() {
    let ids = registered_ids();
    let pick = |t: UrlType| ids[dispatch_engine(&registered_handles(t)).unwrap()];
    assert_eq!(pick(UrlType::Hls), ToolId::Nm3u8dl);
    assert_eq!(pick(UrlType::Dash), ToolId::Nm3u8dl);
    assert_eq!(pick(UrlType::HttpVideo), ToolId::Ffmpeg);
    // Unknown falls back to the first registered engine.
    assert_eq!(pick(UrlType::Unknown), ToolId::Nm3u8dl);
}

#[test]
fn get_by_tool_id() {
    let ids = registered_ids();
    assert_eq!(ids[find_engine(&ids, ToolId::Ffmpeg).unwrap()], ToolId::Ffmpeg);
    let empty: Vec<ToolId> = Vec::new();
    assert!(find_engine(&empty, ToolId::Ffmpeg).is_none());
    assert!(dispatch_engine(&Vec::new()).is_none());
}

#[test]
fn dispatch_prefers_the_first_handler() {
    assert_eq!(dispatch_engine(&vec![false, true, true]), Some(1));
    assert_eq!(dispatch_engine(&vec![false, false]), Some(0));
}
