use streamgrab::commands::download::{
    completion, ffprobe_candidates, get_possible_extensions, is_media_file, mux_format_for,
    newest_candidate, parse_failure_message, pick_output_file, resolve_save_dir, tool_location,
    Completion, DirEntryInfo, OutputPick,
};
use streamgrab::commands::settings::parse_tool_id;
use streamgrab::commands::{api, none_if_empty};
use streamgrab::domain::config::{FfmpegConfig, MuxFormat, ToolConfigs};
use streamgrab::domain::download::ToolId;
use streamgrab::domain::task::TaskOverrides;
use streamgrab::error::AppError;

#[test]
fn api_keeps_values_and_messages() {
    let ok: Result<u32, AppError> = Ok(3);
    assert_eq!(api(ok), Ok(3));
    let err: Result<u32, AppError> = Err(AppError::Config("bad".into()));
    assert_eq!(api(err), Err("bad".to_string()));
}

#[test]
fn empty_settings_are_not_configured() {
    assert_eq!(none_if_empty(Some("")), None);
    assert_eq!(none_if_empty(Some("/bin")), Some("/bin"));
    assert_eq!(none_if_empty(None), None);
}

#[test]
fn tool_ids_of_requests() {
    assert_eq!(parse_tool_id("ffmpeg"), Ok(ToolId::Ffmpeg));
    assert_eq!(parse_tool_id("nm3u8dl"), Ok(ToolId::Nm3u8dl));
    assert_eq!(parse_tool_id("yt-dlp"), Err("未知工具: yt-dlp".to_string()));
}

#[test]
fn save_directory_precedence() {
    assert_eq!(resolve_save_dir("D:/task", "D:/global").as_deref(), Some("D:/task"));
    assert_eq!(resolve_save_dir("  ", "D:/global").as_deref(), Some("D:/global"));
    assert_eq!(resolve_save_dir("", " \t"), None);
}

#[test]
fn tool_locations() {
    let mut tools = ToolConfigs::default();
    let (path, msg) = tool_location(ToolId::Nm3u8dl, &tools);
    assert_eq!(path, None);
    assert_eq!(
        msg,
        "N_m3u8DL-RE 未找到。请在设置中配置工具目录路径，或使用【下载】按钮自动下载。"
    );
    tools.ffmpeg.ffmpeg_path = "/opt/ffmpeg".into();
    let (path, msg) = tool_location(ToolId::Ffmpeg, &tools);
    assert_eq!(path.as_deref(), Some("/opt/ffmpeg"));
    assert!(msg.starts_with("FFmpeg 未找到"));
}

#[test]
fn ffprobe_search_order() {
    let mut f = FfmpegConfig::default();
    assert_eq!(ffprobe_candidates(&f), (None, None));
    f.ffmpeg_path = "/opt/ffmpeg".into();
    f.ffprobe_path = "/opt/probe".into();
    assert_eq!(
        ffprobe_candidates(&f),
        (Some("/opt/probe".to_string()), Some("/opt/ffmpeg".to_string()))
    );
}

#[test]
fn container_of_a_download() {
    let f = FfmpegConfig::default();
    assert_eq!(mux_format_for(&TaskOverrides::default(), &f), MuxFormat::Mp4);
    let o = TaskOverrides {
        mux_format: Some(MuxFormat::Mkv),
        ..Default::default()
    };
    assert_eq!(mux_format_for(&o, &f), MuxFormat::Mkv);
}

#[test]
fn completion_reports() {
    assert!(matches!(completion(ToolId::Ffmpeg, true, None), Completion::OutputAtSaveName));
    assert!(matches!(completion(ToolId::Nm3u8dl, true, None), Completion::FindOutput));
    match completion(ToolId::Nm3u8dl, false, None) {
        Completion::Failed(m) => assert_eq!(m, "未知错误"),
        _ => panic!("expected a failure"),
    }
    match completion(ToolId::Ffmpeg, false, Some("exit 1".into())) {
        Completion::Failed(m) => assert_eq!(m, "exit 1"),
        _ => panic!("expected a failure"),
    }
}

#[test]
fn parse_failure_prefers_stderr() {
    assert_eq!(parse_failure_message("out", "err"), "解析失败: err");
    assert_eq!(parse_failure_message("out", ""), "解析失败: out");
}

#[test]
fn possible_extensions() {
    assert_eq!(get_possible_extensions(Some("mp4")), vec!["mp4"]);
    assert_eq!(get_possible_extensions(Some("mkv")), vec!["mkv"]);
    assert_eq!(
        get_possible_extensions(None),
        vec!["mp4", "mkv", "ts", "m4a", "m4v", "webm"]
    );
    assert_eq!(get_possible_extensions(Some("MP4")).len(), 6);
}

#[test]
fn media_files() {
    assert!(is_media_file(Some("MKV")));
    assert!(is_media_file(Some("srt")));
    assert!(!is_media_file(Some("txt")));
    assert!(!is_media_file(None));
}

fn entry(name: &str, is_media: bool, modified: Option<i128>) -> DirEntryInfo {
    DirEntryInfo { name: name.into(), is_media, modified }
}

#[test]
fn newest_media_file() {
    let entries = vec![
        entry("ep1.mp4", true, Some(10)),
        entry("ep1.part.txt", false, Some(99)),
        entry("ep1 (1).mp4", true, Some(20)),
        entry("other.mkv", true, Some(30)),
        entry("ep1 (2).mp4", true, Some(20)),
    ];
    assert_eq!(newest_candidate(&entries, Some("ep1")), Some(2));
    assert_eq!(newest_candidate(&entries, None), Some(3));
    assert_eq!(newest_candidate(&entries, Some("zzz")), None);
    let unknown = vec![entry("a.mp4", true, None), entry("b.mp4", true, Some(0))];
    assert_eq!(newest_candidate(&unknown, None), Some(1));
}

#[test]
fn output_file_search_order() {
    let entries = vec![entry("ep1 (1).mp4", true, Some(5)), entry("x.mkv", true, Some(9))];
    assert_eq!(pick_output_file(false, Some("ep1"), true, &vec![true], &entries), OutputPick::Nothing);
    assert_eq!(pick_output_file(true, Some("ep1"), true, &vec![true], &entries), OutputPick::Exact);
    assert_eq!(
        pick_output_file(true, Some("ep1"), false, &vec![false, true], &entries),
        OutputPick::WithExtension(1)
    );
    assert_eq!(pick_output_file(true, Some("ep1"), false, &vec![false], &entries), OutputPick::Entry(0));
    assert_eq!(pick_output_file(true, Some("zz"), false, &vec![false], &entries), OutputPick::Entry(1));
    assert_eq!(pick_output_file(true, None, false, &vec![], &entries), OutputPick::Entry(1));
    assert_eq!(pick_output_file(true, Some("zz"), false, &vec![], &vec![]), OutputPick::Expected);
    assert_eq!(pick_output_file(true, None, false, &vec![], &vec![]), OutputPick::Nothing);
}

use streamgrab::commands::download::{
    ffmpeg_program, ffprobe_path_for, mux_format_from_args, parse_route, require_program_path,
    url_of_args, ParseRoute,
};
use streamgrab::commands::settings::tool_paths_from_rows;
use streamgrab::domain::download::UrlType;

fn strings(v: &[&str]) -> Vec<String> {
    v.iter().map(|s| s.to_string()).collect()
}

#[test]
fn container_named_on_a_command_line() {
    assert_eq!(
        mux_format_from_args(&strings(&["u", "-M", "format=MKV:muxer=ffmpeg"])).as_deref(),
        Some("mkv")
    );
    assert_eq!(
        mux_format_from_args(&strings(&["u", "-M", "muxer=ffmpeg:format=mp4"])).as_deref(),
        Some("mp4")
    );
    assert_eq!(mux_format_from_args(&strings(&["u", "-M"])), None);
    assert_eq!(mux_format_from_args(&strings(&["u", "-M", "muxer=ffmpeg"])), None);
    assert_eq!(mux_format_from_args(&strings(&["u"])), None);
}

#[test]
fn program_paths() {
    assert_eq!(require_program_path(Some("/re".into())), Ok("/re".to_string()));
    assert_eq!(
        require_program_path(Some(String::new())),
        Err("N_m3u8DL-RE 路径未配置，请在设置中配置 N_m3u8DL-RE 的绝对路径".to_string())
    );
    assert!(require_program_path(None).is_err());
    assert_eq!(ffmpeg_program(None), "ffmpeg");
    assert_eq!(ffmpeg_program(Some(String::new())), "ffmpeg");
    assert_eq!(ffmpeg_program(Some("/opt/ff".into())), "/opt/ff");
}

#[test]
fn ffprobe_next_to_ffmpeg() {
    assert_eq!(ffprobe_path_for("/usr/bin/ffmpeg"), "/usr/bin/ffprobe");
    assert_eq!(ffprobe_path_for("C:/ffmpeg/bin/ffmpeg.exe"), "C:/ffprobe/bin/ffprobe.exe");
    assert_eq!(ffprobe_path_for("/opt/ff.exe.exe"), "/opt/ffprobe");
    assert_eq!(ffprobe_path_for("ffmpeg"), "ffprobe");
}

#[test]
fn parse_routes() {
    assert_eq!(parse_route(UrlType::HttpVideo), Ok(ParseRoute::Probe));
    assert_eq!(parse_route(UrlType::Dash), Ok(ParseRoute::Listing));
    assert_eq!(
        parse_route(UrlType::Unknown),
        Err("不支持的 URL 格式。请输入 M3U8、DASH 或 MSS 流媒体链接。".to_string())
    );
    assert_eq!(url_of_args(&strings(&["https://a/x.m3u8", "--x"])), "https://a/x.m3u8");
    assert_eq!(url_of_args(&Vec::new()), "");
}

#[test]
fn tool_paths_of_settings() {
    let none = tool_paths_from_rows(None, None);
    assert!(none.m3u8dl_path.is_none() && none.ffmpeg_path.is_none() && none.ffprobe_path.is_none());
}

use streamgrab::commands::download::{detect_url_type, http_download_args};

#[test]
fn url_type_names() {
    assert_eq!(detect_url_type("https://a/x.m3u8"), "hls");
    assert_eq!(detect_url_type("https://a/x.MP4"), "httpVideo");
    assert_eq!(detect_url_type("nothing"), "unknown");
}

#[test]
fn direct_download_command_line() {
    assert_eq!(
        http_download_args("https://a/v.mp4".into(), "D:/v/out.mp4".into()),
        vec!["-i", "https://a/v.mp4", "-c", "copy", "-y", "D:/v/out.mp4"]
    );
}

use streamgrab::commands::download::substitute_parse_dir;

#[test]
fn parse_placeholder_is_replaced() {
    let args = strings(&["https://a/x.m3u8", "--save-dir", "streamgrab_parse", "--skip-download"]);
    assert_eq!(
        substitute_parse_dir(&args, "/tmp/streamgrab_parse"),
        strings(&["https://a/x.m3u8", "--save-dir", "/tmp/streamgrab_parse", "--skip-download"])
    );
}
