use streamgrab::tools::archive::{
    archive_kind, classify_entry, resolve_target_from_top, verify_archive_magic, ArchiveKind,
};
use streamgrab::tools::install::{
    check_download_size, is_ffmpeg_tool, missing_asset_error, tool_subdir, url_file_name,
};
use streamgrab::tools::release::{
    platform_name, release_version, version_from_release, Platform, ReleaseCache,
    ToolReleaseInfo,
};

const TOP: &str = "ffmpeg-master-latest-win64-gpl-shared";

// The ancestors of the target directory are listed from the target up to the
// root; each flag says whether that ancestor holds a directory named TOP.

#[test]
fn update_extracts_into_existing_install_root() {
    // target: root/TOP/bin; only root holds TOP.
    let with_top = vec![false, false, true];
    assert_eq!(resolve_target_from_top(1, false, &with_top), 2);
}

#[test]
fn fresh_install_keeps_target_dir() {
    // An empty directory with no TOP above it.
    let with_top = vec![false, false, false];
    assert_eq!(resolve_target_from_top(1, false, &with_top), 0);
}

#[test]
fn flat_or_multi_top_archives_keep_target_dir() {
    let with_top = vec![false, true];
    assert_eq!(resolve_target_from_top(1, true, &with_top), 0);
    assert_eq!(resolve_target_from_top(2, false, &with_top), 0);
}

#[test]
fn corrupted_nested_dir_resolves_to_nearest_install() {
    // target: root/TOP/bin/TOP/bin; root/TOP/bin and root both hold TOP.
    let with_top = vec![false, false, true, false, true];
    assert_eq!(resolve_target_from_top(1, false, &with_top), 2);
}

fn names(v: &[&str]) -> Vec<String> {
    v.iter().map(|s| s.to_string()).collect()
}

#[test]
fn classify_entries_of_an_archive() {
    let mut tops: Vec<String> = Vec::new();
    let mut root_files = false;
    classify_entry(&names(&[TOP, "bin", "ffmpeg.exe"]), false, &mut tops, &mut root_files);
    classify_entry(&names(&[TOP]), true, &mut tops, &mut root_files);
    classify_entry(&names(&["FFMPEG-master-latest-win64-gpl-shared", "doc"]), true, &mut tops, &mut root_files);
    assert_eq!(tops, vec![TOP.to_string()]);
    assert!(!root_files);
    classify_entry(&names(&["README.txt"]), false, &mut tops, &mut root_files);
    assert!(root_files);
    classify_entry(&Vec::new(), false, &mut tops, &mut root_files);
    assert_eq!(tops.len(), 1);
}

#[test]
fn archive_kinds_by_name() {
    assert_eq!(archive_kind("a.ZIP"), Some(ArchiveKind::Zip));
    assert_eq!(archive_kind("a.tar.gz"), Some(ArchiveKind::TarGz));
    assert_eq!(archive_kind("a.tgz"), Some(ArchiveKind::TarGz));
    assert_eq!(archive_kind("a.tar.xz"), Some(ArchiveKind::TarXz));
    assert_eq!(archive_kind("a.7z"), None);
}

#[test]
fn archive_magic_is_checked() {
    assert!(verify_archive_magic("tool.zip", b"PK\x03\x04ab").is_ok());
    assert!(verify_archive_magic("tool.tar.gz", &[0x1f, 0x8b, 0, 0, 0, 0]).is_ok());
    assert!(verify_archive_magic("tool.tar.xz", &[0xfd, 0x37, 0x7a, 0x58, 0x5a, 0x00]).is_ok());
    assert_eq!(
        verify_archive_magic("tool.zip", b"PK").unwrap_err(),
        "下载文件过小，不是有效的压缩包"
    );
    assert_eq!(
        verify_archive_magic("tool.rar", b"Rar!\x1a\x07").unwrap_err(),
        "不支持的压缩包格式: tool.rar"
    );
    assert_eq!(
        verify_archive_magic("tool.zip", b"<html>").unwrap_err(),
        "下载的文件与 tool.zip 的预期格式不符（可能已损坏或为错误页）"
    );
}

#[test]
fn platform_names() {
    assert_eq!(platform_name(Platform::Windows), "Windows");
    assert_eq!(platform_name(Platform::MacOS), "macOS");
    assert_eq!(platform_name(Platform::Linux), "Linux");
}

#[test]
fn release_versions() {
    assert_eq!(
        release_version("latest", "Latest Auto-Build (2026-08-09 13:03)"),
        "2026-08-09"
    );
    assert_eq!(release_version("latest", "Nightly"), "Nightly");
    assert_eq!(release_version("latest", ""), "latest");
    assert_eq!(release_version("v0.3.0", "Release 2024-01-02"), "v0.3.0");
    assert_eq!(version_from_release("latest", "x", Some("2020-01-01".into())), "2020-01-01");
    assert_eq!(version_from_release("latest", "x", None), "x");
}

fn info(v: &str) -> ToolReleaseInfo {
    ToolReleaseInfo {
        version: v.into(),
        download_url: format!("https://example.com/{v}.zip"),
        filename: format!("{v}.zip"),
        published_at: String::new(),
        extra_assets: vec!["https://example.com/ffprobe.zip".into()],
    }
}

#[test]
fn cache_serves_within_five_minutes() {
    let mut c = ReleaseCache::new();
    assert!(c.cached_release(0, 1_000).is_none());
    c.store_cached_release(0, info("1.0"), 1_000);
    let got = c.cached_release(0, 1_000 + 299_999).unwrap();
    assert_eq!(got.version, "1.0");
    assert_eq!(got.extra_assets, vec!["https://example.com/ffprobe.zip".to_string()]);
    assert!(c.cached_release(0, 1_000 + 300_000).is_none());
    assert!(c.cached_release(1, 2_000).is_none());
    c.store_cached_release(1, info("6.1"), 2_000);
    assert_eq!(c.cached_release(0, 2_000).unwrap().version, "1.0");
    assert_eq!(c.cached_release(1, 2_000).unwrap().version, "6.1");
}

#[test]
fn rate_limit_cooldown() {
    let mut c = ReleaseCache::new();
    assert!(c.check_rate_limit(0).is_ok());
    c.mark_rate_limited(10_000);
    assert_eq!(
        c.check_rate_limit(10_000).unwrap_err(),
        "GitHub API 请求频率限制，请 300 秒后重试"
    );
    assert_eq!(
        c.check_rate_limit(309_500).unwrap_err(),
        "GitHub API 请求频率限制，请 0 秒后重试"
    );
    assert!(c.check_rate_limit(310_000).is_ok());
}

#[test]
fn install_decisions() {
    assert!(is_ffmpeg_tool("FFmpeg"));
    assert!(!is_ffmpeg_tool("N_m3u8DL-RE"));
    assert_eq!(tool_subdir("ffmpeg-suite"), "ffmpeg");
    assert_eq!(tool_subdir("nm3u8dl"), "nm3u8dl");
    assert_eq!(url_file_name("https://example.com/a/b/tool.zip"), "tool.zip");
    assert_eq!(url_file_name("no-slash"), "no-slash");
    assert_eq!(url_file_name("https://example.com/"), "");
}

#[test]
fn download_size_check() {
    assert!(check_download_size(0, 5).is_ok());
    assert!(check_download_size(5, 5).is_ok());
    assert_eq!(
        check_download_size(10, 7).unwrap_err(),
        "下载不完整: 期望 10 bytes, 实际 7 bytes"
    );
}

#[test]
fn missing_asset_message() {
    assert_eq!(
        missing_asset_error(Platform::Linux, "x86_64/amd64"),
        "未找到适合 Linux (x86_64/amd64) 的下载链接"
    );
}

use streamgrab::tools::release::{pick_windows_asset, windows_release};

#[test]
fn windows_assets_of_releases() {
    let names = names(&[
        "N_m3u8DL-RE_linux-x64.tar.gz",
        "N_m3u8DL-RE_win-x64.zip",
        "N_m3u8DL-RE_win-x64.7z",
    ]);
    assert_eq!(pick_windows_asset(&names, false), Some(1));
    let ff = names_ff();
    assert_eq!(pick_windows_asset(&ff, true), Some(2));
    assert_eq!(pick_windows_asset(&ff, false), None);
}

fn names_ff() -> Vec<String> {
    names(&[
        "ffmpeg-master-latest-win64-gpl.zip",
        "ffmpeg-master-latest-linux64-gpl-shared.tar.xz",
        "ffmpeg-master-latest-win64-gpl-shared.zip",
    ])
}

#[test]
fn windows_release_info() {
    let r = windows_release(Some("v0.3.0".into()), "2024".into(), "https://x/a/N_m3u8DL-RE.zip".into(), false)
        .unwrap();
    assert_eq!(r.version, "v0.3.0");
    assert_eq!(r.filename, "N_m3u8DL-RE.zip");
    assert!(r.extra_assets.is_empty());
    assert_eq!(windows_release(None, String::new(), "u/f.zip".into(), true).unwrap().version, "unknown");
    assert_eq!(
        windows_release(None, String::new(), String::new(), true).unwrap_err(),
        "未找到 Windows x64 GPL shared 版本的下载链接"
    );
    assert_eq!(
        windows_release(None, String::new(), String::new(), false).unwrap_err(),
        "未找到 Windows x64 版本的下载链接"
    );
}

use streamgrab::tools::release::{evermeet_fields, evermeet_release, release_from_api, release_from_json};

#[test]
fn release_from_api_builds_the_release() {
    let info = release_from_api(
        Some("latest".into()),
        Some("Latest Auto-Build (2026-08-09 13:03)".into()),
        None,
        Some(("https://x/y/ffmpeg-win64.zip".into(), "ffmpeg-win64.zip".into())),
        Platform::Windows,
        "win64",
    )
    .unwrap();
    assert_eq!(info.version, "2026-08-09");
    assert_eq!(info.download_url, "https://x/y/ffmpeg-win64.zip");
    assert_eq!(info.filename, "ffmpeg-win64.zip");
    assert_eq!(info.published_at, "");
    assert!(info.extra_assets.is_empty());

    let info = release_from_api(None, None, Some("2024-01-01".into()), Some(("u".into(), "f".into())), Platform::Linux, "x64")
        .unwrap();
    assert_eq!(info.version, "unknown");
    assert_eq!(info.published_at, "2024-01-01");
}

#[test]
fn release_from_api_without_asset() {
    let err = release_from_api(Some("v1".into()), None, None, None, Platform::Linux, "x86_64")
        .err()
        .unwrap();
    assert_eq!(err, "未找到适合 Linux (x86_64) 的下载链接");
}

#[test]
fn evermeet_answers() {
    assert_eq!(
        evermeet_fields("ffprobe", None, Some("z".into())).err().unwrap(),
        "evermeet.cx 响应缺少 version 字段 (ffprobe)"
    );
    assert_eq!(
        evermeet_fields("ffmpeg", Some("7.1".into()), None).err().unwrap(),
        "evermeet.cx 响应缺少 zip 下载链接 (ffmpeg)"
    );
    assert_eq!(
        evermeet_fields("ffmpeg", Some("7.1".into()), Some("https://e/ffmpeg-7.1.zip".into())).unwrap(),
        ("7.1".to_string(), "https://e/ffmpeg-7.1.zip".to_string())
    );
    let r = evermeet_release(
        "7.1".into(),
        "https://evermeet.cx/ffmpeg/ffmpeg-7.1.zip".into(),
        "https://evermeet.cx/ffmpeg/ffprobe-7.1.zip".into(),
    );
    assert_eq!(r.filename, "ffmpeg-7.1.zip");
    assert_eq!(r.published_at, "");
    assert_eq!(r.extra_assets, vec!["https://evermeet.cx/ffmpeg/ffprobe-7.1.zip".to_string()]);
}

#[test]
fn github_release_json() {
    let json = r#"{
        "tag_name": "v0.3.0-beta",
        "published_at": "2024-05-01T00:00:00Z",
        "assets": [
            {"name": "N_m3u8DL-RE_linux-x64.tar.gz", "browser_download_url": "https://g/l.tar.gz"},
            {"name": "N_m3u8DL-RE_win-x64.zip", "browser_download_url": "https://g/d/N_m3u8DL-RE_win-x64.zip"},
            {"name": "other-win-x64.zip", "browser_download_url": "https://g/o.zip"}
        ]
    }"#;
    let info = release_from_json(json, false).unwrap();
    assert_eq!(info.version, "v0.3.0-beta");
    assert_eq!(info.download_url, "https://g/d/N_m3u8DL-RE_win-x64.zip");
    assert_eq!(info.filename, "N_m3u8DL-RE_win-x64.zip");
    assert_eq!(info.published_at, "2024-05-01T00:00:00Z");
    assert_eq!(
        release_from_json(json, true).unwrap_err(),
        "未找到 Windows x64 GPL shared 版本的下载链接"
    );
    let bare = release_from_json(
        r#"{"assets":[{"name":"ffmpeg-master-latest-win64-gpl-shared.zip","browser_download_url":"u/f.zip"}]}"#,
        true,
    )
    .unwrap();
    assert_eq!(bare.version, "unknown");
    assert_eq!(bare.published_at, "");
    assert_eq!(bare.filename, "f.zip");
    // The first matching asset counts, even without a URL.
    assert!(release_from_json(
        r#"{"assets":[{"name":"a-win-x64.zip"},{"name":"b-win-x64.zip","browser_download_url":"u"}]}"#,
        false,
    )
    .is_err());
    assert!(release_from_json("<html>", false).unwrap_err().starts_with("解析响应失败: "));
}
