use streamgrab::domain::config::entity::{
    AppSettings, DecryptionKey, DecryptionSettings, FFmpegSettings, HeaderConfig, M3U8DLSettings,
    NetworkSettings, ResolvedConfig, TaskSpecificConfig,
};
use streamgrab::domain::config::value_objects::{DownloaderType, MuxFormat, SubtitleFormat};
use streamgrab::domain::downloader::M3U8DLDownloader;

fn config() -> ResolvedConfig {
    ResolvedConfig {
        downloader_type: DownloaderType::M3U8DL,
        template_id: None,
        app: AppSettings::default(),
        m3u8dl: M3U8DLSettings::default(),
        ffmpeg: FFmpegSettings::default(),
        network: NetworkSettings::default(),
        decryption: DecryptionSettings::default(),
        task: TaskSpecificConfig::default(),
    }
}

#[test]
fn default_command_line() {
    let d = M3U8DLDownloader::new();
    let args = d.build_cmd("https://a.example/x.m3u8", &config());
    assert_eq!(
        args,
        vec![
            "https://a.example/x.m3u8",
            "--auto-select",
            "-M",
            "format=mp4",
            "--auto-subtitle-fix",
            "--use-system-proxy",
        ]
    );
}

#[test]
fn non_default_settings_appear() {
    let mut c = config();
    c.task.save_dir = "D:/v".into();
    c.task.save_name = "ep1".into();
    c.m3u8dl.thread_count = 16;
    c.m3u8dl.max_speed = "10M".into();
    c.m3u8dl.auto_select = false;
    c.m3u8dl.mux_format = MuxFormat::MKV;
    c.m3u8dl.sub_format = SubtitleFormat::VTT;
    c.m3u8dl.live_take_count = 8;
    c.network.use_system_proxy = false;
    c.network.custom_proxy = Some("http://127.0.0.1:7890".into());
    c.network.headers = vec![
        HeaderConfig { name: "Referer".into(), value: "https://r".into(), enabled: true, sort_order: 0 },
        HeaderConfig { name: "X-Off".into(), value: "1".into(), enabled: false, sort_order: 1 },
    ];
    c.decryption.keys = vec![
        DecryptionKey { kid: Some("kid1".into()), key: "key1".into(), sort_order: 0 },
        DecryptionKey { kid: None, key: "key2".into(), sort_order: 1 },
    ];
    let args = M3U8DLDownloader::new().build_cmd("u", &c);
    assert_eq!(
        args,
        vec![
            "u",
            "--save-dir",
            "D:/v",
            "--save-name",
            "ep1",
            "--thread-count",
            "16",
            "-R",
            "10M",
            "-M",
            "format=mkv",
            "--sub-format",
            "VTT",
            "--auto-subtitle-fix",
            "--live-take-count",
            "8",
            "--custom-proxy",
            "http://127.0.0.1:7890",
            "-H",
            "Referer: https://r",
            "--key",
            "kid1:key1",
            "--key",
            "key2",
        ]
    );
}

#[test]
fn skip_merge_drops_mux_options() {
    let mut c = config();
    c.m3u8dl.skip_merge = true;
    c.m3u8dl.max_speed = "0".into();
    let args = M3U8DLDownloader::new().build_cmd("u", &c);
    assert!(args.contains(&"--skip-merge".to_string()));
    assert!(!args.contains(&"-M".to_string()));
    assert!(!args.contains(&"-R".to_string()));
}

#[test]
fn streaming_urls() {
    assert!(M3U8DLDownloader::is_streaming_url("https://A/MASTER.json"));
    assert!(M3U8DLDownloader::is_streaming_url("https://a/x.mpd"));
    assert!(!M3U8DLDownloader::is_streaming_url("https://a/x.mp4"));
    assert!(M3U8DLDownloader::new().detect("https://a/playlist?id=1"));
}
