use streamgrab::domain::config::entity::{HeaderConfig, PartialM3U8DLSettings, TaskConfigOverrides};
use streamgrab::domain::config::resolver::{
    ConfigResolver, GlobalSettings, StoredAppSettings, StoredDecryptionSettings,
    StoredFFmpegSettings, StoredHeader, StoredKey, StoredM3U8DLSettings, StoredNetworkSettings,
    StoredTemplate, TemplateM3U8DL,
};
use streamgrab::domain::config::responses::{
    AppSettingsResponse, DecryptionKeyResponse, NetworkHeaderResponse,
};
use streamgrab::domain::config::value_objects::{DownloaderType, Language, MuxFormat, Theme};

fn app_row() -> StoredAppSettings {
    StoredAppSettings {
        language: "en-US".into(),
        auto_start_download: true,
        minimize_to_tray: false,
        check_update: true,
        default_save_dir: "D:/dl".into(),
        default_tmp_dir: String::new(),
        theme: "light".into(),
        show_notification: true,
        clipboard_watch: false,
        log_level: "info".into(),
        log_file_path: String::new(),
        no_log: false,
    }
}

fn m3u8dl_row() -> StoredM3U8DLSettings {
    StoredM3U8DLSettings {
        n_m3u8dl_path: "/opt/re".into(),
        thread_count: 8,
        retry_count: 3,
        timeout: 100,
        max_speed: String::new(),
        auto_select: true,
        select_video: None,
        select_audio: None,
        select_subtitle: None,
        drop_video: None,
        drop_audio: None,
        drop_subtitle: None,
        check_segments_count: true,
        del_after_done: true,
        skip_merge: false,
        write_meta_json: false,
        binary_merge: false,
        concurrent_download: false,
        mux_format: "mkv".into(),
        muxer: "ffmpeg".into(),
        mux_bin_path: None,
        mux_skip_subtitles: false,
        mux_keep_original: false,
        sub_only: false,
        sub_format: "srt".into(),
        auto_subtitle_fix: true,
        live_perform_as_vod: false,
        live_real_time_merge: false,
        live_keep_segments: true,
        live_pipe_mux: false,
        live_fix_vtt_by_audio: false,
        live_record_limit: None,
        live_wait_time: 0,
        live_take_count: 16,
        allow_hls_multi_ext_map: false,
        url_processor_args: None,
        no_date_info: false,
        use_ffmpeg_concat_demuxer: false,
    }
}

fn global() -> GlobalSettings {
    GlobalSettings {
        app: app_row(),
        m3u8dl: m3u8dl_row(),
        ffmpeg: StoredFFmpegSettings {
            ffmpeg_path: String::new(),
            ffprobe_path: String::new(),
            retry_count: 3,
            timeout: 60,
            max_speed: String::new(),
            connection_timeout: 30,
            reconnect_attempts: 3,
            reconnect_delay: 5,
            overwrite_existing: false,
            preserve_timestamps: true,
            user_agent: None,
            referer: None,
        },
        network: StoredNetworkSettings {
            use_system_proxy: true,
            custom_proxy: None,
            base_url: None,
            append_url_params: false,
        },
        headers: vec![StoredHeader {
            id: 1,
            name: "Referer".into(),
            value: "https://r".into(),
            enabled: true,
            sort_order: 0,
        }],
        decryption: StoredDecryptionSettings {
            key_text_file: None,
            decryption_engine: "MP4DECRYPT".into(),
            decryption_bin_path: None,
            real_time_decryption: false,
            custom_hls_enabled: false,
            custom_hls_method: "AES_128".into(),
            custom_hls_key_type: "HEX".into(),
            custom_hls_key_value: None,
            custom_hls_iv_type: "HEX".into(),
            custom_hls_iv_value: None,
        },
        keys: vec![StoredKey { id: 7, kid: None, key: "k".into(), sort_order: 0 }],
    }
}

fn template() -> StoredTemplate {
    StoredTemplate {
        id: "fast".into(),
        downloader_type: DownloaderType::M3U8DL,
        m3u8dl: Some(TemplateM3U8DL {
            thread_count: Some(32),
            retry_count: None,
            timeout: None,
            max_speed: Some("20M".into()),
            auto_select: None,
            select_video: None,
            select_audio: None,
            select_subtitle: None,
        }),
        ffmpeg: None,
        network: None,
        decryption: None,
        headers: Vec::new(),
        keys: Vec::new(),
    }
}

#[test]
fn global_settings_are_converted() {
    let r = ConfigResolver::new(global(), vec![]);
    let c = r.resolve_task_config("t1", DownloaderType::M3U8DL, None, None).unwrap();
    assert_eq!(c.app.language, Language::EnUS);
    assert_eq!(c.app.theme, Theme::Light);
    assert_eq!(c.m3u8dl.mux_format, MuxFormat::MKV);
    assert_eq!(c.m3u8dl.thread_count, 8);
    assert_eq!(c.network.headers.len(), 1);
    assert_eq!(c.decryption.keys.len(), 1);
}

#[test]
fn task_beats_template_beats_global() {
    let r = ConfigResolver::new(global(), vec![template()]);
    let with_template = r
        .resolve_task_config("t1", DownloaderType::M3U8DL, Some("fast"), None)
        .unwrap();
    assert_eq!(with_template.m3u8dl.thread_count, 32);
    assert_eq!(with_template.m3u8dl.max_speed, "20M");

    let overrides = TaskConfigOverrides {
        m3u8dl: Some(PartialM3U8DLSettings {
            thread_count: Some(4),
            ..Default::default()
        }),
        headers: vec![HeaderConfig {
            name: "Cookie".into(),
            value: "a=1".into(),
            enabled: true,
            sort_order: 0,
        }],
        ..Default::default()
    };
    let with_task = r
        .resolve_task_config("t1", DownloaderType::M3U8DL, Some("fast"), Some(&overrides))
        .unwrap();
    assert_eq!(with_task.m3u8dl.thread_count, 4);
    assert_eq!(with_task.m3u8dl.max_speed, "20M");
    assert_eq!(with_task.network.headers.len(), 2);
    assert_eq!(with_task.network.headers[1].name, "Cookie");
}

#[test]
fn every_task_field_overrides() {
    let r = ConfigResolver::new(global(), vec![template()]);
    let overrides = TaskConfigOverrides {
        m3u8dl: Some(PartialM3U8DLSettings {
            max_speed: Some("5M".into()),
            auto_select: Some(false),
            select_video: Some("best".into()),
            mux_format: Some(MuxFormat::MP4),
            live_wait_time: Some(7),
            ..Default::default()
        }),
        ..Default::default()
    };
    let c = r
        .resolve_task_config("t1", DownloaderType::M3U8DL, None, Some(&overrides))
        .unwrap();
    assert_eq!(c.m3u8dl.max_speed, "5M");
    assert!(!c.m3u8dl.auto_select);
    assert_eq!(c.m3u8dl.select_video.as_deref(), Some("best"));
    assert_eq!(c.m3u8dl.mux_format, MuxFormat::MP4);
    assert_eq!(c.m3u8dl.live_wait_time, 7);
    // Fields the task leaves unset keep the global values.
    assert_eq!(c.m3u8dl.thread_count, 8);
    let t = r
        .resolve_task_config("t1", DownloaderType::M3U8DL, Some("fast"), Some(&overrides))
        .unwrap();
    assert_eq!(t.m3u8dl.max_speed, "5M");
    assert_eq!(t.m3u8dl.thread_count, 32);
}

#[test]
fn unknown_template_is_refused() {
    let r = ConfigResolver::new(global(), vec![template()]);
    let e = r
        .resolve_task_config("t1", DownloaderType::M3U8DL, Some("slow"), None)
        .unwrap_err();
    assert_eq!(e, "Template not found: slow");
}

#[test]
fn responses_copy_the_rows() {
    let a = AppSettingsResponse::from(app_row());
    assert_eq!(a.language, "en-US");
    assert_eq!(a.default_save_dir, "D:/dl");
    let h = NetworkHeaderResponse::from(global().headers.remove(0));
    assert_eq!((h.id, h.name.as_str(), h.enabled), (1, "Referer", true));
    let k = DecryptionKeyResponse::from(global().keys.remove(0));
    assert_eq!((k.id, k.key.as_str(), k.kid), (7, "k", None));
}
