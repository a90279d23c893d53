use streamgrab::domain::config::{
    resolve_close_behavior, AppSettings, CloseBehavior, DecryptionEngine, FfmpegConfig, Language,
    LogLevel, MuxFormat, Muxer, Nm3u8dlConfig, Theme,
};

#[test]
fn app_settings_defaults_match_frontend() {
    let s = AppSettings::default();
    assert!(s.auto_start_download);
    assert!(!s.minimize_to_tray);
    assert!(s.check_update);
    assert!(s.show_notification);
    assert!(!s.clipboard_watch);
    assert_eq!(s.log_level, LogLevel::Info);
    assert_eq!(s.theme, Theme::Dark);
    assert_eq!(s.language.as_str(), "zh-CN");
    assert_eq!(s.max_concurrent_tasks, 5);
}

#[test]
fn nm3u8dl_defaults_match_frontend() {
    let c = Nm3u8dlConfig::default();
    assert_eq!(c.thread_count, 8);
    assert_eq!(c.retry_count, 3);
    assert_eq!(c.timeout, 100);
    assert!(c.auto_select);
    assert!(c.check_segments_count);
    assert!(c.del_after_done);
    assert!(c.auto_subtitle_fix);
    assert!(c.live_keep_segments);
    assert_eq!(c.live_take_count, 16);
    assert!(c.network.use_system_proxy);
    assert_eq!(c.decryption.engine, DecryptionEngine::Mp4Decrypt);
}

#[test]
fn ffmpeg_defaults_match_frontend() {
    let c = FfmpegConfig::default();
    assert_eq!(c.retry_count, 3);
    assert_eq!(c.timeout, 60);
    assert_eq!(c.connection_timeout, 30);
    assert_eq!(c.reconnect_attempts, 3);
    assert_eq!(c.reconnect_delay, 5);
    assert!(!c.overwrite_existing);
    assert!(c.preserve_timestamps);
    assert_eq!(c.max_redirects, 8);
    assert_eq!(c.reconnect_delay_total_max, 256);
    assert!(c.respect_retry_after);
    assert!(c.auth.username.is_empty());
    assert_eq!(c.mux_format, MuxFormat::Mp4);
    assert_eq!(c.muxer, Muxer::Ffmpeg);
}

#[test]
fn resolve_close_behavior_maps_minimize_to_tray() {
    let mut s = AppSettings::default();
    s.minimize_to_tray = true;
    assert_eq!(resolve_close_behavior(&s), CloseBehavior::Minimize);

    s.minimize_to_tray = false;
    assert_eq!(resolve_close_behavior(&s), CloseBehavior::Exit);
}

#[test]
fn language_tags_of_the_front_end() {
    assert_eq!(Language::ZhCn.as_str(), "zh-CN");
    assert_eq!(Language::ZhTw.as_str(), "zh-TW");
    assert_eq!(Language::EnUs.as_str(), "en-US");
}
