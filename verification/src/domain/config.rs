//! Configuration types: the application settings and the per-tool settings,
//! with their defaults.

use vstd::prelude::*;

pub mod entity;
pub mod resolver;
pub mod responses;
pub mod value_objects;

verus! {

/// UI theme.
#[derive(Debug, Clone, Copy, PartialEq, Eq, Structural)]
pub enum Theme {
    Light,
    Dark,
    System,
}

impl Default for Theme {
    fn default() -> (r: Self)
        ensures
            r == Theme::Dark,
    {
        Theme::Dark
    }
}

/// UI language.
#[derive(Debug, Clone, Copy, PartialEq, Eq, Structural)]
pub enum Language {
    ZhCn,
    ZhTw,
    EnUs,
}

impl Language {
    /// The language tag used by the front end (`zh-CN`, `zh-TW`, `en-US`).
    pub fn as_str(self) -> (r: &'static str)
        ensures
            r@ == match self {
                Language::ZhCn => "zh-CN"@,
                Language::ZhTw => "zh-TW"@,
                Language::EnUs => "en-US"@,
            },
    {
        match self {
            Language::ZhCn => "zh-CN",
            Language::ZhTw => "zh-TW",
            Language::EnUs => "en-US",
        }
    }
}

impl Default for Language {
    fn default() -> (r: Self)
        ensures
            r == Language::ZhCn,
    {
        Language::ZhCn
    }
}

/// Log level.
#[derive(Debug, Clone, Copy, PartialEq, Eq, Structural)]
pub enum LogLevel {
    Debug,
    Info,
    Warn,
    Error,
    Off,
}

impl Default for LogLevel {
    fn default() -> (r: Self)
        ensures
            r == LogLevel::Info,
    {
        LogLevel::Info
    }
}

/// Container format of the muxed output.
#[derive(Debug, Clone, Copy, PartialEq, Eq, Structural)]
pub enum MuxFormat {
    Mp4,
    Mkv,
}

impl Default for MuxFormat {
    fn default() -> (r: Self)
        ensures
            r == MuxFormat::Mp4,
    {
        MuxFormat::Mp4
    }
}

/// Muxer program.
#[derive(Debug, Clone, Copy, PartialEq, Eq, Structural)]
pub enum Muxer {
    Ffmpeg,
    Mkvmerge,
}

impl Default for Muxer {
    fn default() -> (r: Self)
        ensures
            r == Muxer::Ffmpeg,
    {
        Muxer::Ffmpeg
    }
}

/// Decryption engine.
#[derive(Debug, Clone, Copy, PartialEq, Eq, Structural)]
pub enum DecryptionEngine {
    Ffmpeg,
    Mp4Decrypt,
    ShakaPackager,
}

impl Default for DecryptionEngine {
    fn default() -> (r: Self)
        ensures
            r == DecryptionEngine::Mp4Decrypt,
    {
        DecryptionEngine::Mp4Decrypt
    }
}

/// HLS encryption method.
#[derive(Debug, Clone, Copy, PartialEq, Eq, Structural)]
pub enum HlsEncryptionMethod {
    Aes128,
    Aes128Ecb,
    Cenc,
    Chacha20,
    NoEncryption,
    SampleAes,
    SampleAesCtr,
    Unknown,
}

impl Default for HlsEncryptionMethod {
    fn default() -> (r: Self)
        ensures
            r == HlsEncryptionMethod::Unknown,
    {
        HlsEncryptionMethod::Unknown
    }
}

/// How a key or IV value is written.
#[derive(Debug, Clone, Copy, PartialEq, Eq, Structural)]
pub enum KeyValueType {
    File,
    Hex,
    Base64,
}

impl Default for KeyValueType {
    fn default() -> (r: Self)
        ensures
            r == KeyValueType::Hex,
    {
        KeyValueType::Hex
    }
}

/// Subtitle format.
#[derive(Debug, Clone, Copy, PartialEq, Eq, Structural)]
pub enum SubtitleFormat {
    Srt,
    Vtt,
}

impl Default for SubtitleFormat {
    fn default() -> (r: Self)
        ensures
            r == SubtitleFormat::Srt,
    {
        SubtitleFormat::Srt
    }
}

/// Application-level settings (general and UI).
#[derive(Debug, Clone, PartialEq)]
pub struct AppSettings {
    pub language: Language,
    /// Start downloading as soon as a task is added.
    pub auto_start_download: bool,
    /// Closing the window hides it to the tray.
    pub minimize_to_tray: bool,
    pub check_update: bool,
    /// Default save directory (empty: the system download directory).
    pub default_save_dir: String,
    /// Default temporary directory (empty: follow the save directory).
    pub default_tmp_dir: String,
    pub theme: Theme,
    pub show_notification: bool,
    pub clipboard_watch: bool,
    pub log_level: LogLevel,
    pub log_file_path: String,
    pub no_log: bool,
    /// Maximum number of concurrent downloads.
    pub max_concurrent_tasks: u32,
}

impl Default for AppSettings {
    fn default() -> (s: Self)
        ensures
            s.language == Language::ZhCn,
            s.auto_start_download,
            !s.minimize_to_tray,
            s.check_update,
            s.default_save_dir@ == Seq::<char>::empty(),
            s.default_tmp_dir@ == Seq::<char>::empty(),
            s.theme == Theme::Dark,
            s.show_notification,
            !s.clipboard_watch,
            s.log_level == LogLevel::Info,
            s.log_file_path@ == Seq::<char>::empty(),
            !s.no_log,
            s.max_concurrent_tasks == 5,
    {
        AppSettings {
            language: Language::default(),
            auto_start_download: true,
            minimize_to_tray: false,
            check_update: true,
            default_save_dir: String::new(),
            default_tmp_dir: String::new(),
            theme: Theme::default(),
            show_notification: true,
            clipboard_watch: false,
            log_level: LogLevel::default(),
            log_file_path: String::new(),
            no_log: false,
            max_concurrent_tasks: 5,
        }
    }
}

/// What closing the main window does.
#[derive(Debug, Clone, Copy, PartialEq, Eq, Structural)]
pub enum CloseBehavior {
    /// Hide to the system tray; the application keeps running.
    Minimize,
    /// Quit.
    Exit,
}

/// Closing the window minimizes to the tray exactly when the settings ask for it.
pub fn resolve_close_behavior(settings: &AppSettings) -> (r: CloseBehavior)
    ensures
        r == (if settings.minimize_to_tray {
            CloseBehavior::Minimize
        } else {
            CloseBehavior::Exit
        }),
{
    if settings.minimize_to_tray {
        CloseBehavior::Minimize
    } else {
        CloseBehavior::Exit
    }
}

/// Network settings of N_m3u8DL-RE.
#[derive(Debug, Clone, PartialEq)]
pub struct NetworkConfig {
    pub use_system_proxy: bool,
    pub custom_proxy: Option<String>,
    pub base_url: Option<String>,
    pub append_url_params: bool,
    pub headers: Vec<NetworkHeader>,
}

impl Default for NetworkConfig {
    fn default() -> (s: Self)
        ensures
            s.use_system_proxy,
            s.custom_proxy is None,
            s.base_url is None,
            !s.append_url_params,
            s.headers@.len() == 0,
    {
        NetworkConfig {
            use_system_proxy: true,
            custom_proxy: None,
            base_url: None,
            append_url_params: false,
            headers: Vec::new(),
        }
    }
}

/// A custom HTTP header.
#[derive(Debug, Clone, PartialEq)]
pub struct NetworkHeader {
    pub id: i64,
    pub name: String,
    pub value: String,
    pub enabled: bool,
    pub sort_order: i32,
}

/// An advertisement filter (`--ad-keyword`, a regular expression on segment URLs).
#[derive(Debug, Clone, PartialEq)]
pub struct AdKeyword {
    pub id: i64,
    pub keyword: String,
    pub enabled: bool,
    pub sort_order: i32,
}

/// An external media file muxed in (`--mux-import`).
#[derive(Debug, Clone, PartialEq)]
pub struct MuxImport {
    pub id: i64,
    pub path: String,
    pub lang: Option<String>,
    pub name: Option<String>,
    pub enabled: bool,
    pub sort_order: i32,
}

/// Decryption settings of N_m3u8DL-RE.
#[derive(Debug, Clone, PartialEq)]
pub struct DecryptionConfig {
    pub key_text_file: Option<String>,
    pub engine: DecryptionEngine,
    pub bin_path: Option<String>,
    pub real_time_decryption: bool,
    pub custom_hls: CustomHlsConfig,
    pub keys: Vec<DecryptionKey>,
}

impl Default for DecryptionConfig {
    fn default() -> (s: Self)
        ensures
            s.key_text_file is None,
            s.engine == DecryptionEngine::Mp4Decrypt,
            s.bin_path is None,
            !s.real_time_decryption,
            !s.custom_hls.enabled,
            s.custom_hls.method == HlsEncryptionMethod::Unknown,
            s.keys@.len() == 0,
    {
        DecryptionConfig {
            key_text_file: None,
            engine: DecryptionEngine::default(),
            bin_path: None,
            real_time_decryption: false,
            custom_hls: CustomHlsConfig::default(),
            keys: Vec::new(),
        }
    }
}

/// Custom HLS decryption.
#[derive(Debug, Clone, PartialEq)]
pub struct CustomHlsConfig {
    pub enabled: bool,
    pub method: HlsEncryptionMethod,
    pub key_type: KeyValueType,
    pub key_value: Option<String>,
    pub iv_type: KeyValueType,
    pub iv_value: Option<String>,
}

impl Default for CustomHlsConfig {
    fn default() -> (s: Self)
        ensures
            !s.enabled,
            s.method == HlsEncryptionMethod::Unknown,
            s.key_type == KeyValueType::Hex,
            s.key_value is None,
            s.iv_type == KeyValueType::Hex,
            s.iv_value is None,
    {
        CustomHlsConfig {
            enabled: false,
            method: HlsEncryptionMethod::default(),
            key_type: KeyValueType::default(),
            key_value: None,
            iv_type: KeyValueType::default(),
            iv_value: None,
        }
    }
}

/// A decryption key (`KID:KEY`, or a bare key when `kid` is absent).
#[derive(Debug, Clone, PartialEq)]
pub struct DecryptionKey {
    pub id: i64,
    pub kid: Option<String>,
    pub key: String,
    pub sort_order: i32,
}

/// Settings of N_m3u8DL-RE, with its network and decryption parts.
#[derive(Debug, Clone, PartialEq)]
pub struct Nm3u8dlConfig {
    pub path: String,
    pub thread_count: u32,
    pub retry_count: u32,
    pub timeout: u32,
    pub max_speed: String,
    pub auto_select: bool,
    pub select_video: Option<String>,
    pub select_audio: Option<String>,
    pub select_subtitle: Option<String>,
    pub drop_video: Option<String>,
    pub drop_audio: Option<String>,
    pub drop_subtitle: Option<String>,
    pub check_segments_count: bool,
    pub del_after_done: bool,
    pub skip_merge: bool,
    pub write_meta_json: bool,
    pub binary_merge: bool,
    pub concurrent_download: bool,
    pub sub_only: bool,
    pub sub_format: SubtitleFormat,
    pub auto_subtitle_fix: bool,
    pub live_perform_as_vod: bool,
    pub live_real_time_merge: bool,
    pub live_keep_segments: bool,
    pub live_pipe_mux: bool,
    pub live_fix_vtt_by_audio: bool,
    pub live_record_limit: Option<String>,
    pub live_wait_time: u32,
    pub live_take_count: u32,
    pub allow_hls_multi_ext_map: bool,
    pub url_processor_args: Option<String>,
    pub no_date_info: bool,
    pub use_ffmpeg_concat_demuxer: bool,
    pub save_pattern: Option<String>,
    pub ad_keywords: Vec<AdKeyword>,
    pub mux_imports: Vec<MuxImport>,
    pub network: NetworkConfig,
    pub decryption: DecryptionConfig,
}

/// The documented defaults of N_m3u8DL-RE's settings.
pub open spec fn nm3u8dl_defaults(c: Nm3u8dlConfig) -> bool {
    &&& c.path@ == Seq::<char>::empty()
    &&& c.thread_count == 8
    &&& c.retry_count == 3
    &&& c.timeout == 100
    &&& c.max_speed@ == Seq::<char>::empty()
    &&& c.auto_select
    &&& c.select_video is None
    &&& c.select_audio is None
    &&& c.select_subtitle is None
    &&& c.drop_video is None
    &&& c.drop_audio is None
    &&& c.drop_subtitle is None
    &&& c.check_segments_count
    &&& c.del_after_done
    &&& !c.skip_merge
    &&& !c.write_meta_json
    &&& !c.binary_merge
    &&& !c.concurrent_download
    &&& !c.sub_only
    &&& c.sub_format == SubtitleFormat::Srt
    &&& c.auto_subtitle_fix
    &&& !c.live_perform_as_vod
    &&& !c.live_real_time_merge
    &&& c.live_keep_segments
    &&& !c.live_pipe_mux
    &&& !c.live_fix_vtt_by_audio
    &&& c.live_record_limit is None
    &&& c.live_wait_time == 0
    &&& c.live_take_count == 16
    &&& !c.allow_hls_multi_ext_map
    &&& c.url_processor_args is None
    &&& !c.no_date_info
    &&& !c.use_ffmpeg_concat_demuxer
    &&& c.save_pattern is None
    &&& c.ad_keywords@.len() == 0
    &&& c.mux_imports@.len() == 0
    &&& c.network.use_system_proxy
    &&& c.network.custom_proxy is None
    &&& c.network.base_url is None
    &&& !c.network.append_url_params
    &&& c.network.headers@.len() == 0
    &&& c.decryption.engine == DecryptionEngine::Mp4Decrypt
    &&& c.decryption.key_text_file is None
    &&& c.decryption.bin_path is None
    &&& !c.decryption.real_time_decryption
    &&& !c.decryption.custom_hls.enabled
    &&& c.decryption.keys@.len() == 0
}

impl Default for Nm3u8dlConfig {
    fn default() -> (c: Self)
        ensures
            nm3u8dl_defaults(c),
    {
        Nm3u8dlConfig {
            path: String::new(),
            thread_count: 8,
            retry_count: 3,
            timeout: 100,
            max_speed: String::new(),
            auto_select: true,
            select_video: None,
            select_audio: None,
            select_subtitle: None,
            drop_video: None,
            drop_audio: None,
            drop_subtitle: None,
            check_segments_count: true,
            del_after_done: true,
            skip_merge: false,
            write_meta_json: false,
            binary_merge: false,
            concurrent_download: false,
            sub_only: false,
            sub_format: SubtitleFormat::default(),
            auto_subtitle_fix: true,
            live_perform_as_vod: false,
            live_real_time_merge: false,
            live_keep_segments: true,
            live_pipe_mux: false,
            live_fix_vtt_by_audio: false,
            live_record_limit: None,
            live_wait_time: 0,
            live_take_count: 16,
            allow_hls_multi_ext_map: false,
            url_processor_args: None,
            no_date_info: false,
            use_ffmpeg_concat_demuxer: false,
            save_pattern: None,
            ad_keywords: Vec::new(),
            mux_imports: Vec::new(),
            network: NetworkConfig::default(),
            decryption: DecryptionConfig::default(),
        }
    }
}

/// HTTP basic authentication (an empty user name disables it).
#[derive(Debug, Clone, PartialEq)]
pub struct AuthConfig {
    pub username: String,
    pub password: String,
}

impl Default for AuthConfig {
    fn default() -> (s: Self)
        ensures
            s.username@ == Seq::<char>::empty(),
            s.password@ == Seq::<char>::empty(),
    {
        AuthConfig { username: String::new(), password: String::new() }
    }
}

/// Settings of FFmpeg: muxing defaults, direct downloads, and ffprobe.
#[derive(Debug, Clone, PartialEq)]
pub struct FfmpegConfig {
    pub ffmpeg_path: String,
    pub ffprobe_path: String,
    pub mux_format: MuxFormat,
    pub muxer: Muxer,
    pub mux_bin_path: Option<String>,
    pub mux_skip_subtitles: bool,
    pub mux_keep_original: bool,
    pub reconnect_attempts: u32,
    pub reconnect_delay: u32,
    pub retry_count: u32,
    pub timeout: u32,
    pub connection_timeout: u32,
    pub overwrite_existing: bool,
    pub preserve_timestamps: bool,
    pub user_agent: Option<String>,
    pub referer: Option<String>,
    pub http_proxy: Option<String>,
    pub cookies: Option<String>,
    pub auth: AuthConfig,
    pub max_redirects: u32,
    pub reconnect_on_http_error: Option<String>,
    pub reconnect_delay_total_max: u32,
    pub respect_retry_after: bool,
}

/// The documented defaults of FFmpeg's settings.
pub open spec fn ffmpeg_defaults(c: FfmpegConfig) -> bool {
    &&& c.ffmpeg_path@ == Seq::<char>::empty()
    &&& c.ffprobe_path@ == Seq::<char>::empty()
    &&& c.mux_format == MuxFormat::Mp4
    &&& c.muxer == Muxer::Ffmpeg
    &&& c.mux_bin_path is None
    &&& !c.mux_skip_subtitles
    &&& !c.mux_keep_original
    &&& c.reconnect_attempts == 3
    &&& c.reconnect_delay == 5
    &&& c.retry_count == 3
    &&& c.timeout == 60
    &&& c.connection_timeout == 30
    &&& !c.overwrite_existing
    &&& c.preserve_timestamps
    &&& c.user_agent is None
    &&& c.referer is None
    &&& c.http_proxy is None
    &&& c.cookies is None
    &&& c.auth.username@ == Seq::<char>::empty()
    &&& c.auth.password@ == Seq::<char>::empty()
    &&& c.max_redirects == 8
    &&& c.reconnect_on_http_error is None
    &&& c.reconnect_delay_total_max == 256
    &&& c.respect_retry_after
}

impl Default for FfmpegConfig {
    fn default() -> (c: Self)
        ensures
            ffmpeg_defaults(c),
    {
        FfmpegConfig {
            ffmpeg_path: String::new(),
            ffprobe_path: String::new(),
            mux_format: MuxFormat::default(),
            muxer: Muxer::default(),
            mux_bin_path: None,
            mux_skip_subtitles: false,
            mux_keep_original: false,
            reconnect_attempts: 3,
            reconnect_delay: 5,
            retry_count: 3,
            timeout: 60,
            connection_timeout: 30,
            overwrite_existing: false,
            preserve_timestamps: true,
            user_agent: None,
            referer: None,
            http_proxy: None,
            cookies: None,
            auth: AuthConfig::default(),
            max_redirects: 8,
            reconnect_on_http_error: None,
            reconnect_delay_total_max: 256,
            respect_retry_after: true,
        }
    }
}

/// All tool settings, as handed to the engines.
#[derive(Debug, Clone, PartialEq)]
pub struct ToolConfigs {
    pub nm3u8dl: Nm3u8dlConfig,
    pub ffmpeg: FfmpegConfig,
}

impl Default for ToolConfigs {
    fn default() -> (c: Self)
        ensures
            nm3u8dl_defaults(c.nm3u8dl),
            ffmpeg_defaults(c.ffmpeg),
    {
        ToolConfigs { nm3u8dl: Nm3u8dlConfig::default(), ffmpeg: FfmpegConfig::default() }
    }
}

} // verus!
