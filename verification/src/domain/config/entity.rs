//! Entities of the layered configuration model (application, N_m3u8DL-RE,
//! FFmpeg, network and decryption settings, templates and task overrides).

use vstd::prelude::*;

use super::value_objects::{
    DecryptionEngine, DownloaderType, HlsEncryptionMethod, KeyValueType, Language, LogLevel,
    MuxFormat, Muxer, SubtitleFormat, Theme,
};

verus! {

/// Application settings (the behaviour of the program itself).
#[derive(Debug, Clone)]
pub struct AppSettings {
    pub language: Language,
    pub auto_start_download: bool,
    pub minimize_to_tray: bool,
    pub check_update: bool,
    pub default_save_dir: String,
    pub default_tmp_dir: String,
    pub theme: Theme,
    pub show_notification: bool,
    pub clipboard_watch: bool,
    pub log_level: LogLevel,
    pub log_file_path: String,
    pub no_log: bool,
}

impl Default for AppSettings {
    fn default() -> (s: Self)
        ensures
            s.language == Language::ZhCN,
            s.auto_start_download,
            !s.minimize_to_tray,
            s.check_update,
            s.default_save_dir@ == Seq::<char>::empty(),
            s.default_tmp_dir@ == Seq::<char>::empty(),
            s.theme == Theme::Dark,
            s.show_notification,
            !s.clipboard_watch,
            s.log_level == LogLevel::Info,
            s.log_file_path@ == Seq::<char>::empty(),
            !s.no_log,
    {
        AppSettings {
            language: Language::default(),
            auto_start_download: true,
            minimize_to_tray: false,
            check_update: true,
            default_save_dir: String::new(),
            default_tmp_dir: String::new(),
            theme: Theme::Dark,
            show_notification: true,
            clipboard_watch: false,
            log_level: LogLevel::Info,
            log_file_path: String::new(),
            no_log: false,
        }
    }
}

/// N_m3u8DL-RE settings (streaming downloads).
#[derive(Debug, Clone)]
pub struct M3U8DLSettings {
    pub n_m3u8dl_path: String,
    pub thread_count: i32,
    pub retry_count: i32,
    pub timeout: i32,
    pub max_speed: String,
    pub auto_select: bool,
    pub select_video: Option<String>,
    pub select_audio: Option<String>,
    pub select_subtitle: Option<String>,
    pub drop_video: Option<String>,
    pub drop_audio: Option<String>,
    pub drop_subtitle: Option<String>,
    pub check_segments_count: bool,
    pub del_after_done: bool,
    pub skip_merge: bool,
    pub write_meta_json: bool,
    pub binary_merge: bool,
    pub concurrent_download: bool,
    pub mux_format: MuxFormat,
    pub muxer: Muxer,
    pub mux_bin_path: Option<String>,
    pub mux_skip_subtitles: bool,
    /// Keep the original files after muxing.
    pub mux_keep_original: bool,
    pub sub_only: bool,
    pub sub_format: SubtitleFormat,
    pub auto_subtitle_fix: bool,
    pub live_perform_as_vod: bool,
    pub live_real_time_merge: bool,
    pub live_keep_segments: bool,
    pub live_pipe_mux: bool,
    pub live_fix_vtt_by_audio: bool,
    pub live_record_limit: Option<String>,
    pub live_wait_time: i32,
    pub live_take_count: i32,
    pub allow_hls_multi_ext_map: bool,
    pub url_processor_args: Option<String>,
    pub no_date_info: bool,
    pub use_ffmpeg_concat_demuxer: bool,
    pub ad_filter_keywords: Vec<String>,
    pub mux_imports: Vec<MuxImport>,
}

impl Default for M3U8DLSettings {
    fn default() -> (c: Self)
        ensures
            c.n_m3u8dl_path@ == Seq::<char>::empty(),
            c.thread_count == 8,
            c.retry_count == 3,
            c.timeout == 100,
            c.max_speed@ == Seq::<char>::empty(),
            c.auto_select,
            c.select_video is None,
            c.select_audio is None,
            c.select_subtitle is None,
            c.drop_video is None,
            c.drop_audio is None,
            c.drop_subtitle is None,
            c.check_segments_count,
            c.del_after_done,
            !c.skip_merge,
            !c.write_meta_json,
            !c.binary_merge,
            !c.concurrent_download,
            c.mux_format == MuxFormat::MP4,
            c.muxer == Muxer::FFmpeg,
            c.mux_bin_path is None,
            !c.mux_skip_subtitles,
            !c.mux_keep_original,
            !c.sub_only,
            c.sub_format == SubtitleFormat::SRT,
            c.auto_subtitle_fix,
            !c.live_perform_as_vod,
            !c.live_real_time_merge,
            c.live_keep_segments,
            !c.live_pipe_mux,
            !c.live_fix_vtt_by_audio,
            c.live_record_limit is None,
            c.live_wait_time == 0,
            c.live_take_count == 16,
            !c.allow_hls_multi_ext_map,
            c.url_processor_args is None,
            !c.no_date_info,
            !c.use_ffmpeg_concat_demuxer,
            c.ad_filter_keywords@.len() == 0,
            c.mux_imports@.len() == 0,
    {
        M3U8DLSettings {
            n_m3u8dl_path: String::new(),
            thread_count: 8,
            retry_count: 3,
            timeout: 100,
            max_speed: String::new(),
            auto_select: true,
            select_video: None,
            select_audio: None,
            select_subtitle: None,
            drop_video: None,
            drop_audio: None,
            drop_subtitle: None,
            check_segments_count: true,
            del_after_done: true,
            skip_merge: false,
            write_meta_json: false,
            binary_merge: false,
            concurrent_download: false,
            mux_format: MuxFormat::MP4,
            muxer: Muxer::FFmpeg,
            mux_bin_path: None,
            mux_skip_subtitles: false,
            mux_keep_original: false,
            sub_only: false,
            sub_format: SubtitleFormat::SRT,
            auto_subtitle_fix: true,
            live_perform_as_vod: false,
            live_real_time_merge: false,
            live_keep_segments: true,
            live_pipe_mux: false,
            live_fix_vtt_by_audio: false,
            live_record_limit: None,
            live_wait_time: 0,
            live_take_count: 16,
            allow_hls_multi_ext_map: false,
            url_processor_args: None,
            no_date_info: false,
            use_ffmpeg_concat_demuxer: false,
            ad_filter_keywords: Vec::new(),
            mux_imports: Vec::new(),
        }
    }
}

/// An external media file muxed in.
#[derive(Debug, Clone)]
pub struct MuxImport {
    pub path: String,
    pub lang: Option<String>,
    pub name: Option<String>,
}

/// FFmpeg settings (direct downloads).
#[derive(Debug, Clone)]
pub struct FFmpegSettings {
    pub ffmpeg_path: String,
    pub ffprobe_path: String,
    pub retry_count: i32,
    pub timeout: i32,
    pub max_speed: String,
    pub connection_timeout: i32,
    pub reconnect_attempts: i32,
    pub reconnect_delay: i32,
    pub overwrite_existing: bool,
    pub preserve_timestamps: bool,
    pub user_agent: Option<String>,
    pub referer: Option<String>,
}

impl Default for FFmpegSettings {
    fn default() -> (c: Self)
        ensures
            c.ffmpeg_path@ == Seq::<char>::empty(),
            c.ffprobe_path@ == Seq::<char>::empty(),
            c.retry_count == 3,
            c.timeout == 60,
            c.max_speed@ == Seq::<char>::empty(),
            c.connection_timeout == 30,
            c.reconnect_attempts == 3,
            c.reconnect_delay == 5,
            !c.overwrite_existing,
            c.preserve_timestamps,
            c.user_agent is None,
            c.referer is None,
    {
        FFmpegSettings {
            ffmpeg_path: String::new(),
            ffprobe_path: String::new(),
            retry_count: 3,
            timeout: 60,
            max_speed: String::new(),
            connection_timeout: 30,
            reconnect_attempts: 3,
            reconnect_delay: 5,
            overwrite_existing: false,
            preserve_timestamps: true,
            user_agent: None,
            referer: None,
        }
    }
}

/// Network settings shared by the downloaders.
#[derive(Debug, Clone)]
pub struct NetworkSettings {
    pub use_system_proxy: bool,
    pub custom_proxy: Option<String>,
    pub base_url: Option<String>,
    pub append_url_params: bool,
    pub headers: Vec<HeaderConfig>,
}

impl Default for NetworkSettings {
    fn default() -> (c: Self)
        ensures
            c.use_system_proxy,
            c.custom_proxy is None,
            c.base_url is None,
            !c.append_url_params,
            c.headers@.len() == 0,
    {
        NetworkSettings {
            use_system_proxy: true,
            custom_proxy: None,
            base_url: None,
            append_url_params: false,
            headers: Vec::new(),
        }
    }
}

/// A request header.
#[derive(Debug, Clone)]
pub struct HeaderConfig {
    pub name: String,
    pub value: String,
    pub enabled: bool,
    pub sort_order: i32,
}

impl HeaderConfig {
    /// A copy of the header.
    pub fn duplicate(&self) -> (r: HeaderConfig)
        ensures
            r == *self,
    {
        HeaderConfig {
            name: self.name.clone(),
            value: self.value.clone(),
            enabled: self.enabled,
            sort_order: self.sort_order,
        }
    }
}

/// Decryption settings shared by the downloaders.
#[derive(Debug, Clone)]
pub struct DecryptionSettings {
    pub key_text_file: Option<String>,
    pub decryption_engine: DecryptionEngine,
    pub decryption_bin_path: Option<String>,
    pub real_time_decryption: bool,
    pub custom_hls: CustomHlsDecryption,
    pub keys: Vec<DecryptionKey>,
}

impl Default for DecryptionSettings {
    fn default() -> (c: Self)
        ensures
            c.key_text_file is None,
            c.decryption_engine == DecryptionEngine::MP4Decrypt,
            c.decryption_bin_path is None,
            !c.real_time_decryption,
            !c.custom_hls.enabled,
            c.custom_hls.method == HlsEncryptionMethod::UNKNOWN,
            c.keys@.len() == 0,
    {
        DecryptionSettings {
            key_text_file: None,
            decryption_engine: DecryptionEngine::MP4Decrypt,
            decryption_bin_path: None,
            real_time_decryption: false,
            custom_hls: CustomHlsDecryption::default(),
            keys: Vec::new(),
        }
    }
}

/// Custom HLS decryption.
#[derive(Debug, Clone)]
pub struct CustomHlsDecryption {
    pub enabled: bool,
    pub method: HlsEncryptionMethod,
    pub key: KeyValue,
    pub iv: KeyValue,
}

impl Default for CustomHlsDecryption {
    fn default() -> (c: Self)
        ensures
            !c.enabled,
            c.method == HlsEncryptionMethod::UNKNOWN,
            c.key.value_type == KeyValueType::Hex,
            c.key.value@ == Seq::<char>::empty(),
            c.iv.value_type == KeyValueType::Hex,
            c.iv.value@ == Seq::<char>::empty(),
    {
        CustomHlsDecryption {
            enabled: false,
            method: HlsEncryptionMethod::UNKNOWN,
            key: KeyValue::default(),
            iv: KeyValue::default(),
        }
    }
}

/// A key or IV value.
#[derive(Debug, Clone)]
pub struct KeyValue {
    pub value_type: KeyValueType,
    pub value: String,
}

impl Default for KeyValue {
    fn default() -> (c: Self)
        ensures
            c.value_type == KeyValueType::Hex,
            c.value@ == Seq::<char>::empty(),
    {
        KeyValue { value_type: KeyValueType::Hex, value: String::new() }
    }
}

/// A decryption key (`KID:KEY`, or a bare key when `kid` is absent).
#[derive(Debug, Clone)]
pub struct DecryptionKey {
    pub kid: Option<String>,
    pub key: String,
    pub sort_order: i32,
}

/// A named configuration template.
#[derive(Debug, Clone)]
pub struct ConfigTemplate {
    pub id: String,
    pub name: String,
    pub description: Option<String>,
    pub is_preset: bool,
    pub downloader_type: DownloaderType,
    pub created_at: String,
    pub updated_at: String,
    pub overrides: TemplateOverrides,
}

/// Overrides carried by a template.
#[derive(Debug, Clone, Default)]
pub struct TemplateOverrides {
    pub m3u8dl: Option<PartialM3U8DLSettings>,
    pub ffmpeg: Option<PartialFFmpegSettings>,
    pub network: Option<PartialNetworkSettings>,
    pub decryption: Option<PartialDecryptionSettings>,
    /// Request headers (replace the global ones).
    pub headers: Option<Vec<HeaderConfig>>,
    /// Decryption keys (replace the global ones).
    pub keys: Option<Vec<DecryptionKey>>,
    pub ad_filter_keywords: Option<Vec<String>>,
    pub mux_imports: Option<Vec<MuxImport>>,
}

/// Partial N_m3u8DL-RE settings (template and task overrides).
#[derive(Debug, Clone, Default)]
pub struct PartialM3U8DLSettings {
    pub thread_count: Option<i32>,
    pub retry_count: Option<i32>,
    pub timeout: Option<i32>,
    pub max_speed: Option<String>,
    pub auto_select: Option<bool>,
    pub select_video: Option<String>,
    pub select_audio: Option<String>,
    pub select_subtitle: Option<String>,
    pub drop_video: Option<String>,
    pub drop_audio: Option<String>,
    pub drop_subtitle: Option<String>,
    pub check_segments_count: Option<bool>,
    pub del_after_done: Option<bool>,
    pub skip_merge: Option<bool>,
    pub write_meta_json: Option<bool>,
    pub binary_merge: Option<bool>,
    pub concurrent_download: Option<bool>,
    pub mux_format: Option<MuxFormat>,
    pub muxer: Option<Muxer>,
    pub mux_bin_path: Option<String>,
    pub mux_skip_subtitles: Option<bool>,
    pub mux_keep_original: Option<bool>,
    pub sub_only: Option<bool>,
    pub sub_format: Option<SubtitleFormat>,
    pub auto_subtitle_fix: Option<bool>,
    pub live_perform_as_vod: Option<bool>,
    pub live_real_time_merge: Option<bool>,
    pub live_keep_segments: Option<bool>,
    pub live_pipe_mux: Option<bool>,
    pub live_fix_vtt_by_audio: Option<bool>,
    pub live_record_limit: Option<String>,
    pub live_wait_time: Option<i32>,
    pub live_take_count: Option<i32>,
    pub allow_hls_multi_ext_map: Option<bool>,
    pub url_processor_args: Option<String>,
    pub no_date_info: Option<bool>,
    pub use_ffmpeg_concat_demuxer: Option<bool>,
}

/// Partial FFmpeg settings (template and task overrides).
#[derive(Debug, Clone, Default)]
pub struct PartialFFmpegSettings {
    pub ffmpeg_path: Option<String>,
    pub ffprobe_path: Option<String>,
    pub retry_count: Option<i32>,
    pub timeout: Option<i32>,
    pub max_speed: Option<String>,
    pub connection_timeout: Option<i32>,
    pub reconnect_attempts: Option<i32>,
    pub reconnect_delay: Option<i32>,
    pub overwrite_existing: Option<bool>,
    pub preserve_timestamps: Option<bool>,
    pub user_agent: Option<String>,
    pub referer: Option<String>,
}

/// Partial network settings (template overrides).
#[derive(Debug, Clone, Default)]
pub struct PartialNetworkSettings {
    pub use_system_proxy: Option<bool>,
    pub custom_proxy: Option<String>,
    pub base_url: Option<String>,
    pub append_url_params: Option<bool>,
}

/// Partial decryption settings (template overrides).
#[derive(Debug, Clone, Default)]
pub struct PartialDecryptionSettings {
    pub key_text_file: Option<String>,
    pub decryption_engine: Option<DecryptionEngine>,
    pub decryption_bin_path: Option<String>,
    pub real_time_decryption: Option<bool>,
    pub custom_hls: Option<CustomHlsDecryption>,
}

/// The configuration of one task.
#[derive(Debug, Clone)]
pub struct TaskConfig {
    pub task_id: String,
    pub template_id: Option<String>,
    pub downloader_type: DownloaderType,
    pub overrides: TaskConfigOverrides,
}

/// Task-level overrides.
#[derive(Debug, Clone, Default)]
pub struct TaskConfigOverrides {
    pub save_dir: Option<String>,
    pub save_name: Option<String>,
    pub save_pattern: Option<String>,
    /// Request headers appended to the global / template ones.
    pub headers: Vec<HeaderConfig>,
    pub m3u8dl: Option<PartialM3U8DLSettings>,
    pub ffmpeg: Option<PartialFFmpegSettings>,
}

/// The fully merged configuration used to build a command line.
#[derive(Debug, Clone)]
pub struct ResolvedConfig {
    pub downloader_type: DownloaderType,
    pub template_id: Option<String>,
    pub app: AppSettings,
    pub m3u8dl: M3U8DLSettings,
    pub ffmpeg: FFmpegSettings,
    pub network: NetworkSettings,
    pub decryption: DecryptionSettings,
    pub task: TaskSpecificConfig,
}

/// Values specific to one task.
#[derive(Debug, Clone)]
pub struct TaskSpecificConfig {
    pub save_dir: String,
    pub save_name: String,
    pub save_pattern: Option<String>,
    pub custom_range: Option<String>,
    pub start_at: Option<String>,
}

impl Default for TaskSpecificConfig {
    fn default() -> (c: Self)
        ensures
            c.save_dir@ == Seq::<char>::empty(),
            c.save_name@ == Seq::<char>::empty(),
            c.save_pattern is None,
            c.custom_range is None,
            c.start_at is None,
    {
        TaskSpecificConfig {
            save_dir: String::new(),
            save_name: String::new(),
            save_pattern: None,
            custom_range: None,
            start_at: None,
        }
    }
}

} // verus!
