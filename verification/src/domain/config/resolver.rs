//! Configuration resolution: task overrides > template overrides > global
//! settings > defaults.
//!
//! The stored rows are read by the caller and handed to the resolver as
//! plain values; the resolver itself only merges.

use vstd::prelude::*;

use super::entity::{
    AppSettings, CustomHlsDecryption, DecryptionKey, DecryptionSettings, FFmpegSettings,
    HeaderConfig, KeyValue, M3U8DLSettings, MuxImport, NetworkSettings, PartialFFmpegSettings,
    PartialM3U8DLSettings, ResolvedConfig, TaskConfigOverrides, TaskSpecificConfig,
};
use super::value_objects::{
    decryption_engine_from, hls_method_from, key_value_type_from, language_from, log_level_from,
    mux_format_from, muxer_from, subtitle_format_from, theme_from, DecryptionEngine,
    DownloaderType, HlsEncryptionMethod, KeyValueType, Language, LogLevel, MuxFormat, Muxer,
    SubtitleFormat, Theme,
};
use crate::text::str_eq;

verus! {

// ---------------------------------------------------------------------
// Stored rows
// ---------------------------------------------------------------------

/// Application settings as stored (enums as text).
#[derive(Debug, Clone)]
pub struct StoredAppSettings {
    pub language: String,
    pub auto_start_download: bool,
    pub minimize_to_tray: bool,
    pub check_update: bool,
    pub default_save_dir: String,
    pub default_tmp_dir: String,
    pub theme: String,
    pub show_notification: bool,
    pub clipboard_watch: bool,
    pub log_level: String,
    pub log_file_path: String,
    pub no_log: bool,
}

/// N_m3u8DL-RE settings as stored (enums as text).
#[derive(Debug, Clone)]
pub struct StoredM3U8DLSettings {
    pub n_m3u8dl_path: String,
    pub thread_count: i32,
    pub retry_count: i32,
    pub timeout: i32,
    pub max_speed: String,
    pub auto_select: bool,
    pub select_video: Option<String>,
    pub select_audio: Option<String>,
    pub select_subtitle: Option<String>,
    pub drop_video: Option<String>,
    pub drop_audio: Option<String>,
    pub drop_subtitle: Option<String>,
    pub check_segments_count: bool,
    pub del_after_done: bool,
    pub skip_merge: bool,
    pub write_meta_json: bool,
    pub binary_merge: bool,
    pub concurrent_download: bool,
    pub mux_format: String,
    pub muxer: String,
    pub mux_bin_path: Option<String>,
    pub mux_skip_subtitles: bool,
    pub mux_keep_original: bool,
    pub sub_only: bool,
    pub sub_format: String,
    pub auto_subtitle_fix: bool,
    pub live_perform_as_vod: bool,
    pub live_real_time_merge: bool,
    pub live_keep_segments: bool,
    pub live_pipe_mux: bool,
    pub live_fix_vtt_by_audio: bool,
    pub live_record_limit: Option<String>,
    pub live_wait_time: i32,
    pub live_take_count: i32,
    pub allow_hls_multi_ext_map: bool,
    pub url_processor_args: Option<String>,
    pub no_date_info: bool,
    pub use_ffmpeg_concat_demuxer: bool,
}

/// FFmpeg settings as stored.
#[derive(Debug, Clone)]
pub struct StoredFFmpegSettings {
    pub ffmpeg_path: String,
    pub ffprobe_path: String,
    pub retry_count: i32,
    pub timeout: i32,
    pub max_speed: String,
    pub connection_timeout: i32,
    pub reconnect_attempts: i32,
    pub reconnect_delay: i32,
    pub overwrite_existing: bool,
    pub preserve_timestamps: bool,
    pub user_agent: Option<String>,
    pub referer: Option<String>,
}

/// Network settings as stored (headers are stored apart).
#[derive(Debug, Clone)]
pub struct StoredNetworkSettings {
    pub use_system_proxy: bool,
    pub custom_proxy: Option<String>,
    pub base_url: Option<String>,
    pub append_url_params: bool,
}

/// A stored request header.
#[derive(Debug, Clone)]
pub struct StoredHeader {
    pub id: i64,
    pub name: String,
    pub value: String,
    pub enabled: bool,
    pub sort_order: i32,
}

/// Decryption settings as stored (enums as text, keys stored apart).
#[derive(Debug, Clone)]
pub struct StoredDecryptionSettings {
    pub key_text_file: Option<String>,
    pub decryption_engine: String,
    pub decryption_bin_path: Option<String>,
    pub real_time_decryption: bool,
    pub custom_hls_enabled: bool,
    pub custom_hls_method: String,
    pub custom_hls_key_type: String,
    pub custom_hls_key_value: Option<String>,
    pub custom_hls_iv_type: String,
    pub custom_hls_iv_value: Option<String>,
}

/// A stored decryption key.
#[derive(Debug, Clone)]
pub struct StoredKey {
    pub id: i64,
    pub kid: Option<String>,
    pub key: String,
    pub sort_order: i32,
}

/// Every global row the resolver starts from.
#[derive(Debug, Clone)]
pub struct GlobalSettings {
    pub app: StoredAppSettings,
    pub m3u8dl: StoredM3U8DLSettings,
    pub ffmpeg: StoredFFmpegSettings,
    pub network: StoredNetworkSettings,
    pub headers: Vec<StoredHeader>,
    pub decryption: StoredDecryptionSettings,
    pub keys: Vec<StoredKey>,
}

/// N_m3u8DL-RE overrides stored with a template.
#[derive(Debug, Clone)]
pub struct TemplateM3U8DL {
    pub thread_count: Option<i32>,
    pub retry_count: Option<i32>,
    pub timeout: Option<i32>,
    pub max_speed: Option<String>,
    pub auto_select: Option<bool>,
    pub select_video: Option<String>,
    pub select_audio: Option<String>,
    pub select_subtitle: Option<String>,
}

/// FFmpeg overrides stored with a template.
#[derive(Debug, Clone)]
pub struct TemplateFFmpeg {
    pub ffmpeg_path: Option<String>,
    pub ffprobe_path: Option<String>,
    pub retry_count: Option<i32>,
    pub timeout: Option<i32>,
}

/// Network overrides stored with a template.
#[derive(Debug, Clone)]
pub struct TemplateNetwork {
    pub use_system_proxy: Option<bool>,
    pub custom_proxy: Option<String>,
    pub base_url: Option<String>,
    pub append_url_params: Option<bool>,
}

/// Decryption overrides stored with a template (engine as text).
#[derive(Debug, Clone)]
pub struct TemplateDecryption {
    pub key_text_file: Option<String>,
    pub decryption_engine: Option<String>,
    pub decryption_bin_path: Option<String>,
    pub real_time_decryption: Option<bool>,
}

/// A stored template with all its override rows.
#[derive(Debug, Clone)]
pub struct StoredTemplate {
    pub id: String,
    pub downloader_type: DownloaderType,
    pub m3u8dl: Option<TemplateM3U8DL>,
    pub ffmpeg: Option<TemplateFFmpeg>,
    pub network: Option<TemplateNetwork>,
    pub decryption: Option<TemplateDecryption>,
    /// Replace the global headers when not empty.
    pub headers: Vec<StoredHeader>,
    /// Replace the global keys when not empty.
    pub keys: Vec<StoredKey>,
}

// ---------------------------------------------------------------------
// The model of resolution
// ---------------------------------------------------------------------

/// `o`'s value, or `d` when absent.
pub open spec fn or_value<T>(o: Option<T>, d: T) -> T {
    match o {
        Some(v) => v,
        None => d,
    }
}

/// `a` when present, else `b`.
pub open spec fn or_option<T>(a: Option<T>, b: Option<T>) -> Option<T> {
    if a is Some {
        a
    } else {
        b
    }
}

/// The characters of an optional string, empty when absent.
pub open spec fn text_or_empty(o: Option<String>) -> Seq<char> {
    match o {
        Some(s) => s@,
        None => Seq::empty(),
    }
}

/// Application settings from their stored row (unknown texts fall back to defaults).
pub open spec fn app_from_store(db: StoredAppSettings) -> AppSettings {
    AppSettings {
        language: or_value(language_from(db.language@), Language::ZhCN),
        auto_start_download: db.auto_start_download,
        minimize_to_tray: db.minimize_to_tray,
        check_update: db.check_update,
        default_save_dir: db.default_save_dir,
        default_tmp_dir: db.default_tmp_dir,
        theme: or_value(theme_from(db.theme@), Theme::Dark),
        show_notification: db.show_notification,
        clipboard_watch: db.clipboard_watch,
        log_level: or_value(log_level_from(db.log_level@), LogLevel::Info),
        log_file_path: db.log_file_path,
        no_log: db.no_log,
    }
}

/// N_m3u8DL-RE settings from their stored row; the keyword and import lists
/// (not stored in the row) are the given ones.
#[verifier::opaque]
pub open spec fn m3u8dl_from_store(
    db: StoredM3U8DLSettings,
    ad_filter_keywords: Vec<String>,
    mux_imports: Vec<MuxImport>,
) -> M3U8DLSettings {
    M3U8DLSettings {
        n_m3u8dl_path: db.n_m3u8dl_path,
        thread_count: db.thread_count,
        retry_count: db.retry_count,
        timeout: db.timeout,
        max_speed: db.max_speed,
        auto_select: db.auto_select,
        select_video: db.select_video,
        select_audio: db.select_audio,
        select_subtitle: db.select_subtitle,
        drop_video: db.drop_video,
        drop_audio: db.drop_audio,
        drop_subtitle: db.drop_subtitle,
        check_segments_count: db.check_segments_count,
        del_after_done: db.del_after_done,
        skip_merge: db.skip_merge,
        write_meta_json: db.write_meta_json,
        binary_merge: db.binary_merge,
        concurrent_download: db.concurrent_download,
        mux_format: or_value(mux_format_from(db.mux_format@), MuxFormat::MP4),
        muxer: or_value(muxer_from(db.muxer@), Muxer::FFmpeg),
        mux_bin_path: db.mux_bin_path,
        mux_skip_subtitles: db.mux_skip_subtitles,
        mux_keep_original: db.mux_keep_original,
        sub_only: db.sub_only,
        sub_format: or_value(subtitle_format_from(db.sub_format@), SubtitleFormat::SRT),
        auto_subtitle_fix: db.auto_subtitle_fix,
        live_perform_as_vod: db.live_perform_as_vod,
        live_real_time_merge: db.live_real_time_merge,
        live_keep_segments: db.live_keep_segments,
        live_pipe_mux: db.live_pipe_mux,
        live_fix_vtt_by_audio: db.live_fix_vtt_by_audio,
        live_record_limit: db.live_record_limit,
        live_wait_time: db.live_wait_time,
        live_take_count: db.live_take_count,
        allow_hls_multi_ext_map: db.allow_hls_multi_ext_map,
        url_processor_args: db.url_processor_args,
        no_date_info: db.no_date_info,
        use_ffmpeg_concat_demuxer: db.use_ffmpeg_concat_demuxer,
        ad_filter_keywords,
        mux_imports,
    }
}

/// FFmpeg settings from their stored row.
pub open spec fn ffmpeg_from_store(db: StoredFFmpegSettings) -> FFmpegSettings {
    FFmpegSettings {
        ffmpeg_path: db.ffmpeg_path,
        ffprobe_path: db.ffprobe_path,
        retry_count: db.retry_count,
        timeout: db.timeout,
        max_speed: db.max_speed,
        connection_timeout: db.connection_timeout,
        reconnect_attempts: db.reconnect_attempts,
        reconnect_delay: db.reconnect_delay,
        overwrite_existing: db.overwrite_existing,
        preserve_timestamps: db.preserve_timestamps,
        user_agent: db.user_agent,
        referer: db.referer,
    }
}

/// Network settings from their stored row, with the given header list.
pub open spec fn network_from_store(
    db: StoredNetworkSettings,
    headers: Vec<HeaderConfig>,
) -> NetworkSettings {
    NetworkSettings {
        use_system_proxy: db.use_system_proxy,
        custom_proxy: db.custom_proxy,
        base_url: db.base_url,
        append_url_params: db.append_url_params,
        headers,
    }
}

/// A header from its stored row.
pub open spec fn header_from_store(h: StoredHeader) -> HeaderConfig {
    HeaderConfig { name: h.name, value: h.value, enabled: h.enabled, sort_order: h.sort_order }
}

/// Headers from their stored rows, in order.
pub open spec fn headers_from_store(hs: Seq<StoredHeader>) -> Seq<HeaderConfig> {
    hs.map_values(|h: StoredHeader| header_from_store(h))
}

/// A key from its stored row.
pub open spec fn key_from_store(k: StoredKey) -> DecryptionKey {
    DecryptionKey { kid: k.kid, key: k.key, sort_order: k.sort_order }
}

/// Keys from their stored rows, in order.
pub open spec fn keys_from_store(ks: Seq<StoredKey>) -> Seq<DecryptionKey> {
    ks.map_values(|k: StoredKey| key_from_store(k))
}

/// Decryption settings from their stored row; the custom HLS key and IV
/// strings and the key list are the given ones.
pub open spec fn decryption_from_store(
    db: StoredDecryptionSettings,
    key_value: String,
    iv_value: String,
    keys: Vec<DecryptionKey>,
) -> DecryptionSettings {
    DecryptionSettings {
        key_text_file: db.key_text_file,
        decryption_engine: or_value(
            decryption_engine_from(db.decryption_engine@),
            DecryptionEngine::MP4Decrypt,
        ),
        decryption_bin_path: db.decryption_bin_path,
        real_time_decryption: db.real_time_decryption,
        custom_hls: CustomHlsDecryption {
            enabled: db.custom_hls_enabled,
            method: or_value(hls_method_from(db.custom_hls_method@), HlsEncryptionMethod::UNKNOWN),
            key: KeyValue {
                value_type: or_value(key_value_type_from(db.custom_hls_key_type@), KeyValueType::Hex),
                value: key_value,
            },
            iv: KeyValue {
                value_type: or_value(key_value_type_from(db.custom_hls_iv_type@), KeyValueType::Hex),
                value: iv_value,
            },
        },
        keys,
    }
}

/// A template's N_m3u8DL-RE overrides applied to `base`.
#[verifier::opaque]
pub open spec fn with_template_m3u8dl(base: M3U8DLSettings, o: TemplateM3U8DL) -> M3U8DLSettings {
    M3U8DLSettings {
        thread_count: or_value(o.thread_count, base.thread_count),
        retry_count: or_value(o.retry_count, base.retry_count),
        timeout: or_value(o.timeout, base.timeout),
        max_speed: or_value(o.max_speed, base.max_speed),
        auto_select: or_value(o.auto_select, base.auto_select),
        select_video: or_option(o.select_video, base.select_video),
        select_audio: or_option(o.select_audio, base.select_audio),
        select_subtitle: or_option(o.select_subtitle, base.select_subtitle),
        ..base
    }
}

/// A template's FFmpeg overrides applied to `base`.
pub open spec fn with_template_ffmpeg(base: FFmpegSettings, o: TemplateFFmpeg) -> FFmpegSettings {
    FFmpegSettings {
        ffmpeg_path: or_value(o.ffmpeg_path, base.ffmpeg_path),
        ffprobe_path: or_value(o.ffprobe_path, base.ffprobe_path),
        retry_count: or_value(o.retry_count, base.retry_count),
        timeout: or_value(o.timeout, base.timeout),
        ..base
    }
}

/// A template's network overrides applied to `base`.
pub open spec fn with_template_network(base: NetworkSettings, o: TemplateNetwork) -> NetworkSettings {
    NetworkSettings {
        use_system_proxy: or_value(o.use_system_proxy, base.use_system_proxy),
        custom_proxy: or_option(o.custom_proxy, base.custom_proxy),
        base_url: or_option(o.base_url, base.base_url),
        append_url_params: or_value(o.append_url_params, base.append_url_params),
        ..base
    }
}

/// A template's decryption overrides applied to `base` (an unknown engine
/// text selects the default engine).
pub open spec fn with_template_decryption(
    base: DecryptionSettings,
    o: TemplateDecryption,
) -> DecryptionSettings {
    DecryptionSettings {
        key_text_file: or_option(o.key_text_file, base.key_text_file),
        decryption_engine: match o.decryption_engine {
            Some(e) => or_value(decryption_engine_from(e@), DecryptionEngine::MP4Decrypt),
            None => base.decryption_engine,
        },
        decryption_bin_path: or_option(o.decryption_bin_path, base.decryption_bin_path),
        real_time_decryption: or_value(o.real_time_decryption, base.real_time_decryption),
        ..base
    }
}

/// Task-level N_m3u8DL-RE overrides applied to `base`: every field the task
/// sets replaces the one below it.
#[verifier::opaque]
pub open spec fn with_partial_m3u8dl(base: M3U8DLSettings, o: PartialM3U8DLSettings) -> M3U8DLSettings {
    with_partial_m3u8dl_live(with_partial_m3u8dl_mux(with_partial_m3u8dl_core(base, o), o), o)
}

/// Task-level overrides of the download settings of N_m3u8DL-RE.
pub open spec fn with_partial_m3u8dl_core(base: M3U8DLSettings, o: PartialM3U8DLSettings) -> M3U8DLSettings {
    M3U8DLSettings {
        thread_count: or_value(o.thread_count, base.thread_count),
        retry_count: or_value(o.retry_count, base.retry_count),
        timeout: or_value(o.timeout, base.timeout),
        max_speed: or_value(o.max_speed, base.max_speed),
        auto_select: or_value(o.auto_select, base.auto_select),
        select_video: or_option(o.select_video, base.select_video),
        select_audio: or_option(o.select_audio, base.select_audio),
        select_subtitle: or_option(o.select_subtitle, base.select_subtitle),
        drop_video: or_option(o.drop_video, base.drop_video),
        drop_audio: or_option(o.drop_audio, base.drop_audio),
        drop_subtitle: or_option(o.drop_subtitle, base.drop_subtitle),
        check_segments_count: or_value(o.check_segments_count, base.check_segments_count),
        del_after_done: or_value(o.del_after_done, base.del_after_done),
        skip_merge: or_value(o.skip_merge, base.skip_merge),
        write_meta_json: or_value(o.write_meta_json, base.write_meta_json),
        binary_merge: or_value(o.binary_merge, base.binary_merge),
        concurrent_download: or_value(o.concurrent_download, base.concurrent_download),
        ..base
    }
}

/// Task-level overrides of the muxing and subtitle settings of N_m3u8DL-RE.
pub open spec fn with_partial_m3u8dl_mux(base: M3U8DLSettings, o: PartialM3U8DLSettings) -> M3U8DLSettings {
    M3U8DLSettings {
        mux_format: or_value(o.mux_format, base.mux_format),
        muxer: or_value(o.muxer, base.muxer),
        mux_bin_path: or_option(o.mux_bin_path, base.mux_bin_path),
        mux_skip_subtitles: or_value(o.mux_skip_subtitles, base.mux_skip_subtitles),
        mux_keep_original: or_value(o.mux_keep_original, base.mux_keep_original),
        sub_only: or_value(o.sub_only, base.sub_only),
        sub_format: or_value(o.sub_format, base.sub_format),
        auto_subtitle_fix: or_value(o.auto_subtitle_fix, base.auto_subtitle_fix),
        ..base
    }
}

/// Task-level overrides of the live and other settings of N_m3u8DL-RE.
pub open spec fn with_partial_m3u8dl_live(base: M3U8DLSettings, o: PartialM3U8DLSettings) -> M3U8DLSettings {
    M3U8DLSettings {
        live_perform_as_vod: or_value(o.live_perform_as_vod, base.live_perform_as_vod),
        live_real_time_merge: or_value(o.live_real_time_merge, base.live_real_time_merge),
        live_keep_segments: or_value(o.live_keep_segments, base.live_keep_segments),
        live_pipe_mux: or_value(o.live_pipe_mux, base.live_pipe_mux),
        live_fix_vtt_by_audio: or_value(o.live_fix_vtt_by_audio, base.live_fix_vtt_by_audio),
        live_record_limit: or_option(o.live_record_limit, base.live_record_limit),
        live_wait_time: or_value(o.live_wait_time, base.live_wait_time),
        live_take_count: or_value(o.live_take_count, base.live_take_count),
        allow_hls_multi_ext_map: or_value(o.allow_hls_multi_ext_map, base.allow_hls_multi_ext_map),
        url_processor_args: or_option(o.url_processor_args, base.url_processor_args),
        no_date_info: or_value(o.no_date_info, base.no_date_info),
        use_ffmpeg_concat_demuxer: or_value(o.use_ffmpeg_concat_demuxer, base.use_ffmpeg_concat_demuxer),
        ..base
    }
}

/// Task-level FFmpeg overrides applied to `base`: every field the task sets
/// replaces the one below it.
pub open spec fn with_partial_ffmpeg(base: FFmpegSettings, o: PartialFFmpegSettings) -> FFmpegSettings {
    FFmpegSettings {
        ffmpeg_path: or_value(o.ffmpeg_path, base.ffmpeg_path),
        ffprobe_path: or_value(o.ffprobe_path, base.ffprobe_path),
        retry_count: or_value(o.retry_count, base.retry_count),
        timeout: or_value(o.timeout, base.timeout),
        max_speed: or_value(o.max_speed, base.max_speed),
        connection_timeout: or_value(o.connection_timeout, base.connection_timeout),
        reconnect_attempts: or_value(o.reconnect_attempts, base.reconnect_attempts),
        reconnect_delay: or_value(o.reconnect_delay, base.reconnect_delay),
        overwrite_existing: or_value(o.overwrite_existing, base.overwrite_existing),
        preserve_timestamps: or_value(o.preserve_timestamps, base.preserve_timestamps),
        user_agent: or_option(o.user_agent, base.user_agent),
        referer: or_option(o.referer, base.referer),
        ..base
    }
}

/// The first template whose id is `id`.
pub open spec fn find_template(ts: Seq<StoredTemplate>, id: Seq<char>) -> Option<StoredTemplate>
    decreases ts.len(),
{
    if ts.len() == 0 {
        None
    } else if ts[0].id@ == id {
        Some(ts[0])
    } else {
        find_template(ts.drop_first(), id)
    }
}

/// The template that applies: none when no id is given, else the first
/// stored template with that id.
pub open spec fn template_for(ts: Seq<StoredTemplate>, id: Option<Seq<char>>) -> Option<StoredTemplate> {
    match id {
        Some(i) => find_template(ts, i),
        None => None,
    }
}

/// N_m3u8DL-RE settings after the template stage.
pub open spec fn m3u8dl_after_template(
    base: M3U8DLSettings,
    t: Option<StoredTemplate>,
    dt: DownloaderType,
) -> M3U8DLSettings {
    match t {
        Some(t) => if dt == DownloaderType::M3U8DL && t.m3u8dl is Some {
            with_template_m3u8dl(base, t.m3u8dl->0)
        } else {
            base
        },
        None => base,
    }
}

/// FFmpeg settings after the template stage.
pub open spec fn ffmpeg_after_template(
    base: FFmpegSettings,
    t: Option<StoredTemplate>,
    dt: DownloaderType,
) -> FFmpegSettings {
    match t {
        Some(t) => if dt == DownloaderType::FFmpeg && t.ffmpeg is Some {
            with_template_ffmpeg(base, t.ffmpeg->0)
        } else {
            base
        },
        None => base,
    }
}

/// Network settings after the template stage (headers aside).
pub open spec fn network_after_template(base: NetworkSettings, t: Option<StoredTemplate>) -> NetworkSettings {
    match t {
        Some(t) => match t.network {
            Some(o) => with_template_network(base, o),
            None => base,
        },
        None => base,
    }
}

/// Decryption settings after the template stage (keys aside).
pub open spec fn decryption_after_template(
    base: DecryptionSettings,
    t: Option<StoredTemplate>,
) -> DecryptionSettings {
    match t {
        Some(t) => match t.decryption {
            Some(o) => with_template_decryption(base, o),
            None => base,
        },
        None => base,
    }
}

/// N_m3u8DL-RE settings after the task stage.
pub open spec fn m3u8dl_after_task(
    base: M3U8DLSettings,
    ov: Option<TaskConfigOverrides>,
    dt: DownloaderType,
) -> M3U8DLSettings {
    match ov {
        Some(o) => if dt == DownloaderType::M3U8DL && o.m3u8dl is Some {
            with_partial_m3u8dl(base, o.m3u8dl->0)
        } else {
            base
        },
        None => base,
    }
}

/// FFmpeg settings after the task stage.
pub open spec fn ffmpeg_after_task(
    base: FFmpegSettings,
    ov: Option<TaskConfigOverrides>,
    dt: DownloaderType,
) -> FFmpegSettings {
    match ov {
        Some(o) => if dt == DownloaderType::FFmpeg && o.ffmpeg is Some {
            with_partial_ffmpeg(base, o.ffmpeg->0)
        } else {
            base
        },
        None => base,
    }
}

/// The resolved header list: the global headers, replaced by the template's
/// when it has any, then the task's headers appended.
pub open spec fn resolved_headers(
    g: GlobalSettings,
    t: Option<StoredTemplate>,
    ov: Option<TaskConfigOverrides>,
) -> Seq<HeaderConfig> {
    let base = match t {
        Some(t) => if t.headers@.len() > 0 {
            headers_from_store(t.headers@)
        } else {
            headers_from_store(g.headers@)
        },
        None => headers_from_store(g.headers@),
    };
    match ov {
        Some(o) => base + o.headers@,
        None => base,
    }
}

/// The resolved key list: the global keys, replaced by the template's when
/// it has any.
pub open spec fn resolved_keys(g: GlobalSettings, t: Option<StoredTemplate>) -> Seq<DecryptionKey> {
    match t {
        Some(t) => if t.keys@.len() > 0 {
            keys_from_store(t.keys@)
        } else {
            keys_from_store(g.keys@)
        },
        None => keys_from_store(g.keys@),
    }
}

/// `r` is the configuration that resolution yields from the global rows `g`,
/// the template `t` that applies (if any), the requested downloader `dt`,
/// the task overrides `ov` and the template id `tid`.
pub open spec fn is_resolution_of(
    r: ResolvedConfig,
    g: GlobalSettings,
    t: Option<StoredTemplate>,
    dt: DownloaderType,
    ov: Option<TaskConfigOverrides>,
    tid: Option<Seq<char>>,
) -> bool {
    &&& r.downloader_type == (match t {
        Some(t) => t.downloader_type,
        None => DownloaderType::M3U8DL,
    })
    &&& match tid {
        Some(i) => r.template_id matches Some(s) && s@ == i,
        None => r.template_id is None,
    }
    &&& r.app == app_from_store(g.app)
    &&& r.m3u8dl == m3u8dl_after_task(
        m3u8dl_after_template(
            m3u8dl_from_store(g.m3u8dl, r.m3u8dl.ad_filter_keywords, r.m3u8dl.mux_imports),
            t,
            dt,
        ),
        ov,
        dt,
    )
    &&& r.m3u8dl.ad_filter_keywords@.len() == 0
    &&& r.m3u8dl.mux_imports@.len() == 0
    &&& r.ffmpeg == ffmpeg_after_task(ffmpeg_after_template(ffmpeg_from_store(g.ffmpeg), t, dt), ov, dt)
    &&& r.network == network_after_template(network_from_store(g.network, r.network.headers), t)
    &&& r.network.headers@ == resolved_headers(g, t, ov)
    &&& r.decryption == decryption_after_template(
        decryption_from_store(
            g.decryption,
            r.decryption.custom_hls.key.value,
            r.decryption.custom_hls.iv.value,
            r.decryption.keys,
        ),
        t,
    )
    &&& r.decryption.custom_hls.key.value@ == text_or_empty(g.decryption.custom_hls_key_value)
    &&& r.decryption.custom_hls.iv.value@ == text_or_empty(g.decryption.custom_hls_iv_value)
    &&& r.decryption.keys@ == resolved_keys(g, t)
    &&& r.task.save_dir == (match ov {
        Some(o) => or_value(o.save_dir, r.app.default_save_dir),
        None => r.app.default_save_dir,
    })
    &&& r.task.save_name@ == (match ov {
        Some(o) => text_or_empty(o.save_name),
        None => Seq::empty(),
    })
    &&& r.task.save_pattern == (match ov {
        Some(o) => o.save_pattern,
        None => None,
    })
    &&& r.task.custom_range is None
    &&& r.task.start_at is None
}

/// The stages of N_m3u8DL-RE resolution compose: whatever lists the stored
/// row started with are carried through unchanged.
proof fn lemma_m3u8dl_stages(
    g: StoredM3U8DLSettings,
    c0: M3U8DLSettings,
    c1: M3U8DLSettings,
    c2: M3U8DLSettings,
    t: Option<StoredTemplate>,
    dt: DownloaderType,
    ov: Option<TaskConfigOverrides>,
)
    requires
        c0 == m3u8dl_from_store(g, c0.ad_filter_keywords, c0.mux_imports),
        c1 == m3u8dl_after_template(c0, t, dt),
        c2 == m3u8dl_after_task(c1, ov, dt),
    ensures
        c2 == m3u8dl_after_task(
            m3u8dl_after_template(m3u8dl_from_store(g, c2.ad_filter_keywords, c2.mux_imports), t, dt),
            ov,
            dt,
        ),
        c2.ad_filter_keywords == c0.ad_filter_keywords,
        c2.mux_imports == c0.mux_imports,
{
    reveal(m3u8dl_from_store);
    reveal(with_template_m3u8dl);
    reveal(with_partial_m3u8dl);
    assert(c1.ad_filter_keywords == c0.ad_filter_keywords);
    assert(c1.mux_imports == c0.mux_imports);
}

/// Precedence of the thread count: the task's value wins over the
/// template's, which wins over the global setting (for N_m3u8DL-RE tasks).
pub proof fn lemma_thread_count_precedence(
    r: ResolvedConfig,
    g: GlobalSettings,
    t: Option<StoredTemplate>,
    ov: Option<TaskConfigOverrides>,
    tid: Option<Seq<char>>,
)
    requires
        is_resolution_of(r, g, t, DownloaderType::M3U8DL, ov, tid),
    ensures
        r.m3u8dl.thread_count == (if ov matches Some(o) && o.m3u8dl matches Some(p)
            && p.thread_count is Some {
            ov->0.m3u8dl->0.thread_count->0
        } else if t matches Some(tt) && tt.m3u8dl matches Some(p) && p.thread_count is Some {
            t->0.m3u8dl->0.thread_count->0
        } else {
            g.m3u8dl.thread_count
        }),
{
    reveal(m3u8dl_from_store);
    reveal(with_template_m3u8dl);
    reveal(with_partial_m3u8dl);
}

/// A template's network settings win over the global ones: every network
/// field the template sets is the resolved one; without a network row the
/// global network settings stay.
pub proof fn lemma_template_network_overrides_win(
    r: ResolvedConfig,
    g: GlobalSettings,
    tt: StoredTemplate,
    dt: DownloaderType,
    ov: Option<TaskConfigOverrides>,
    tid: Option<Seq<char>>,
)
    requires
        is_resolution_of(r, g, Some(tt), dt, ov, tid),
    ensures
        tt.network is Some && tt.network->0.use_system_proxy is Some ==> r.network.use_system_proxy
            == tt.network->0.use_system_proxy->0,
        tt.network is Some && tt.network->0.custom_proxy is Some ==> r.network.custom_proxy
            == tt.network->0.custom_proxy,
        tt.network is Some && tt.network->0.base_url is Some ==> r.network.base_url
            == tt.network->0.base_url,
        tt.network is Some && tt.network->0.append_url_params is Some ==> r.network.append_url_params
            == tt.network->0.append_url_params->0,
        tt.network is None ==> r.network.use_system_proxy == g.network.use_system_proxy
            && r.network.custom_proxy == g.network.custom_proxy && r.network.base_url
            == g.network.base_url && r.network.append_url_params == g.network.append_url_params,
{
}

/// A template's N_m3u8DL-RE settings win over the global ones: for an
/// N_m3u8DL-RE task without N_m3u8DL-RE overrides of its own, every field the
/// template sets is the resolved one.
pub proof fn lemma_template_m3u8dl_overrides_win(
    r: ResolvedConfig,
    g: GlobalSettings,
    tt: StoredTemplate,
    p: TemplateM3U8DL,
    ov: Option<TaskConfigOverrides>,
    tid: Option<Seq<char>>,
)
    requires
        is_resolution_of(r, g, Some(tt), DownloaderType::M3U8DL, ov, tid),
        tt.m3u8dl == Some(p),
        ov is None || ov->0.m3u8dl is None,
    ensures
        p.thread_count is Some ==> r.m3u8dl.thread_count == p.thread_count->0,
        p.retry_count is Some ==> r.m3u8dl.retry_count == p.retry_count->0,
        p.timeout is Some ==> r.m3u8dl.timeout == p.timeout->0,
        p.max_speed is Some ==> r.m3u8dl.max_speed == p.max_speed->0,
        p.auto_select is Some ==> r.m3u8dl.auto_select == p.auto_select->0,
        p.select_video is Some ==> r.m3u8dl.select_video == p.select_video,
        p.select_audio is Some ==> r.m3u8dl.select_audio == p.select_audio,
        p.select_subtitle is Some ==> r.m3u8dl.select_subtitle == p.select_subtitle,
{
    reveal(with_template_m3u8dl);
}

/// A template's FFmpeg settings win over the global ones: for an FFmpeg task
/// without FFmpeg overrides of its own, every field the template sets is the
/// resolved one.
pub proof fn lemma_template_ffmpeg_overrides_win(
    r: ResolvedConfig,
    g: GlobalSettings,
    tt: StoredTemplate,
    p: TemplateFFmpeg,
    ov: Option<TaskConfigOverrides>,
    tid: Option<Seq<char>>,
)
    requires
        is_resolution_of(r, g, Some(tt), DownloaderType::FFmpeg, ov, tid),
        tt.ffmpeg == Some(p),
        ov is None || ov->0.ffmpeg is None,
    ensures
        p.ffmpeg_path is Some ==> r.ffmpeg.ffmpeg_path == p.ffmpeg_path->0,
        p.ffprobe_path is Some ==> r.ffmpeg.ffprobe_path == p.ffprobe_path->0,
        p.retry_count is Some ==> r.ffmpeg.retry_count == p.retry_count->0,
        p.timeout is Some ==> r.ffmpeg.timeout == p.timeout->0,
{
}

/// A template's decryption settings win over the global ones: every field
/// the template sets is the resolved one (an engine by the name it gives).
pub proof fn lemma_template_decryption_overrides_win(
    r: ResolvedConfig,
    g: GlobalSettings,
    tt: StoredTemplate,
    p: TemplateDecryption,
    dt: DownloaderType,
    ov: Option<TaskConfigOverrides>,
    tid: Option<Seq<char>>,
)
    requires
        is_resolution_of(r, g, Some(tt), dt, ov, tid),
        tt.decryption == Some(p),
    ensures
        p.key_text_file is Some ==> r.decryption.key_text_file == p.key_text_file,
        p.decryption_bin_path is Some ==> r.decryption.decryption_bin_path == p.decryption_bin_path,
        p.real_time_decryption is Some ==> r.decryption.real_time_decryption
            == p.real_time_decryption->0,
        p.decryption_engine is Some && decryption_engine_from(p.decryption_engine->0@) is Some
            ==> r.decryption.decryption_engine == decryption_engine_from(
            p.decryption_engine->0@,
        )->0,
{
}

/// The task's settings win: every N_m3u8DL-RE field that a task of that
/// downloader sets is the resolved one, whatever the template and the global
/// settings say.
pub proof fn lemma_task_m3u8dl_overrides_win(
    r: ResolvedConfig,
    g: GlobalSettings,
    t: Option<StoredTemplate>,
    o: TaskConfigOverrides,
    p: PartialM3U8DLSettings,
    tid: Option<Seq<char>>,
)
    requires
        is_resolution_of(r, g, t, DownloaderType::M3U8DL, Some(o), tid),
        o.m3u8dl == Some(p),
    ensures
        p.thread_count is Some ==> r.m3u8dl.thread_count == p.thread_count->0,
        p.retry_count is Some ==> r.m3u8dl.retry_count == p.retry_count->0,
        p.timeout is Some ==> r.m3u8dl.timeout == p.timeout->0,
        p.max_speed is Some ==> r.m3u8dl.max_speed == p.max_speed->0,
        p.auto_select is Some ==> r.m3u8dl.auto_select == p.auto_select->0,
        p.select_video is Some ==> r.m3u8dl.select_video == p.select_video,
        p.select_audio is Some ==> r.m3u8dl.select_audio == p.select_audio,
        p.select_subtitle is Some ==> r.m3u8dl.select_subtitle == p.select_subtitle,
        p.drop_video is Some ==> r.m3u8dl.drop_video == p.drop_video,
        p.drop_audio is Some ==> r.m3u8dl.drop_audio == p.drop_audio,
        p.drop_subtitle is Some ==> r.m3u8dl.drop_subtitle == p.drop_subtitle,
        p.check_segments_count is Some ==> r.m3u8dl.check_segments_count == p.check_segments_count->0,
        p.del_after_done is Some ==> r.m3u8dl.del_after_done == p.del_after_done->0,
        p.skip_merge is Some ==> r.m3u8dl.skip_merge == p.skip_merge->0,
        p.write_meta_json is Some ==> r.m3u8dl.write_meta_json == p.write_meta_json->0,
        p.binary_merge is Some ==> r.m3u8dl.binary_merge == p.binary_merge->0,
        p.concurrent_download is Some ==> r.m3u8dl.concurrent_download == p.concurrent_download->0,
        p.mux_format is Some ==> r.m3u8dl.mux_format == p.mux_format->0,
        p.muxer is Some ==> r.m3u8dl.muxer == p.muxer->0,
        p.mux_bin_path is Some ==> r.m3u8dl.mux_bin_path == p.mux_bin_path,
        p.mux_skip_subtitles is Some ==> r.m3u8dl.mux_skip_subtitles == p.mux_skip_subtitles->0,
        p.mux_keep_original is Some ==> r.m3u8dl.mux_keep_original == p.mux_keep_original->0,
        p.sub_only is Some ==> r.m3u8dl.sub_only == p.sub_only->0,
        p.sub_format is Some ==> r.m3u8dl.sub_format == p.sub_format->0,
        p.auto_subtitle_fix is Some ==> r.m3u8dl.auto_subtitle_fix == p.auto_subtitle_fix->0,
        p.live_perform_as_vod is Some ==> r.m3u8dl.live_perform_as_vod == p.live_perform_as_vod->0,
        p.live_real_time_merge is Some ==> r.m3u8dl.live_real_time_merge == p.live_real_time_merge->0,
        p.live_keep_segments is Some ==> r.m3u8dl.live_keep_segments == p.live_keep_segments->0,
        p.live_pipe_mux is Some ==> r.m3u8dl.live_pipe_mux == p.live_pipe_mux->0,
        p.live_fix_vtt_by_audio is Some ==> r.m3u8dl.live_fix_vtt_by_audio == p.live_fix_vtt_by_audio->0,
        p.live_record_limit is Some ==> r.m3u8dl.live_record_limit == p.live_record_limit,
        p.live_wait_time is Some ==> r.m3u8dl.live_wait_time == p.live_wait_time->0,
        p.live_take_count is Some ==> r.m3u8dl.live_take_count == p.live_take_count->0,
        p.allow_hls_multi_ext_map is Some ==> r.m3u8dl.allow_hls_multi_ext_map == p.allow_hls_multi_ext_map->0,
        p.url_processor_args is Some ==> r.m3u8dl.url_processor_args == p.url_processor_args,
        p.no_date_info is Some ==> r.m3u8dl.no_date_info == p.no_date_info->0,
        p.use_ffmpeg_concat_demuxer is Some ==> r.m3u8dl.use_ffmpeg_concat_demuxer == p.use_ffmpeg_concat_demuxer->0,
{
    reveal(with_partial_m3u8dl);
}

/// The task's settings win: every FFmpeg field that a task of that
/// downloader sets is the resolved one, whatever the template and the global
/// settings say.
pub proof fn lemma_task_ffmpeg_overrides_win(
    r: ResolvedConfig,
    g: GlobalSettings,
    t: Option<StoredTemplate>,
    o: TaskConfigOverrides,
    p: PartialFFmpegSettings,
    tid: Option<Seq<char>>,
)
    requires
        is_resolution_of(r, g, t, DownloaderType::FFmpeg, Some(o), tid),
        o.ffmpeg == Some(p),
    ensures
        p.ffmpeg_path is Some ==> r.ffmpeg.ffmpeg_path == p.ffmpeg_path->0,
        p.ffprobe_path is Some ==> r.ffmpeg.ffprobe_path == p.ffprobe_path->0,
        p.retry_count is Some ==> r.ffmpeg.retry_count == p.retry_count->0,
        p.timeout is Some ==> r.ffmpeg.timeout == p.timeout->0,
        p.max_speed is Some ==> r.ffmpeg.max_speed == p.max_speed->0,
        p.connection_timeout is Some ==> r.ffmpeg.connection_timeout == p.connection_timeout->0,
        p.reconnect_attempts is Some ==> r.ffmpeg.reconnect_attempts == p.reconnect_attempts->0,
        p.reconnect_delay is Some ==> r.ffmpeg.reconnect_delay == p.reconnect_delay->0,
        p.overwrite_existing is Some ==> r.ffmpeg.overwrite_existing == p.overwrite_existing->0,
        p.preserve_timestamps is Some ==> r.ffmpeg.preserve_timestamps == p.preserve_timestamps->0,
        p.user_agent is Some ==> r.ffmpeg.user_agent == p.user_agent,
        p.referer is Some ==> r.ffmpeg.referer == p.referer,
{
}

/// The task's own headers always come last, after the global or template
/// headers, in their original order.
pub proof fn lemma_task_headers_appended(
    r: ResolvedConfig,
    g: GlobalSettings,
    t: Option<StoredTemplate>,
    dt: DownloaderType,
    o: TaskConfigOverrides,
    tid: Option<Seq<char>>,
)
    requires
        is_resolution_of(r, g, t, dt, Some(o), tid),
    ensures
        r.network.headers@.len() >= o.headers@.len(),
        r.network.headers@.subrange(
            r.network.headers@.len() - o.headers@.len(),
            r.network.headers@.len() as int,
        ) == o.headers@,
{
    let h = r.network.headers@;
    assert(h.subrange(h.len() - o.headers@.len(), h.len() as int) =~= o.headers@);
}

/// A template's non-empty header list replaces the global headers.
pub proof fn lemma_template_headers_replace_global(
    r: ResolvedConfig,
    g: GlobalSettings,
    tt: StoredTemplate,
    dt: DownloaderType,
    tid: Option<Seq<char>>,
)
    requires
        is_resolution_of(r, g, Some(tt), dt, None, tid),
        tt.headers@.len() > 0,
    ensures
        r.network.headers@ == headers_from_store(tt.headers@),
{
}

// ---------------------------------------------------------------------
// Copies
// ---------------------------------------------------------------------

fn copy_opt_string(o: &Option<String>) -> (r: Option<String>)
    ensures
        r == *o,
{
    match o {
        Some(s) => Some(s.clone()),
        None => None,
    }
}

fn copy_headers(hs: &Vec<StoredHeader>) -> (r: Vec<HeaderConfig>)
    ensures
        r@ == headers_from_store(hs@),
{
    let mut r: Vec<HeaderConfig> = Vec::new();
    let mut i: usize = 0;
    while i < hs.len()
        invariant
            i <= hs.len(),
            r@ =~= headers_from_store(hs@.take(i as int)),
        decreases hs.len() - i,
    {
        let h = &hs[i];
        r.push(
            HeaderConfig {
                name: h.name.clone(),
                value: h.value.clone(),
                enabled: h.enabled,
                sort_order: h.sort_order,
            },
        );
        proof {
            assert(hs@.take(i + 1) =~= hs@.take(i as int).push(hs@[i as int]));
        }
        i = i + 1;
    }
    assert(hs@.take(hs.len() as int) =~= hs@);
    r
}

fn copy_keys(ks: &Vec<StoredKey>) -> (r: Vec<DecryptionKey>)
    ensures
        r@ == keys_from_store(ks@),
{
    let mut r: Vec<DecryptionKey> = Vec::new();
    let mut i: usize = 0;
    while i < ks.len()
        invariant
            i <= ks.len(),
            r@ =~= keys_from_store(ks@.take(i as int)),
        decreases ks.len() - i,
    {
        let k = &ks[i];
        r.push(
            DecryptionKey { kid: copy_opt_string(&k.kid), key: k.key.clone(), sort_order: k.sort_order },
        );
        proof {
            assert(ks@.take(i + 1) =~= ks@.take(i as int).push(ks@[i as int]));
        }
        i = i + 1;
    }
    assert(ks@.take(ks.len() as int) =~= ks@);
    r
}

fn append_headers(target: &mut Vec<HeaderConfig>, extra: &Vec<HeaderConfig>)
    ensures
        final(target)@ == old(target)@ + extra@,
{
    let ghost start = target@;
    let mut i: usize = 0;
    while i < extra.len()
        invariant
            i <= extra@.len(),
            target@ =~= start + extra@.take(i as int),
        decreases extra@.len() - i,
    {
        let h = extra[i].duplicate();
        target.push(h);
        proof {
            assert(extra@.take(i + 1) =~= extra@.take(i as int).push(extra@[i as int]));
        }
        i = i + 1;
    }
    assert(extra@.take(extra@.len() as int) =~= extra@);
}

/// The task-specific values: save directory and name from the overrides
/// (the directory falling back to the default one), no range, no start time.
fn task_specific_config(
    overrides: Option<&TaskConfigOverrides>,
    default_save_dir: &String,
) -> (r: TaskSpecificConfig)
    ensures
        r.save_dir == (match overrides {
            Some(o) => or_value(o.save_dir, *default_save_dir),
            None => *default_save_dir,
        }),
        r.save_name@ == (match overrides {
            Some(o) => text_or_empty(o.save_name),
            None => Seq::empty(),
        }),
        r.save_pattern == (match overrides {
            Some(o) => o.save_pattern,
            None => None,
        }),
        r.custom_range is None,
        r.start_at is None,
{
    let save_dir = match overrides {
        Some(o) => match &o.save_dir {
            Some(d) => d.clone(),
            None => default_save_dir.clone(),
        },
        None => default_save_dir.clone(),
    };
    let save_name = match overrides {
        Some(o) => match &o.save_name {
            Some(n) => n.clone(),
            None => String::new(),
        },
        None => String::new(),
    };
    let save_pattern = match overrides {
        Some(o) => copy_opt_string(&o.save_pattern),
        None => None,
    };
    TaskSpecificConfig { save_dir, save_name, save_pattern, custom_range: None, start_at: None }
}

// ---------------------------------------------------------------------
// The resolver
// ---------------------------------------------------------------------

/// Merges the configuration inheritance chain: task > template > global > defaults.
pub struct ConfigResolver {
    global: GlobalSettings,
    templates: Vec<StoredTemplate>,
}

impl ConfigResolver {
    /// The global rows the resolver starts from.
    pub closed spec fn global_rows(&self) -> GlobalSettings {
        self.global
    }

    /// The stored templates, in lookup order.
    pub closed spec fn template_rows(&self) -> Seq<StoredTemplate> {
        self.templates@
    }

    /// A resolver over the given global rows and templates.
    pub fn new(global: GlobalSettings, templates: Vec<StoredTemplate>) -> (r: Self)
        ensures
            r.global_rows() == global,
            r.template_rows() == templates@,
    {
        ConfigResolver { global, templates }
    }

    /// Resolves the configuration of a task.
    ///
    /// Order: task overrides > template overrides > global settings. Fails
    /// only when a template id is given and no template has it.
    #[verifier::rlimit(100)]
    pub fn resolve_task_config(
        &self,
        task_id: &str,
        downloader_type: DownloaderType,
        template_id: Option<&str>,
        task_overrides: Option<&TaskConfigOverrides>,
    ) -> (r: Result<ResolvedConfig, String>)
        ensures
            ({
                let tid = match template_id {
                    Some(s) => Some(s@),
                    None => None,
                };
                let t = template_for(self.template_rows(), tid);
                let ov = match task_overrides {
                    Some(o) => Some(*o),
                    None => None,
                };
                &&& r is Err <==> (tid is Some && t is None)
                &&& r matches Err(e) ==> e@ == "Template not found: "@ + tid->0
                &&& r matches Ok(c) ==> is_resolution_of(c, self.global_rows(), t, downloader_type, ov, tid)
            }),
    {
        let global_config = self.load_global_config();
        let ghost c0 = global_config.m3u8dl;
        let config_with_template = match template_id {
            Some(tid) => self.apply_template_overrides(global_config, tid, downloader_type)?,
            None => global_config,
        };
        let ghost c1 = config_with_template.m3u8dl;
        let resolved = match task_overrides {
            Some(o) => self.apply_task_overrides(config_with_template, o, downloader_type),
            None => config_with_template,
        };
        proof {
            let tid_v = match template_id {
                Some(s) => Some(s@),
                None => None,
            };
            let ov = match task_overrides {
                Some(o) => Some(*o),
                None => None,
            };
            lemma_m3u8dl_stages(
                self.global.m3u8dl,
                c0,
                c1,
                resolved.m3u8dl,
                template_for(self.templates@, tid_v),
                downloader_type,
                ov,
            );
        }
        let task = task_specific_config(task_overrides, &resolved.app.default_save_dir);
        let ResolvedConfig { downloader_type: dt, template_id: tid, app, m3u8dl, ffmpeg, network, decryption, .. } =
            resolved;
        Ok(ResolvedConfig { downloader_type: dt, template_id: tid, app, m3u8dl, ffmpeg, network, decryption, task })
    }

    /// The configuration given by the global rows alone.
    fn load_global_config(&self) -> (r: ResolvedConfig)
        ensures
            r.downloader_type == DownloaderType::M3U8DL,
            r.template_id is None,
            r.app == app_from_store(self.global.app),
            r.m3u8dl == m3u8dl_from_store(
                self.global.m3u8dl,
                r.m3u8dl.ad_filter_keywords,
                r.m3u8dl.mux_imports,
            ),
            r.m3u8dl.ad_filter_keywords@.len() == 0,
            r.m3u8dl.mux_imports@.len() == 0,
            r.ffmpeg == ffmpeg_from_store(self.global.ffmpeg),
            r.network == network_from_store(self.global.network, r.network.headers),
            r.network.headers@ == headers_from_store(self.global.headers@),
            r.decryption == decryption_from_store(
                self.global.decryption,
                r.decryption.custom_hls.key.value,
                r.decryption.custom_hls.iv.value,
                r.decryption.keys,
            ),
            r.decryption.custom_hls.key.value@ == text_or_empty(
                self.global.decryption.custom_hls_key_value,
            ),
            r.decryption.custom_hls.iv.value@ == text_or_empty(
                self.global.decryption.custom_hls_iv_value,
            ),
            r.decryption.keys@ == keys_from_store(self.global.keys@),
    {
        ResolvedConfig {
            downloader_type: DownloaderType::default(),
            template_id: None,
            app: self.convert_app_settings(&self.global.app),
            m3u8dl: self.convert_m3u8dl_settings(&self.global.m3u8dl),
            ffmpeg: self.convert_ffmpeg_settings(&self.global.ffmpeg),
            network: self.convert_network_settings(&self.global.network),
            decryption: self.convert_decryption_settings(&self.global.decryption),
            task: TaskSpecificConfig::default(),
        }
    }

    /// The index of the first template with id `id`.
    fn find_template_index(&self, id: &str) -> (r: Option<usize>)
        ensures
            match r {
                Some(i) => i < self.templates@.len() && find_template(self.templates@, id@)
                    == Some(self.templates@[i as int]),
                None => find_template(self.templates@, id@) is None,
            },
    {
        let mut i: usize = 0;
        assert(self.templates@.skip(0) =~= self.templates@);
        while i < self.templates.len()
            invariant
                i <= self.templates@.len(),
                find_template(self.templates@, id@) == find_template(
                    self.templates@.skip(i as int),
                    id@,
                ),
            decreases self.templates@.len() - i,
        {
            let ghost rest = self.templates@.skip(i as int);
            assert(rest[0] == self.templates@[i as int]);
            assert(rest.drop_first() =~= self.templates@.skip(i + 1));
            if str_eq(self.templates[i].id.as_str(), id) {
                return Some(i);
            }
            i = i + 1;
        }
        None
    }

    /// Applies the overrides of template `template_id` to `base`.
    #[verifier::rlimit(100)]
    fn apply_template_overrides(
        &self,
        base: ResolvedConfig,
        template_id: &str,
        downloader_type: DownloaderType,
    ) -> (r: Result<ResolvedConfig, String>)
        ensures
            r is Err <==> find_template(self.templates@, template_id@) is None,
            r matches Err(e) ==> e@ == "Template not found: "@ + template_id@,
            r matches Ok(c) ==> ({
                let t = find_template(self.templates@, template_id@);
                &&& c.downloader_type == t->0.downloader_type
                &&& c.template_id matches Some(s) && s@ == template_id@
                &&& c.app == base.app
                &&& c.m3u8dl == m3u8dl_after_template(base.m3u8dl, t, downloader_type)
                &&& c.ffmpeg == ffmpeg_after_template(base.ffmpeg, t, downloader_type)
                &&& c.network == (NetworkSettings {
                    headers: c.network.headers,
                    ..network_after_template(base.network, t)
                })
                &&& c.network.headers@ == (if t->0.headers@.len() > 0 {
                    headers_from_store(t->0.headers@)
                } else {
                    base.network.headers@
                })
                &&& c.decryption == (DecryptionSettings {
                    keys: c.decryption.keys,
                    ..decryption_after_template(base.decryption, t)
                })
                &&& c.decryption.keys@ == (if t->0.keys@.len() > 0 {
                    keys_from_store(t->0.keys@)
                } else {
                    base.decryption.keys@
                })
                &&& c.task == base.task
            }),
    {
        let idx = match self.find_template_index(template_id) {
            Some(i) => i,
            None => {
                return Err(String::from_str("Template not found: ").concat(template_id));
            },
        };
        let template = &self.templates[idx];
        let ResolvedConfig { app, m3u8dl, ffmpeg, network, decryption, task, .. } = base;
        let m3u8dl = match (downloader_type, &template.m3u8dl) {
            (DownloaderType::M3U8DL, Some(o)) => self.merge_m3u8dl_overrides(m3u8dl, o),
            _ => m3u8dl,
        };
        let ffmpeg = match (downloader_type, &template.ffmpeg) {
            (DownloaderType::FFmpeg, Some(o)) => self.merge_ffmpeg_overrides(ffmpeg, o),
            _ => ffmpeg,
        };
        let mut network = match &template.network {
            Some(o) => self.merge_network_overrides(network, o),
            None => network,
        };
        let mut decryption = match &template.decryption {
            Some(o) => self.merge_decryption_overrides(decryption, o),
            None => decryption,
        };
        if template.headers.len() > 0 {
            network.headers = copy_headers(&template.headers);
        }
        if template.keys.len() > 0 {
            decryption.keys = copy_keys(&template.keys);
        }
        Ok(
            ResolvedConfig {
                downloader_type: template.downloader_type,
                template_id: Some(String::from_str(template_id)),
                app,
                m3u8dl,
                ffmpeg,
                network,
                decryption,
                task,
            },
        )
    }

    /// Applies task overrides to `base`: the downloader's partial settings,
    /// and the task's headers appended to the current ones.
    fn apply_task_overrides(
        &self,
        base: ResolvedConfig,
        overrides: &TaskConfigOverrides,
        downloader_type: DownloaderType,
    ) -> (r: ResolvedConfig)
        ensures
            r.downloader_type == base.downloader_type,
            r.template_id == base.template_id,
            r.app == base.app,
            r.m3u8dl == m3u8dl_after_task(base.m3u8dl, Some(*overrides), downloader_type),
            r.ffmpeg == ffmpeg_after_task(base.ffmpeg, Some(*overrides), downloader_type),
            r.network == (NetworkSettings { headers: r.network.headers, ..base.network }),
            r.network.headers@ == base.network.headers@ + overrides.headers@,
            r.decryption == base.decryption,
            r.task == base.task,
    {
        let ResolvedConfig { downloader_type: dt, template_id, app, m3u8dl, ffmpeg, network, decryption, task } =
            base;
        let m3u8dl = match (downloader_type, &overrides.m3u8dl) {
            (DownloaderType::M3U8DL, Some(o)) => self.merge_partial_m3u8dl(m3u8dl, o),
            _ => m3u8dl,
        };
        let ffmpeg = match (downloader_type, &overrides.ffmpeg) {
            (DownloaderType::FFmpeg, Some(o)) => self.merge_partial_ffmpeg(ffmpeg, o),
            _ => ffmpeg,
        };
        let mut network = network;
        append_headers(&mut network.headers, &overrides.headers);
        ResolvedConfig { downloader_type: dt, template_id, app, m3u8dl, ffmpeg, network, decryption, task }
    }

    fn convert_app_settings(&self, db: &StoredAppSettings) -> (r: AppSettings)
        ensures
            r == app_from_store(*db),
    {
        AppSettings {
            language: match Language::parse(db.language.as_str()) {
                Ok(v) => v,
                Err(_) => Language::default(),
            },
            auto_start_download: db.auto_start_download,
            minimize_to_tray: db.minimize_to_tray,
            check_update: db.check_update,
            default_save_dir: db.default_save_dir.clone(),
            default_tmp_dir: db.default_tmp_dir.clone(),
            theme: match Theme::parse(db.theme.as_str()) {
                Ok(v) => v,
                Err(_) => Theme::default(),
            },
            show_notification: db.show_notification,
            clipboard_watch: db.clipboard_watch,
            log_level: match LogLevel::parse(db.log_level.as_str()) {
                Ok(v) => v,
                Err(_) => LogLevel::default(),
            },
            log_file_path: db.log_file_path.clone(),
            no_log: db.no_log,
        }
    }

    fn convert_m3u8dl_settings(&self, db: &StoredM3U8DLSettings) -> (r: M3U8DLSettings)
        ensures
            r == m3u8dl_from_store(*db, r.ad_filter_keywords, r.mux_imports),
            r.ad_filter_keywords@.len() == 0,
            r.mux_imports@.len() == 0,
    {
        reveal(m3u8dl_from_store);
        M3U8DLSettings {
            n_m3u8dl_path: db.n_m3u8dl_path.clone(),
            thread_count: db.thread_count,
            retry_count: db.retry_count,
            timeout: db.timeout,
            max_speed: db.max_speed.clone(),
            auto_select: db.auto_select,
            select_video: copy_opt_string(&db.select_video),
            select_audio: copy_opt_string(&db.select_audio),
            select_subtitle: copy_opt_string(&db.select_subtitle),
            drop_video: copy_opt_string(&db.drop_video),
            drop_audio: copy_opt_string(&db.drop_audio),
            drop_subtitle: copy_opt_string(&db.drop_subtitle),
            check_segments_count: db.check_segments_count,
            del_after_done: db.del_after_done,
            skip_merge: db.skip_merge,
            write_meta_json: db.write_meta_json,
            binary_merge: db.binary_merge,
            concurrent_download: db.concurrent_download,
            mux_format: match MuxFormat::parse(db.mux_format.as_str()) {
                Ok(v) => v,
                Err(_) => MuxFormat::default(),
            },
            muxer: match Muxer::parse(db.muxer.as_str()) {
                Ok(v) => v,
                Err(_) => Muxer::default(),
            },
            mux_bin_path: copy_opt_string(&db.mux_bin_path),
            mux_skip_subtitles: db.mux_skip_subtitles,
            mux_keep_original: db.mux_keep_original,
            sub_only: db.sub_only,
            sub_format: match SubtitleFormat::parse(db.sub_format.as_str()) {
                Ok(v) => v,
                Err(_) => SubtitleFormat::default(),
            },
            auto_subtitle_fix: db.auto_subtitle_fix,
            live_perform_as_vod: db.live_perform_as_vod,
            live_real_time_merge: db.live_real_time_merge,
            live_keep_segments: db.live_keep_segments,
            live_pipe_mux: db.live_pipe_mux,
            live_fix_vtt_by_audio: db.live_fix_vtt_by_audio,
            live_record_limit: copy_opt_string(&db.live_record_limit),
            live_wait_time: db.live_wait_time,
            live_take_count: db.live_take_count,
            allow_hls_multi_ext_map: db.allow_hls_multi_ext_map,
            url_processor_args: copy_opt_string(&db.url_processor_args),
            no_date_info: db.no_date_info,
            use_ffmpeg_concat_demuxer: db.use_ffmpeg_concat_demuxer,
            ad_filter_keywords: Vec::new(),
            mux_imports: Vec::new(),
        }
    }

    fn convert_ffmpeg_settings(&self, db: &StoredFFmpegSettings) -> (r: FFmpegSettings)
        ensures
            r == ffmpeg_from_store(*db),
    {
        FFmpegSettings {
            ffmpeg_path: db.ffmpeg_path.clone(),
            ffprobe_path: db.ffprobe_path.clone(),
            retry_count: db.retry_count,
            timeout: db.timeout,
            max_speed: db.max_speed.clone(),
            connection_timeout: db.connection_timeout,
            reconnect_attempts: db.reconnect_attempts,
            reconnect_delay: db.reconnect_delay,
            overwrite_existing: db.overwrite_existing,
            preserve_timestamps: db.preserve_timestamps,
            user_agent: copy_opt_string(&db.user_agent),
            referer: copy_opt_string(&db.referer),
        }
    }

    fn convert_network_settings(&self, db: &StoredNetworkSettings) -> (r: NetworkSettings)
        ensures
            r == network_from_store(*db, r.headers),
            r.headers@ == headers_from_store(self.global.headers@),
    {
        NetworkSettings {
            use_system_proxy: db.use_system_proxy,
            custom_proxy: copy_opt_string(&db.custom_proxy),
            base_url: copy_opt_string(&db.base_url),
            append_url_params: db.append_url_params,
            headers: copy_headers(&self.global.headers),
        }
    }

    fn convert_decryption_settings(&self, db: &StoredDecryptionSettings) -> (r: DecryptionSettings)
        ensures
            r == decryption_from_store(
                *db,
                r.custom_hls.key.value,
                r.custom_hls.iv.value,
                r.keys,
            ),
            r.custom_hls.key.value@ == text_or_empty(db.custom_hls_key_value),
            r.custom_hls.iv.value@ == text_or_empty(db.custom_hls_iv_value),
            r.keys@ == keys_from_store(self.global.keys@),
    {
        let key_value = match &db.custom_hls_key_value {
            Some(v) => v.clone(),
            None => String::new(),
        };
        let iv_value = match &db.custom_hls_iv_value {
            Some(v) => v.clone(),
            None => String::new(),
        };
        DecryptionSettings {
            key_text_file: copy_opt_string(&db.key_text_file),
            decryption_engine: match DecryptionEngine::parse(db.decryption_engine.as_str()) {
                Ok(v) => v,
                Err(_) => DecryptionEngine::default(),
            },
            decryption_bin_path: copy_opt_string(&db.decryption_bin_path),
            real_time_decryption: db.real_time_decryption,
            custom_hls: CustomHlsDecryption {
                enabled: db.custom_hls_enabled,
                method: match HlsEncryptionMethod::parse(db.custom_hls_method.as_str()) {
                    Ok(v) => v,
                    Err(_) => HlsEncryptionMethod::default(),
                },
                key: KeyValue {
                    value_type: match KeyValueType::parse(db.custom_hls_key_type.as_str()) {
                        Ok(v) => v,
                        Err(_) => KeyValueType::default(),
                    },
                    value: key_value,
                },
                iv: KeyValue {
                    value_type: match KeyValueType::parse(db.custom_hls_iv_type.as_str()) {
                        Ok(v) => v,
                        Err(_) => KeyValueType::default(),
                    },
                    value: iv_value,
                },
            },
            keys: copy_keys(&self.global.keys),
        }
    }

    fn merge_m3u8dl_overrides(&self, base: M3U8DLSettings, overrides: &TemplateM3U8DL) -> (r:
        M3U8DLSettings)
        ensures
            r == with_template_m3u8dl(base, *overrides),
    {
        reveal(with_template_m3u8dl);
        M3U8DLSettings {
            thread_count: match overrides.thread_count {
                Some(v) => v,
                None => base.thread_count,
            },
            retry_count: match overrides.retry_count {
                Some(v) => v,
                None => base.retry_count,
            },
            timeout: match overrides.timeout {
                Some(v) => v,
                None => base.timeout,
            },
            max_speed: match &overrides.max_speed {
                Some(v) => v.clone(),
                None => base.max_speed,
            },
            auto_select: match overrides.auto_select {
                Some(v) => v,
                None => base.auto_select,
            },
            select_video: match &overrides.select_video {
                Some(v) => Some(v.clone()),
                None => base.select_video,
            },
            select_audio: match &overrides.select_audio {
                Some(v) => Some(v.clone()),
                None => base.select_audio,
            },
            select_subtitle: match &overrides.select_subtitle {
                Some(v) => Some(v.clone()),
                None => base.select_subtitle,
            },
            ..base
        }
    }

    fn merge_ffmpeg_overrides(&self, base: FFmpegSettings, overrides: &TemplateFFmpeg) -> (r:
        FFmpegSettings)
        ensures
            r == with_template_ffmpeg(base, *overrides),
    {
        FFmpegSettings {
            ffmpeg_path: match &overrides.ffmpeg_path {
                Some(v) => v.clone(),
                None => base.ffmpeg_path,
            },
            ffprobe_path: match &overrides.ffprobe_path {
                Some(v) => v.clone(),
                None => base.ffprobe_path,
            },
            retry_count: match overrides.retry_count {
                Some(v) => v,
                None => base.retry_count,
            },
            timeout: match overrides.timeout {
                Some(v) => v,
                None => base.timeout,
            },
            ..base
        }
    }

    fn merge_network_overrides(&self, base: NetworkSettings, overrides: &TemplateNetwork) -> (r:
        NetworkSettings)
        ensures
            r == with_template_network(base, *overrides),
    {
        NetworkSettings {
            use_system_proxy: match overrides.use_system_proxy {
                Some(v) => v,
                None => base.use_system_proxy,
            },
            custom_proxy: match &overrides.custom_proxy {
                Some(v) => Some(v.clone()),
                None => base.custom_proxy,
            },
            base_url: match &overrides.base_url {
                Some(v) => Some(v.clone()),
                None => base.base_url,
            },
            append_url_params: match overrides.append_url_params {
                Some(v) => v,
                None => base.append_url_params,
            },
            ..base
        }
    }

    fn merge_decryption_overrides(
        &self,
        base: DecryptionSettings,
        overrides: &TemplateDecryption,
    ) -> (r: DecryptionSettings)
        ensures
            r == with_template_decryption(base, *overrides),
    {
        DecryptionSettings {
            key_text_file: match &overrides.key_text_file {
                Some(v) => Some(v.clone()),
                None => base.key_text_file,
            },
            decryption_engine: match &overrides.decryption_engine {
                Some(v) => match DecryptionEngine::parse(v.as_str()) {
                    Ok(e) => e,
                    Err(_) => DecryptionEngine::default(),
                },
                None => base.decryption_engine,
            },
            decryption_bin_path: match &overrides.decryption_bin_path {
                Some(v) => Some(v.clone()),
                None => base.decryption_bin_path,
            },
            real_time_decryption: match overrides.real_time_decryption {
                Some(v) => v,
                None => base.real_time_decryption,
            },
            ..base
        }
    }

    fn merge_partial_m3u8dl(&self, base: M3U8DLSettings, overrides: &PartialM3U8DLSettings) -> (r:
        M3U8DLSettings)
        ensures
            r == with_partial_m3u8dl(base, *overrides),
    {
        reveal(with_partial_m3u8dl);
        let core = Self::partial_m3u8dl_core(base, overrides);
        let mux = Self::partial_m3u8dl_mux(core, overrides);
        Self::partial_m3u8dl_live(mux, overrides)
    }

    fn partial_m3u8dl_core(base: M3U8DLSettings, overrides: &PartialM3U8DLSettings) -> (r:
        M3U8DLSettings)
        ensures
            r == with_partial_m3u8dl_core(base, *overrides),
    {
        M3U8DLSettings {
            thread_count: match overrides.thread_count {
                Some(v) => v,
                None => base.thread_count,
            },
            retry_count: match overrides.retry_count {
                Some(v) => v,
                None => base.retry_count,
            },
            timeout: match overrides.timeout {
                Some(v) => v,
                None => base.timeout,
            },
            max_speed: match &overrides.max_speed {
                Some(v) => v.clone(),
                None => base.max_speed,
            },
            auto_select: match overrides.auto_select {
                Some(v) => v,
                None => base.auto_select,
            },
            select_video: match &overrides.select_video {
                Some(v) => Some(v.clone()),
                None => base.select_video,
            },
            select_audio: match &overrides.select_audio {
                Some(v) => Some(v.clone()),
                None => base.select_audio,
            },
            select_subtitle: match &overrides.select_subtitle {
                Some(v) => Some(v.clone()),
                None => base.select_subtitle,
            },
            drop_video: match &overrides.drop_video {
                Some(v) => Some(v.clone()),
                None => base.drop_video,
            },
            drop_audio: match &overrides.drop_audio {
                Some(v) => Some(v.clone()),
                None => base.drop_audio,
            },
            drop_subtitle: match &overrides.drop_subtitle {
                Some(v) => Some(v.clone()),
                None => base.drop_subtitle,
            },
            check_segments_count: match overrides.check_segments_count {
                Some(v) => v,
                None => base.check_segments_count,
            },
            del_after_done: match overrides.del_after_done {
                Some(v) => v,
                None => base.del_after_done,
            },
            skip_merge: match overrides.skip_merge {
                Some(v) => v,
                None => base.skip_merge,
            },
            write_meta_json: match overrides.write_meta_json {
                Some(v) => v,
                None => base.write_meta_json,
            },
            binary_merge: match overrides.binary_merge {
                Some(v) => v,
                None => base.binary_merge,
            },
            concurrent_download: match overrides.concurrent_download {
                Some(v) => v,
                None => base.concurrent_download,
            },
            ..base
        }
    }

    fn partial_m3u8dl_mux(base: M3U8DLSettings, overrides: &PartialM3U8DLSettings) -> (r:
        M3U8DLSettings)
        ensures
            r == with_partial_m3u8dl_mux(base, *overrides),
    {
        M3U8DLSettings {
            mux_format: match overrides.mux_format {
                Some(v) => v,
                None => base.mux_format,
            },
            muxer: match overrides.muxer {
                Some(v) => v,
                None => base.muxer,
            },
            mux_bin_path: match &overrides.mux_bin_path {
                Some(v) => Some(v.clone()),
                None => base.mux_bin_path,
            },
            mux_skip_subtitles: match overrides.mux_skip_subtitles {
                Some(v) => v,
                None => base.mux_skip_subtitles,
            },
            mux_keep_original: match overrides.mux_keep_original {
                Some(v) => v,
                None => base.mux_keep_original,
            },
            sub_only: match overrides.sub_only {
                Some(v) => v,
                None => base.sub_only,
            },
            sub_format: match overrides.sub_format {
                Some(v) => v,
                None => base.sub_format,
            },
            auto_subtitle_fix: match overrides.auto_subtitle_fix {
                Some(v) => v,
                None => base.auto_subtitle_fix,
            },
            ..base
        }
    }

    fn partial_m3u8dl_live(base: M3U8DLSettings, overrides: &PartialM3U8DLSettings) -> (r:
        M3U8DLSettings)
        ensures
            r == with_partial_m3u8dl_live(base, *overrides),
    {
        M3U8DLSettings {
            live_perform_as_vod: match overrides.live_perform_as_vod {
                Some(v) => v,
                None => base.live_perform_as_vod,
            },
            live_real_time_merge: match overrides.live_real_time_merge {
                Some(v) => v,
                None => base.live_real_time_merge,
            },
            live_keep_segments: match overrides.live_keep_segments {
                Some(v) => v,
                None => base.live_keep_segments,
            },
            live_pipe_mux: match overrides.live_pipe_mux {
                Some(v) => v,
                None => base.live_pipe_mux,
            },
            live_fix_vtt_by_audio: match overrides.live_fix_vtt_by_audio {
                Some(v) => v,
                None => base.live_fix_vtt_by_audio,
            },
            live_record_limit: match &overrides.live_record_limit {
                Some(v) => Some(v.clone()),
                None => base.live_record_limit,
            },
            live_wait_time: match overrides.live_wait_time {
                Some(v) => v,
                None => base.live_wait_time,
            },
            live_take_count: match overrides.live_take_count {
                Some(v) => v,
                None => base.live_take_count,
            },
            allow_hls_multi_ext_map: match overrides.allow_hls_multi_ext_map {
                Some(v) => v,
                None => base.allow_hls_multi_ext_map,
            },
            url_processor_args: match &overrides.url_processor_args {
                Some(v) => Some(v.clone()),
                None => base.url_processor_args,
            },
            no_date_info: match overrides.no_date_info {
                Some(v) => v,
                None => base.no_date_info,
            },
            use_ffmpeg_concat_demuxer: match overrides.use_ffmpeg_concat_demuxer {
                Some(v) => v,
                None => base.use_ffmpeg_concat_demuxer,
            },
            ..base
        }
    }

    fn merge_partial_ffmpeg(&self, base: FFmpegSettings, overrides: &PartialFFmpegSettings) -> (r:
        FFmpegSettings)
        ensures
            r == with_partial_ffmpeg(base, *overrides),
    {
        FFmpegSettings {
            ffmpeg_path: match &overrides.ffmpeg_path {
                Some(v) => v.clone(),
                None => base.ffmpeg_path,
            },
            ffprobe_path: match &overrides.ffprobe_path {
                Some(v) => v.clone(),
                None => base.ffprobe_path,
            },
            retry_count: match overrides.retry_count {
                Some(v) => v,
                None => base.retry_count,
            },
            timeout: match overrides.timeout {
                Some(v) => v,
                None => base.timeout,
            },
            max_speed: match &overrides.max_speed {
                Some(v) => v.clone(),
                None => base.max_speed,
            },
            connection_timeout: match overrides.connection_timeout {
                Some(v) => v,
                None => base.connection_timeout,
            },
            reconnect_attempts: match overrides.reconnect_attempts {
                Some(v) => v,
                None => base.reconnect_attempts,
            },
            reconnect_delay: match overrides.reconnect_delay {
                Some(v) => v,
                None => base.reconnect_delay,
            },
            overwrite_existing: match overrides.overwrite_existing {
                Some(v) => v,
                None => base.overwrite_existing,
            },
            preserve_timestamps: match overrides.preserve_timestamps {
                Some(v) => v,
                None => base.preserve_timestamps,
            },
            user_agent: match &overrides.user_agent {
                Some(v) => Some(v.clone()),
                None => base.user_agent,
            },
            referer: match &overrides.referer {
                Some(v) => Some(v.clone()),
                None => base.referer,
            },
            ..base
        }
    }
}

} // verus!
