//! The settings as the front end receives them: the stored rows, field for
//! field.

use vstd::prelude::*;

use super::resolver::{
    StoredAppSettings, StoredDecryptionSettings, StoredFFmpegSettings, StoredHeader, StoredKey,
    StoredM3U8DLSettings, StoredNetworkSettings,
};

verus! {

/// Application settings as the front end receives them.
#[derive(Debug)]
pub struct AppSettingsResponse {
    pub language: String,
    pub auto_start_download: bool,
    pub minimize_to_tray: bool,
    pub check_update: bool,
    pub default_save_dir: String,
    pub default_tmp_dir: String,
    pub theme: String,
    pub show_notification: bool,
    pub clipboard_watch: bool,
    pub log_level: String,
    pub log_file_path: String,
    pub no_log: bool,
}

impl From<StoredAppSettings> for AppSettingsResponse {
    fn from(value: StoredAppSettings) -> (r: AppSettingsResponse) {
        AppSettingsResponse {
            language: value.language,
            auto_start_download: value.auto_start_download,
            minimize_to_tray: value.minimize_to_tray,
            check_update: value.check_update,
            default_save_dir: value.default_save_dir,
            default_tmp_dir: value.default_tmp_dir,
            theme: value.theme,
            show_notification: value.show_notification,
            clipboard_watch: value.clipboard_watch,
            log_level: value.log_level,
            log_file_path: value.log_file_path,
            no_log: value.no_log,
        }
    }
}

impl vstd::std_specs::convert::FromSpecImpl<StoredAppSettings> for AppSettingsResponse {
    open spec fn obeys_from_spec() -> bool {
        true
    }

    open spec fn from_spec(value: StoredAppSettings) -> AppSettingsResponse {
        AppSettingsResponse {
            language: value.language,
            auto_start_download: value.auto_start_download,
            minimize_to_tray: value.minimize_to_tray,
            check_update: value.check_update,
            default_save_dir: value.default_save_dir,
            default_tmp_dir: value.default_tmp_dir,
            theme: value.theme,
            show_notification: value.show_notification,
            clipboard_watch: value.clipboard_watch,
            log_level: value.log_level,
            log_file_path: value.log_file_path,
            no_log: value.no_log,
        }
    }
}

/// N_m3u8DL-RE settings as the front end receives them.
#[derive(Debug)]
pub struct M3U8DLSettingsResponse {
    pub n_m3u8dl_path: String,
    pub thread_count: i32,
    pub retry_count: i32,
    pub timeout: i32,
    pub max_speed: String,
    pub auto_select: bool,
    pub select_video: Option<String>,
    pub select_audio: Option<String>,
    pub select_subtitle: Option<String>,
    pub drop_video: Option<String>,
    pub drop_audio: Option<String>,
    pub drop_subtitle: Option<String>,
    pub check_segments_count: bool,
    pub del_after_done: bool,
    pub skip_merge: bool,
    pub write_meta_json: bool,
    pub binary_merge: bool,
    pub concurrent_download: bool,
    pub mux_format: String,
    pub muxer: String,
    pub mux_bin_path: Option<String>,
    pub mux_skip_subtitles: bool,
    pub mux_keep_original: bool,
    pub sub_only: bool,
    pub sub_format: String,
    pub auto_subtitle_fix: bool,
    pub live_perform_as_vod: bool,
    pub live_real_time_merge: bool,
    pub live_keep_segments: bool,
    pub live_pipe_mux: bool,
    pub live_fix_vtt_by_audio: bool,
    pub live_record_limit: Option<String>,
    pub live_wait_time: i32,
    pub live_take_count: i32,
    pub allow_hls_multi_ext_map: bool,
    pub url_processor_args: Option<String>,
    pub no_date_info: bool,
    pub use_ffmpeg_concat_demuxer: bool,
}

impl From<StoredM3U8DLSettings> for M3U8DLSettingsResponse {
    fn from(value: StoredM3U8DLSettings) -> (r: M3U8DLSettingsResponse) {
        M3U8DLSettingsResponse {
            n_m3u8dl_path: value.n_m3u8dl_path,
            thread_count: value.thread_count,
            retry_count: value.retry_count,
            timeout: value.timeout,
            max_speed: value.max_speed,
            auto_select: value.auto_select,
            select_video: value.select_video,
            select_audio: value.select_audio,
            select_subtitle: value.select_subtitle,
            drop_video: value.drop_video,
            drop_audio: value.drop_audio,
            drop_subtitle: value.drop_subtitle,
            check_segments_count: value.check_segments_count,
            del_after_done: value.del_after_done,
            skip_merge: value.skip_merge,
            write_meta_json: value.write_meta_json,
            binary_merge: value.binary_merge,
            concurrent_download: value.concurrent_download,
            mux_format: value.mux_format,
            muxer: value.muxer,
            mux_bin_path: value.mux_bin_path,
            mux_skip_subtitles: value.mux_skip_subtitles,
            mux_keep_original: value.mux_keep_original,
            sub_only: value.sub_only,
            sub_format: value.sub_format,
            auto_subtitle_fix: value.auto_subtitle_fix,
            live_perform_as_vod: value.live_perform_as_vod,
            live_real_time_merge: value.live_real_time_merge,
            live_keep_segments: value.live_keep_segments,
            live_pipe_mux: value.live_pipe_mux,
            live_fix_vtt_by_audio: value.live_fix_vtt_by_audio,
            live_record_limit: value.live_record_limit,
            live_wait_time: value.live_wait_time,
            live_take_count: value.live_take_count,
            allow_hls_multi_ext_map: value.allow_hls_multi_ext_map,
            url_processor_args: value.url_processor_args,
            no_date_info: value.no_date_info,
            use_ffmpeg_concat_demuxer: value.use_ffmpeg_concat_demuxer,
        }
    }
}

impl vstd::std_specs::convert::FromSpecImpl<StoredM3U8DLSettings> for M3U8DLSettingsResponse {
    open spec fn obeys_from_spec() -> bool {
        true
    }

    open spec fn from_spec(value: StoredM3U8DLSettings) -> M3U8DLSettingsResponse {
        M3U8DLSettingsResponse {
            n_m3u8dl_path: value.n_m3u8dl_path,
            thread_count: value.thread_count,
            retry_count: value.retry_count,
            timeout: value.timeout,
            max_speed: value.max_speed,
            auto_select: value.auto_select,
            select_video: value.select_video,
            select_audio: value.select_audio,
            select_subtitle: value.select_subtitle,
            drop_video: value.drop_video,
            drop_audio: value.drop_audio,
            drop_subtitle: value.drop_subtitle,
            check_segments_count: value.check_segments_count,
            del_after_done: value.del_after_done,
            skip_merge: value.skip_merge,
            write_meta_json: value.write_meta_json,
            binary_merge: value.binary_merge,
            concurrent_download: value.concurrent_download,
            mux_format: value.mux_format,
            muxer: value.muxer,
            mux_bin_path: value.mux_bin_path,
            mux_skip_subtitles: value.mux_skip_subtitles,
            mux_keep_original: value.mux_keep_original,
            sub_only: value.sub_only,
            sub_format: value.sub_format,
            auto_subtitle_fix: value.auto_subtitle_fix,
            live_perform_as_vod: value.live_perform_as_vod,
            live_real_time_merge: value.live_real_time_merge,
            live_keep_segments: value.live_keep_segments,
            live_pipe_mux: value.live_pipe_mux,
            live_fix_vtt_by_audio: value.live_fix_vtt_by_audio,
            live_record_limit: value.live_record_limit,
            live_wait_time: value.live_wait_time,
            live_take_count: value.live_take_count,
            allow_hls_multi_ext_map: value.allow_hls_multi_ext_map,
            url_processor_args: value.url_processor_args,
            no_date_info: value.no_date_info,
            use_ffmpeg_concat_demuxer: value.use_ffmpeg_concat_demuxer,
        }
    }
}

/// FFmpeg settings as the front end receives them.
#[derive(Debug)]
pub struct FFmpegSettingsResponse {
    pub ffmpeg_path: String,
    pub ffprobe_path: String,
    pub retry_count: i32,
    pub timeout: i32,
    pub max_speed: String,
    pub connection_timeout: i32,
    pub reconnect_attempts: i32,
    pub reconnect_delay: i32,
    pub overwrite_existing: bool,
    pub preserve_timestamps: bool,
    pub user_agent: Option<String>,
    pub referer: Option<String>,
}

impl From<StoredFFmpegSettings> for FFmpegSettingsResponse {
    fn from(value: StoredFFmpegSettings) -> (r: FFmpegSettingsResponse) {
        FFmpegSettingsResponse {
            ffmpeg_path: value.ffmpeg_path,
            ffprobe_path: value.ffprobe_path,
            retry_count: value.retry_count,
            timeout: value.timeout,
            max_speed: value.max_speed,
            connection_timeout: value.connection_timeout,
            reconnect_attempts: value.reconnect_attempts,
            reconnect_delay: value.reconnect_delay,
            overwrite_existing: value.overwrite_existing,
            preserve_timestamps: value.preserve_timestamps,
            user_agent: value.user_agent,
            referer: value.referer,
        }
    }
}

impl vstd::std_specs::convert::FromSpecImpl<StoredFFmpegSettings> for FFmpegSettingsResponse {
    open spec fn obeys_from_spec() -> bool {
        true
    }

    open spec fn from_spec(value: StoredFFmpegSettings) -> FFmpegSettingsResponse {
        FFmpegSettingsResponse {
            ffmpeg_path: value.ffmpeg_path,
            ffprobe_path: value.ffprobe_path,
            retry_count: value.retry_count,
            timeout: value.timeout,
            max_speed: value.max_speed,
            connection_timeout: value.connection_timeout,
            reconnect_attempts: value.reconnect_attempts,
            reconnect_delay: value.reconnect_delay,
            overwrite_existing: value.overwrite_existing,
            preserve_timestamps: value.preserve_timestamps,
            user_agent: value.user_agent,
            referer: value.referer,
        }
    }
}

/// Network settings as the front end receives them.
#[derive(Debug)]
pub struct NetworkSettingsResponse {
    pub use_system_proxy: bool,
    pub custom_proxy: Option<String>,
    pub base_url: Option<String>,
    pub append_url_params: bool,
}

impl From<StoredNetworkSettings> for NetworkSettingsResponse {
    fn from(value: StoredNetworkSettings) -> (r: NetworkSettingsResponse) {
        NetworkSettingsResponse {
            use_system_proxy: value.use_system_proxy,
            custom_proxy: value.custom_proxy,
            base_url: value.base_url,
            append_url_params: value.append_url_params,
        }
    }
}

impl vstd::std_specs::convert::FromSpecImpl<StoredNetworkSettings> for NetworkSettingsResponse {
    open spec fn obeys_from_spec() -> bool {
        true
    }

    open spec fn from_spec(value: StoredNetworkSettings) -> NetworkSettingsResponse {
        NetworkSettingsResponse {
            use_system_proxy: value.use_system_proxy,
            custom_proxy: value.custom_proxy,
            base_url: value.base_url,
            append_url_params: value.append_url_params,
        }
    }
}

/// A request header as the front end receives it.
#[derive(Debug)]
pub struct NetworkHeaderResponse {
    pub id: i64,
    pub name: String,
    pub value: String,
    pub enabled: bool,
    pub sort_order: i32,
}

impl From<StoredHeader> for NetworkHeaderResponse {
    fn from(value: StoredHeader) -> (r: NetworkHeaderResponse) {
        NetworkHeaderResponse {
            id: value.id,
            name: value.name,
            value: value.value,
            enabled: value.enabled,
            sort_order: value.sort_order,
        }
    }
}

impl vstd::std_specs::convert::FromSpecImpl<StoredHeader> for NetworkHeaderResponse {
    open spec fn obeys_from_spec() -> bool {
        true
    }

    open spec fn from_spec(value: StoredHeader) -> NetworkHeaderResponse {
        NetworkHeaderResponse {
            id: value.id,
            name: value.name,
            value: value.value,
            enabled: value.enabled,
            sort_order: value.sort_order,
        }
    }
}

/// Decryption settings as the front end receives them.
#[derive(Debug)]
pub struct DecryptionSettingsResponse {
    pub key_text_file: Option<String>,
    pub decryption_engine: String,
    pub decryption_bin_path: Option<String>,
    pub real_time_decryption: bool,
    pub custom_hls_enabled: bool,
    pub custom_hls_method: String,
    pub custom_hls_key_type: String,
    pub custom_hls_key_value: Option<String>,
    pub custom_hls_iv_type: String,
    pub custom_hls_iv_value: Option<String>,
}

impl From<StoredDecryptionSettings> for DecryptionSettingsResponse {
    fn from(value: StoredDecryptionSettings) -> (r: DecryptionSettingsResponse) {
        DecryptionSettingsResponse {
            key_text_file: value.key_text_file,
            decryption_engine: value.decryption_engine,
            decryption_bin_path: value.decryption_bin_path,
            real_time_decryption: value.real_time_decryption,
            custom_hls_enabled: value.custom_hls_enabled,
            custom_hls_method: value.custom_hls_method,
            custom_hls_key_type: value.custom_hls_key_type,
            custom_hls_key_value: value.custom_hls_key_value,
            custom_hls_iv_type: value.custom_hls_iv_type,
            custom_hls_iv_value: value.custom_hls_iv_value,
        }
    }
}

impl vstd::std_specs::convert::FromSpecImpl<StoredDecryptionSettings> for DecryptionSettingsResponse {
    open spec fn obeys_from_spec() -> bool {
        true
    }

    open spec fn from_spec(value: StoredDecryptionSettings) -> DecryptionSettingsResponse {
        DecryptionSettingsResponse {
            key_text_file: value.key_text_file,
            decryption_engine: value.decryption_engine,
            decryption_bin_path: value.decryption_bin_path,
            real_time_decryption: value.real_time_decryption,
            custom_hls_enabled: value.custom_hls_enabled,
            custom_hls_method: value.custom_hls_method,
            custom_hls_key_type: value.custom_hls_key_type,
            custom_hls_key_value: value.custom_hls_key_value,
            custom_hls_iv_type: value.custom_hls_iv_type,
            custom_hls_iv_value: value.custom_hls_iv_value,
        }
    }
}

/// A decryption key as the front end receives it.
#[derive(Debug)]
pub struct DecryptionKeyResponse {
    pub id: i64,
    pub kid: Option<String>,
    pub key: String,
    pub sort_order: i32,
}

impl From<StoredKey> for DecryptionKeyResponse {
    fn from(value: StoredKey) -> (r: DecryptionKeyResponse) {
        DecryptionKeyResponse {
            id: value.id,
            kid: value.kid,
            key: value.key,
            sort_order: value.sort_order,
        }
    }
}

impl vstd::std_specs::convert::FromSpecImpl<StoredKey> for DecryptionKeyResponse {
    open spec fn obeys_from_spec() -> bool {
        true
    }

    open spec fn from_spec(value: StoredKey) -> DecryptionKeyResponse {
        DecryptionKeyResponse {
            id: value.id,
            kid: value.kid,
            key: value.key,
            sort_order: value.sort_order,
        }
    }
}

} // verus!
