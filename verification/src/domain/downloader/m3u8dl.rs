//! The N_m3u8DL-RE downloader: its command line, built from a resolved
//! configuration.

use vstd::prelude::*;

use crate::text::string_views;

use super::args::{
    flag_if, no_args, pair_if_nonempty, pair_if_set, push_arg, push_flag_if,
    push_pair_if_nonempty, push_pair_if_set, push_string,
};
use crate::domain::config::entity::{
    DecryptionKey, DecryptionSettings, HeaderConfig, M3U8DLSettings, MuxImport, NetworkSettings,
    ResolvedConfig,
};
use crate::domain::config::value_objects::{
    decryption_engine_text, hls_method_text, mux_format_text, muxer_text, subtitle_format_text,
    DecryptionEngine, HlsEncryptionMethod, Muxer, SubtitleFormat,
};
use crate::text::{
    chars_of, contains_chars, contains_seq, decimal_string, int_decimal, lowercase_of,
    str_eq, to_lowercase,
};

verus! {

// ---------------------------------------------------------------------
// The command line, as a model
// ---------------------------------------------------------------------

/// `flag n` when `cond`, with `n` in decimal.
pub open spec fn number_if(cond: bool, flag: Seq<char>, n: int) -> Seq<Seq<char>> {
    if cond {
        seq![flag, int_decimal(n)]
    } else {
        no_args()
    }
}

/// Input and output locations: the URL, then save directory, save name and
/// temporary directory when set.
pub open spec fn base_args_spec(url: Seq<char>, c: ResolvedConfig) -> Seq<Seq<char>> {
    seq![url] + pair_if_nonempty("--save-dir"@, c.task.save_dir@) + pair_if_nonempty(
        "--save-name"@,
        c.task.save_name@,
    ) + pair_if_nonempty("--tmp-dir"@, c.app.default_tmp_dir@)
}

/// Download behaviour; numbers only when they differ from the tool's defaults.
pub open spec fn download_args_spec(m: M3U8DLSettings) -> Seq<Seq<char>> {
    download_limits_spec(m) + stream_selection_spec(m) + download_flags_spec(m)
}

/// Thread count, retries, timeout and speed limit.
pub open spec fn download_limits_spec(m: M3U8DLSettings) -> Seq<Seq<char>> {
    number_if(m.thread_count != 8, "--thread-count"@, m.thread_count as int) + number_if(
        m.retry_count != 3,
        "--download-retry-count"@,
        m.retry_count as int,
    ) + number_if(m.timeout != 100, "--http-request-timeout"@, m.timeout as int) + (if m.max_speed@.len()
        > 0 && m.max_speed@ != "0"@ {
        seq!["-R"@, m.max_speed@]
    } else {
        no_args()
    })
}

/// Automatic selection and the stream selectors.
pub open spec fn stream_selection_spec(m: M3U8DLSettings) -> Seq<Seq<char>> {
    flag_if(m.auto_select, "--auto-select"@) + pair_if_set("-sv"@, m.select_video) + pair_if_set(
        "-sa"@,
        m.select_audio,
    ) + pair_if_set("-ss"@, m.select_subtitle) + pair_if_set("-dv"@, m.drop_video) + pair_if_set(
        "-da"@,
        m.drop_audio,
    ) + pair_if_set("-ds"@, m.drop_subtitle)
}

/// Merging and bookkeeping switches.
pub open spec fn download_flags_spec(m: M3U8DLSettings) -> Seq<Seq<char>> {
    flag_if(m.skip_merge, "--skip-merge"@) + flag_if(!m.del_after_done, "--no-delete-temp"@) + (
    if !m.check_segments_count {
        seq!["--check-segments-count"@, "false"@]
    } else {
        no_args()
    }) + flag_if(m.binary_merge, "--binary-merge"@) + flag_if(m.write_meta_json, "--write-meta-json"@)
        + flag_if(m.concurrent_download, "-mt"@)
}

/// The `-M` option value: `format=..` then the non-default muxer options,
/// joined by `:`.
pub open spec fn mux_option(m: M3U8DLSettings) -> Seq<char> {
    "format="@ + mux_format_text(m.mux_format) + (if m.muxer != Muxer::FFmpeg {
        ":muxer="@ + muxer_text(m.muxer)
    } else {
        Seq::empty()
    }) + (match m.mux_bin_path {
        Some(p) => if p@.len() > 0 {
            ":bin_path=\""@ + p@ + "\""@
        } else {
            Seq::empty()
        },
        None => Seq::empty(),
    }) + (if m.mux_skip_subtitles {
        ":skip_sub=true"@
    } else {
        Seq::empty()
    }) + (if m.mux_keep_original {
        ":keep=true"@
    } else {
        Seq::empty()
    })
}

/// The `--mux-import` value of one imported file.
pub open spec fn import_option(i: MuxImport) -> Seq<char> {
    "path=\""@ + i.path@ + "\""@ + (match i.lang {
        Some(l) => ":lang="@ + l@,
        None => Seq::empty(),
    }) + (match i.name {
        Some(n) => ":name=\""@ + n@ + "\""@,
        None => Seq::empty(),
    })
}

/// `--mux-import` for each imported file, in order.
pub open spec fn imports_args(s: Seq<MuxImport>) -> Seq<Seq<char>>
    decreases s.len(),
{
    if s.len() == 0 {
        no_args()
    } else {
        imports_args(s.drop_last()) + seq!["--mux-import"@, import_option(s.last())]
    }
}

/// Muxing options (none at all when merging is skipped).
pub open spec fn mux_args_spec(m: M3U8DLSettings) -> Seq<Seq<char>> {
    if m.skip_merge {
        no_args()
    } else {
        seq!["-M"@, mux_option(m)] + flag_if(m.no_date_info, "--no-date-info"@) + flag_if(
            m.use_ffmpeg_concat_demuxer,
            "--use-ffmpeg-concat-demuxer"@,
        ) + imports_args(m.mux_imports@)
    }
}

/// Subtitle options.
pub open spec fn subtitle_args_spec(m: M3U8DLSettings) -> Seq<Seq<char>> {
    flag_if(m.sub_only, "--sub-only"@) + (if m.sub_format != SubtitleFormat::SRT {
        seq!["--sub-format"@, subtitle_format_text(m.sub_format)]
    } else {
        no_args()
    }) + flag_if(m.auto_subtitle_fix, "--auto-subtitle-fix"@)
}

/// Live-stream options.
pub open spec fn live_args_spec(m: M3U8DLSettings) -> Seq<Seq<char>> {
    live_flags_spec(m) + live_limits_spec(m)
}

/// Live-stream switches.
pub open spec fn live_flags_spec(m: M3U8DLSettings) -> Seq<Seq<char>> {
    flag_if(m.live_perform_as_vod, "--live-perform-as-vod"@) + flag_if(
        m.live_real_time_merge,
        "--live-real-time-merge"@,
    ) + (if !m.live_keep_segments {
        seq!["--live-keep-segments"@, "false"@]
    } else {
        no_args()
    }) + flag_if(m.live_pipe_mux, "--live-pipe-mux"@) + flag_if(
        m.live_fix_vtt_by_audio,
        "--live-fix-vtt-by-audio"@,
    )
}

/// Live-stream limits.
pub open spec fn live_limits_spec(m: M3U8DLSettings) -> Seq<Seq<char>> {
    pair_if_set("--live-record-limit"@, m.live_record_limit) + number_if(
        m.live_wait_time > 0,
        "--live-wait-time"@,
        m.live_wait_time as int,
    ) + number_if(m.live_take_count != 16, "--live-take-count"@, m.live_take_count as int)
}

/// `-H "name: value"` for each enabled header, in order.
pub open spec fn header_args(s: Seq<HeaderConfig>) -> Seq<Seq<char>>
    decreases s.len(),
{
    if s.len() == 0 {
        no_args()
    } else {
        header_args(s.drop_last()) + (if s.last().enabled {
            seq!["-H"@, s.last().name@ + ": "@ + s.last().value@]
        } else {
            no_args()
        })
    }
}

/// Network options: the system proxy or else a custom one, the headers,
/// the base URL, and appending URL parameters.
pub open spec fn network_args_spec(n: NetworkSettings) -> Seq<Seq<char>> {
    (if n.use_system_proxy {
        seq!["--use-system-proxy"@]
    } else {
        pair_if_set("--custom-proxy"@, n.custom_proxy)
    }) + header_args(n.headers@) + pair_if_set("--base-url"@, n.base_url) + flag_if(
        n.append_url_params,
        "--append-url-params"@,
    )
}

/// The `--key` value of one key: `KID:KEY`, or the bare key.
pub open spec fn key_option(k: DecryptionKey) -> Seq<char> {
    match k.kid {
        Some(kid) => kid@ + ":"@ + k.key@,
        None => k.key@,
    }
}

/// `--key` for each key, in order.
pub open spec fn key_args(s: Seq<DecryptionKey>) -> Seq<Seq<char>>
    decreases s.len(),
{
    if s.len() == 0 {
        no_args()
    } else {
        key_args(s.drop_last()) + seq!["--key"@, key_option(s.last())]
    }
}

/// Decryption options.
pub open spec fn decryption_args_spec(d: DecryptionSettings) -> Seq<Seq<char>> {
    key_args(d.keys@) + decryption_engine_spec(d) + custom_hls_spec(d)
}

/// The key file, the decryption engine and its binary, and real-time decryption.
pub open spec fn decryption_engine_spec(d: DecryptionSettings) -> Seq<Seq<char>> {
    pair_if_set("--key-text-file"@, d.key_text_file) + (if d.decryption_engine
        != DecryptionEngine::MP4Decrypt {
        seq!["--decryption-engine"@, decryption_engine_text(d.decryption_engine)]
    } else {
        no_args()
    }) + pair_if_set("--decryption-binary-path"@, d.decryption_bin_path) + flag_if(
        d.real_time_decryption,
        "--mp4-real-time-decryption"@,
    )
}

/// The custom HLS method, key and IV, when custom HLS decryption is enabled.
pub open spec fn custom_hls_spec(d: DecryptionSettings) -> Seq<Seq<char>> {
    if d.custom_hls.enabled {
        (if d.custom_hls.method != HlsEncryptionMethod::UNKNOWN {
            seq!["--custom-hls-method"@, hls_method_text(d.custom_hls.method)]
        } else {
            no_args()
        }) + pair_if_nonempty("--custom-hls-key"@, d.custom_hls.key.value@) + pair_if_nonempty(
            "--custom-hls-iv"@,
            d.custom_hls.iv.value@,
        )
    } else {
        no_args()
    }
}

/// Advanced and task-specific options.
pub open spec fn advanced_args_spec(c: ResolvedConfig) -> Seq<Seq<char>> {
    flag_if(c.m3u8dl.allow_hls_multi_ext_map, "--allow-hls-multi-ext-map"@) + pair_if_set(
        "--urlprocessor-args"@,
        c.m3u8dl.url_processor_args,
    ) + pair_if_set("--custom-range"@, c.task.custom_range) + pair_if_set(
        "--task-start-at"@,
        c.task.start_at,
    )
}

/// The whole N_m3u8DL-RE command line (without the program itself).
pub open spec fn command_spec(url: Seq<char>, c: ResolvedConfig) -> Seq<Seq<char>> {
    base_args_spec(url, c) + download_args_spec(c.m3u8dl) + mux_args_spec(c.m3u8dl)
        + subtitle_args_spec(c.m3u8dl) + live_args_spec(c.m3u8dl) + network_args_spec(c.network)
        + decryption_args_spec(c.decryption) + advanced_args_spec(c)
}

/// The markers that make a (lowercased) URL look like a stream.
pub open spec fn streaming_markers() -> Seq<Seq<char>> {
    seq![".m3u8"@, ".mpd"@, ".ism"@, "m3u8"@, "mpd"@, "manifest"@, "playlist"@, "master"@]
}

/// The URL, lowercased, holds one of the streaming markers.
pub open spec fn looks_like_stream(url: Seq<char>) -> bool {
    exists|i: int|
        0 <= i < streaming_markers().len() && contains_seq(
            lowercase_of(url),
            #[trigger] streaming_markers()[i],
        )
}

/// The command line always starts with the URL, whatever the configuration.
pub proof fn lemma_command_starts_with_url(url: Seq<char>, c: ResolvedConfig)
    ensures
        command_spec(url, c).len() >= 1,
        command_spec(url, c)[0] == url,
{
    let base = base_args_spec(url, c);
    assert(base[0] == url);
    let rest = download_args_spec(c.m3u8dl) + mux_args_spec(c.m3u8dl) + subtitle_args_spec(c.m3u8dl)
        + live_args_spec(c.m3u8dl) + network_args_spec(c.network) + decryption_args_spec(
        c.decryption,
    ) + advanced_args_spec(c);
    vstd::seq_lib::lemma_concat_associative(base, download_args_spec(c.m3u8dl), mux_args_spec(c.m3u8dl));
    assert(command_spec(url, c) =~= base + rest);
    assert((base + rest)[0] == base[0]);
}


// ---------------------------------------------------------------------
// The downloader
// ---------------------------------------------------------------------

/// The N_m3u8DL-RE downloader.
pub struct M3U8DLDownloader;

fn streaming_marker(i: usize) -> (r: &'static str)
    requires
        i < 8,
    ensures
        r@ == streaming_markers()[i as int],
{
    match i {
        0 => ".m3u8",
        1 => ".mpd",
        2 => ".ism",
        3 => "m3u8",
        4 => "mpd",
        5 => "manifest",
        6 => "playlist",
        _ => "master",
    }
}

/// Appends `flag n` when `cond`.
fn push_number_if(args: &mut Vec<String>, cond: bool, flag: &str, n: i32)
    ensures
        string_views(final(args)@) == string_views(old(args)@) + number_if(cond, flag@, n as int),
{
    if cond {
        push_arg(args, flag);
        push_string(args, decimal_string(n as i128));
    }
    assert(string_views(args@) =~= string_views(old(args)@) + number_if(cond, flag@, n as int));
}

impl M3U8DLDownloader {
    /// A downloader.
    pub fn new() -> (r: Self) {
        M3U8DLDownloader
    }

    /// Whether the URL looks like a stream: its lowercase form holds one of
    /// `.m3u8`, `.mpd`, `.ism`, `m3u8`, `mpd`, `manifest`, `playlist`, `master`.
    pub fn is_streaming_url(url: &str) -> (r: bool)
        ensures
            r == looks_like_stream(url@),
    {
        let lower = to_lowercase(url);
        let l = chars_of(lower.as_str());
        let mut i: usize = 0;
        while i < 8
            invariant
                l@ == lowercase_of(url@),
                i <= 8,
                forall|j: int| 0 <= j < i ==> !contains_seq(l@, #[trigger] streaming_markers()[j]),
            decreases 8 - i,
        {
            let p = chars_of(streaming_marker(i));
            if contains_chars(&l, &p) {
                return true;
            }
            i = i + 1;
        }
        false
    }

    /// Whether this downloader handles the URL.
    pub fn detect(&self, url: &str) -> (r: bool)
        ensures
            r == looks_like_stream(url@),
    {
        Self::is_streaming_url(url)
    }

    /// The whole command line for downloading `url` with configuration `config`.
    pub fn build_cmd(&self, url: &str, config: &ResolvedConfig) -> (r: Vec<String>)
        ensures
            string_views(r@) == command_spec(url@, *config),
    {
        let mut args = self.build_base_args(url, config);
        self.build_download_args(&mut args, config);
        self.build_mux_args(&mut args, config);
        self.build_subtitle_args(&mut args, config);
        self.build_live_args(&mut args, config);
        self.build_network_args(&mut args, config);
        self.build_decryption_args(&mut args, config);
        self.build_advanced_args(&mut args, config);
        args
    }

    fn build_base_args(&self, url: &str, config: &ResolvedConfig) -> (r: Vec<String>)
        ensures
            string_views(r@) == base_args_spec(url@, *config),
    {
        let mut args: Vec<String> = Vec::new();
        assert(string_views(args@) =~= no_args());
        push_arg(&mut args, url);
        push_pair_if_nonempty(&mut args, "--save-dir", &config.task.save_dir);
        push_pair_if_nonempty(&mut args, "--save-name", &config.task.save_name);
        push_pair_if_nonempty(&mut args, "--tmp-dir", &config.app.default_tmp_dir);
        proof {
            assert(no_args().push(url@) =~= seq![url@]);
        }
        args
    }

    fn build_download_args(&self, args: &mut Vec<String>, config: &ResolvedConfig)
        ensures
            string_views(final(args)@) == string_views(old(args)@) + download_args_spec(config.m3u8dl),
    {
        let ghost start = string_views(args@);
        Self::push_download_limits(args, &config.m3u8dl);
        Self::push_stream_selection(args, &config.m3u8dl);
        Self::push_download_flags(args, &config.m3u8dl);
        proof {
            let m = config.m3u8dl;
            vstd::seq_lib::lemma_concat_associative(start, download_limits_spec(m), stream_selection_spec(m));
            vstd::seq_lib::lemma_concat_associative(
                start,
                download_limits_spec(m) + stream_selection_spec(m),
                download_flags_spec(m),
            );
        }
    }

    fn push_download_limits(args: &mut Vec<String>, m: &M3U8DLSettings)
        ensures
            string_views(final(args)@) == string_views(old(args)@) + download_limits_spec(*m),
    {
        let ghost start = string_views(args@);
        push_number_if(args, m.thread_count != 8, "--thread-count", m.thread_count);
        push_number_if(args, m.retry_count != 3, "--download-retry-count", m.retry_count);
        push_number_if(args, m.timeout != 100, "--http-request-timeout", m.timeout);
        let ghost before_speed = string_views(args@);
        if !m.max_speed.as_str().is_empty() && !str_eq(m.max_speed.as_str(), "0") {
            push_arg(args, "-R");
            push_string(args, m.max_speed.clone());
        }
        assert(string_views(args@) =~= before_speed + (if m.max_speed@.len() > 0 && m.max_speed@
            != "0"@ {
            seq!["-R"@, m.max_speed@]
        } else {
            no_args()
        }));
        assert(string_views(args@) =~= start + download_limits_spec(*m));
    }

    #[verifier::rlimit(30)]
    fn push_stream_selection(args: &mut Vec<String>, m: &M3U8DLSettings)
        ensures
            string_views(final(args)@) == string_views(old(args)@) + stream_selection_spec(*m),
    {
        let ghost start = string_views(args@);
        push_flag_if(args, m.auto_select, "--auto-select");
        push_pair_if_set(args, "-sv", &m.select_video);
        push_pair_if_set(args, "-sa", &m.select_audio);
        push_pair_if_set(args, "-ss", &m.select_subtitle);
        push_pair_if_set(args, "-dv", &m.drop_video);
        push_pair_if_set(args, "-da", &m.drop_audio);
        push_pair_if_set(args, "-ds", &m.drop_subtitle);
        assert(string_views(args@) =~= start + stream_selection_spec(*m));
    }

    #[verifier::rlimit(40)]
    fn push_download_flags(args: &mut Vec<String>, m: &M3U8DLSettings)
        ensures
            string_views(final(args)@) == string_views(old(args)@) + download_flags_spec(*m),
    {
        let ghost start = string_views(args@);
        push_flag_if(args, m.skip_merge, "--skip-merge");
        push_flag_if(args, !m.del_after_done, "--no-delete-temp");
        let ghost before_check = string_views(args@);
        if !m.check_segments_count {
            push_arg(args, "--check-segments-count");
            push_arg(args, "false");
        }
        assert(string_views(args@) =~= before_check + (if !m.check_segments_count {
            seq!["--check-segments-count"@, "false"@]
        } else {
            no_args()
        }));
        push_flag_if(args, m.binary_merge, "--binary-merge");
        push_flag_if(args, m.write_meta_json, "--write-meta-json");
        push_flag_if(args, m.concurrent_download, "-mt");
        assert(string_views(args@) =~= start + download_flags_spec(*m));
    }

    fn build_mux_args(&self, args: &mut Vec<String>, config: &ResolvedConfig)
        ensures
            string_views(final(args)@) == string_views(old(args)@) + mux_args_spec(config.m3u8dl),
    {
        let m = &config.m3u8dl;
        if m.skip_merge {
            assert(string_views(args@) =~= string_views(old(args)@) + mux_args_spec(config.m3u8dl));
            return;
        }
        let ghost start = string_views(args@);
        let mut opt = String::from_str("format=").concat(m.mux_format.as_str());
        if m.muxer != Muxer::FFmpeg {
            opt = opt.concat(":muxer=").concat(m.muxer.as_str());
        }
        if let Some(path) = &m.mux_bin_path {
            if !path.as_str().is_empty() {
                opt = opt.concat(":bin_path=\"").concat(path.as_str()).concat("\"");
            }
        }
        if m.mux_skip_subtitles {
            opt = opt.concat(":skip_sub=true");
        }
        if m.mux_keep_original {
            opt = opt.concat(":keep=true");
        }
        assert(opt@ =~= mux_option(*m));
        push_arg(args, "-M");
        push_string(args, opt);
        push_flag_if(args, m.no_date_info, "--no-date-info");
        push_flag_if(args, m.use_ffmpeg_concat_demuxer, "--use-ffmpeg-concat-demuxer");
        let ghost before_imports = string_views(args@);
        let mut i: usize = 0;
        while i < m.mux_imports.len()
            invariant
                i <= m.mux_imports@.len(),
                string_views(args@) == before_imports + imports_args(m.mux_imports@.take(i as int)),
            decreases m.mux_imports@.len() - i,
        {
            let imp = &m.mux_imports[i];
            let mut o = String::from_str("path=\"").concat(imp.path.as_str()).concat("\"");
            if let Some(lang) = &imp.lang {
                o = o.concat(":lang=").concat(lang.as_str());
            }
            if let Some(name) = &imp.name {
                o = o.concat(":name=\"").concat(name.as_str()).concat("\"");
            }
            assert(o@ =~= import_option(*imp));
            push_arg(args, "--mux-import");
            push_string(args, o);
            proof {
                let t = m.mux_imports@.take(i + 1);
                assert(t.drop_last() =~= m.mux_imports@.take(i as int));
                assert(t.last() == *imp);
            }
            i = i + 1;
        }
        assert(m.mux_imports@.take(m.mux_imports@.len() as int) =~= m.mux_imports@);
        assert(string_views(args@) =~= start + mux_args_spec(config.m3u8dl));
    }

    fn build_subtitle_args(&self, args: &mut Vec<String>, config: &ResolvedConfig)
        ensures
            string_views(final(args)@) == string_views(old(args)@) + subtitle_args_spec(config.m3u8dl),
    {
        let m = &config.m3u8dl;
        let ghost start = string_views(args@);
        push_flag_if(args, m.sub_only, "--sub-only");
        let ghost mid = string_views(args@);
        if m.sub_format != SubtitleFormat::SRT {
            push_arg(args, "--sub-format");
            push_arg(args, m.sub_format.as_str());
        }
        assert(string_views(args@) =~= mid + (if m.sub_format != SubtitleFormat::SRT {
            seq!["--sub-format"@, subtitle_format_text(m.sub_format)]
        } else {
            no_args()
        }));
        push_flag_if(args, m.auto_subtitle_fix, "--auto-subtitle-fix");
        assert(string_views(args@) =~= start + subtitle_args_spec(config.m3u8dl));
    }

    #[verifier::rlimit(40)]
    fn build_live_args(&self, args: &mut Vec<String>, config: &ResolvedConfig)
        ensures
            string_views(final(args)@) == string_views(old(args)@) + live_args_spec(config.m3u8dl),
    {
        let m = &config.m3u8dl;
        let ghost start = string_views(args@);
        push_flag_if(args, m.live_perform_as_vod, "--live-perform-as-vod");
        push_flag_if(args, m.live_real_time_merge, "--live-real-time-merge");
        let ghost mid = string_views(args@);
        if !m.live_keep_segments {
            push_arg(args, "--live-keep-segments");
            push_arg(args, "false");
        }
        assert(string_views(args@) =~= mid + (if !m.live_keep_segments {
            seq!["--live-keep-segments"@, "false"@]
        } else {
            no_args()
        }));
        push_flag_if(args, m.live_pipe_mux, "--live-pipe-mux");
        push_flag_if(args, m.live_fix_vtt_by_audio, "--live-fix-vtt-by-audio");
        assert(string_views(args@) =~= start + live_flags_spec(*m));
        let ghost flags_done = string_views(args@);
        push_pair_if_set(args, "--live-record-limit", &m.live_record_limit);
        push_number_if(args, m.live_wait_time > 0, "--live-wait-time", m.live_wait_time);
        push_number_if(args, m.live_take_count != 16, "--live-take-count", m.live_take_count);
        assert(string_views(args@) =~= flags_done + live_limits_spec(*m));
        proof {
            vstd::seq_lib::lemma_concat_associative(start, live_flags_spec(*m), live_limits_spec(*m));
        }
    }

    fn build_network_args(&self, args: &mut Vec<String>, config: &ResolvedConfig)
        ensures
            string_views(final(args)@) == string_views(old(args)@) + network_args_spec(config.network),
    {
        let n = &config.network;
        let ghost start = string_views(args@);
        if n.use_system_proxy {
            push_arg(args, "--use-system-proxy");
        } else {
            push_pair_if_set(args, "--custom-proxy", &n.custom_proxy);
        }
        let ghost before_headers = string_views(args@);
        let mut i: usize = 0;
        while i < n.headers.len()
            invariant
                i <= n.headers@.len(),
                string_views(args@) == before_headers + header_args(n.headers@.take(i as int)),
            decreases n.headers@.len() - i,
        {
            let h = &n.headers[i];
            let ghost prev = string_views(args@);
            if h.enabled {
                push_arg(args, "-H");
                push_string(args, h.name.clone().concat(": ").concat(h.value.as_str()));
            }
            proof {
                let t = n.headers@.take(i + 1);
                assert(t.drop_last() =~= n.headers@.take(i as int));
                assert(t.last() == *h);
                assert(string_views(args@) =~= prev + (if h.enabled {
                    seq!["-H"@, h.name@ + ": "@ + h.value@]
                } else {
                    no_args()
                }));
            }
            i = i + 1;
        }
        assert(n.headers@.take(n.headers@.len() as int) =~= n.headers@);
        push_pair_if_set(args, "--base-url", &n.base_url);
        push_flag_if(args, n.append_url_params, "--append-url-params");
        assert(string_views(args@) =~= start + network_args_spec(config.network));
    }

    fn build_decryption_args(&self, args: &mut Vec<String>, config: &ResolvedConfig)
        ensures
            string_views(final(args)@) == string_views(old(args)@) + decryption_args_spec(
                config.decryption,
            ),
    {
        let d = &config.decryption;
        let ghost start = string_views(args@);
        let mut i: usize = 0;
        while i < d.keys.len()
            invariant
                i <= d.keys@.len(),
                string_views(args@) == start + key_args(d.keys@.take(i as int)),
            decreases d.keys@.len() - i,
        {
            let k = &d.keys[i];
            let v = match &k.kid {
                Some(kid) => kid.clone().concat(":").concat(k.key.as_str()),
                None => k.key.clone(),
            };
            assert(v@ == key_option(*k));
            push_arg(args, "--key");
            push_string(args, v);
            proof {
                let t = d.keys@.take(i + 1);
                assert(t.drop_last() =~= d.keys@.take(i as int));
                assert(t.last() == *k);
            }
            i = i + 1;
        }
        assert(d.keys@.take(d.keys@.len() as int) =~= d.keys@);
        Self::push_decryption_engine(args, d);
        Self::push_custom_hls(args, d);
        proof {
            vstd::seq_lib::lemma_concat_associative(start, key_args(d.keys@), decryption_engine_spec(*d));
            vstd::seq_lib::lemma_concat_associative(
                start,
                key_args(d.keys@) + decryption_engine_spec(*d),
                custom_hls_spec(*d),
            );
        }
    }

    fn push_decryption_engine(args: &mut Vec<String>, d: &DecryptionSettings)
        ensures
            string_views(final(args)@) == string_views(old(args)@) + decryption_engine_spec(*d),
    {
        let ghost start = string_views(args@);
        push_pair_if_set(args, "--key-text-file", &d.key_text_file);
        let ghost before_engine = string_views(args@);
        if d.decryption_engine != DecryptionEngine::MP4Decrypt {
            push_arg(args, "--decryption-engine");
            push_arg(args, d.decryption_engine.as_str());
        }
        assert(string_views(args@) =~= before_engine + (if d.decryption_engine
            != DecryptionEngine::MP4Decrypt {
            seq!["--decryption-engine"@, decryption_engine_text(d.decryption_engine)]
        } else {
            no_args()
        }));
        push_pair_if_set(args, "--decryption-binary-path", &d.decryption_bin_path);
        push_flag_if(args, d.real_time_decryption, "--mp4-real-time-decryption");
        assert(string_views(args@) =~= start + decryption_engine_spec(*d));
    }

    fn push_custom_hls(args: &mut Vec<String>, d: &DecryptionSettings)
        ensures
            string_views(final(args)@) == string_views(old(args)@) + custom_hls_spec(*d),
    {
        let ghost start = string_views(args@);
        let ch = &d.custom_hls;
        if ch.enabled {
            if ch.method != HlsEncryptionMethod::UNKNOWN {
                push_arg(args, "--custom-hls-method");
                push_arg(args, ch.method.as_str());
            }
            assert(string_views(args@) =~= start + (if ch.method != HlsEncryptionMethod::UNKNOWN {
                seq!["--custom-hls-method"@, hls_method_text(ch.method)]
            } else {
                no_args()
            }));
            push_pair_if_nonempty(args, "--custom-hls-key", &ch.key.value);
            push_pair_if_nonempty(args, "--custom-hls-iv", &ch.iv.value);
        }
        assert(string_views(args@) =~= start + custom_hls_spec(*d));
    }

    fn build_advanced_args(&self, args: &mut Vec<String>, config: &ResolvedConfig)
        ensures
            string_views(final(args)@) == string_views(old(args)@) + advanced_args_spec(*config),
    {
        let ghost start = string_views(args@);
        push_flag_if(args, config.m3u8dl.allow_hls_multi_ext_map, "--allow-hls-multi-ext-map");
        push_pair_if_set(args, "--urlprocessor-args", &config.m3u8dl.url_processor_args);
        push_pair_if_set(args, "--custom-range", &config.task.custom_range);
        push_pair_if_set(args, "--task-start-at", &config.task.start_at);
        assert(string_views(args@) =~= start + advanced_args_spec(*config));
    }
}

impl Default for M3U8DLDownloader {
    fn default() -> (r: Self) {
        M3U8DLDownloader::new()
    }
}

} // verus!
