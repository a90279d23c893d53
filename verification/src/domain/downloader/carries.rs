//! What the N_m3u8DL-RE command line carries: the settings of a resolved
//! configuration, each after its flag.

use vstd::prelude::*;

use super::args::{flag_if, no_args, pair_if_set};
use super::m3u8dl::{
    advanced_args_spec, base_args_spec, imports_args, mux_option, command_spec, custom_hls_spec, decryption_args_spec,
    decryption_engine_spec, download_args_spec, download_flags_spec, download_limits_spec,
    header_args, key_args, live_args_spec, live_flags_spec, live_limits_spec, mux_args_spec,
    network_args_spec, number_if, stream_selection_spec, subtitle_args_spec,
};
use crate::domain::config::entity::{DecryptionSettings, M3U8DLSettings, NetworkSettings, ResolvedConfig};
use crate::domain::config::value_objects::{
    decryption_engine_text, subtitle_format_text, DecryptionEngine, SubtitleFormat,
};
use crate::text::int_decimal;

verus! {

// ---------------------------------------------------------------------
// What the command line carries
// ---------------------------------------------------------------------

/// `flag` directly followed by `value` somewhere among the arguments.
pub open spec fn has_pair(args: Seq<Seq<char>>, flag: Seq<char>, value: Seq<char>) -> bool {
    exists|i: int| 0 <= i && i + 1 < args.len() && #[trigger] args[i] == flag && args[i + 1] == value
}

/// A pair in either part is a pair of the whole.
pub proof fn lemma_pair_in_concat(
    x: Seq<Seq<char>>,
    y: Seq<Seq<char>>,
    flag: Seq<char>,
    value: Seq<char>,
)
    requires
        has_pair(x, flag, value) || has_pair(y, flag, value),
    ensures
        has_pair(x + y, flag, value),
{
    if has_pair(x, flag, value) {
        let i = choose|i: int| 0 <= i && i + 1 < x.len() && #[trigger] x[i] == flag && x[i + 1] == value;
        assert((x + y)[i] == flag && (x + y)[i + 1] == value);
    } else {
        let i = choose|i: int| 0 <= i && i + 1 < y.len() && #[trigger] y[i] == flag && y[i + 1] == value;
        assert((x + y)[x.len() + i] == flag && (x + y)[x.len() + i + 1] == value);
    }
}

/// The two arguments of a pair.
proof fn lemma_pair_itself(flag: Seq<char>, value: Seq<char>)
    ensures
        has_pair(seq![flag, value], flag, value),
{
    assert(seq![flag, value][0] == flag && seq![flag, value][1] == value);
}

/// The download limits reach the command line: a thread count other than
/// 8, a retry count other than 3 and a request timeout other than 100 (the
/// tool's defaults) are passed after their flags in decimal, and a speed
/// limit (other than "0") after `-R`.
pub proof fn lemma_download_limits_reach_command_line(url: Seq<char>, c: ResolvedConfig)
    ensures
        c.m3u8dl.thread_count != 8 ==> has_pair(
            command_spec(url, c),
            "--thread-count"@,
            int_decimal(c.m3u8dl.thread_count as int),
        ),
        c.m3u8dl.retry_count != 3 ==> has_pair(
            command_spec(url, c),
            "--download-retry-count"@,
            int_decimal(c.m3u8dl.retry_count as int),
        ),
        c.m3u8dl.timeout != 100 ==> has_pair(
            command_spec(url, c),
            "--http-request-timeout"@,
            int_decimal(c.m3u8dl.timeout as int),
        ),
        c.m3u8dl.max_speed@.len() > 0 && c.m3u8dl.max_speed@ != "0"@ ==> has_pair(
            command_spec(url, c),
            "-R"@,
            c.m3u8dl.max_speed@,
        ),
{
    let m = c.m3u8dl;
    let n = c.network;
    let d = c.decryption;
    // thread count, retries, timeout, speed limit
    let n1 = number_if(m.thread_count != 8, "--thread-count"@, m.thread_count as int);
    let n2 = number_if(m.retry_count != 3, "--download-retry-count"@, m.retry_count as int);
    let n3 = number_if(m.timeout != 100, "--http-request-timeout"@, m.timeout as int);
    let n4 = if m.max_speed@.len() > 0 && m.max_speed@ != "0"@ {
        seq!["-R"@, m.max_speed@]
    } else {
        no_args()
    };
    assert(download_limits_spec(m) == n1 + n2 + n3 + n4);
    let lim = seq![n1, n2, n3, n4];
    if m.thread_count != 8 {
        lemma_limits_pair(url, c, lim, 0, "--thread-count"@, int_decimal(m.thread_count as int));
    }
    if m.retry_count != 3 {
        lemma_limits_pair(url, c, lim, 1, "--download-retry-count"@, int_decimal(m.retry_count as int));
    }
    if m.timeout != 100 {
        lemma_limits_pair(url, c, lim, 2, "--http-request-timeout"@, int_decimal(m.timeout as int));
    }
    if m.max_speed@.len() > 0 && m.max_speed@ != "0"@ {
        lemma_limits_pair(url, c, lim, 3, "-R"@, m.max_speed@);
    }
}

/// Every stream selector that is set (`-sv`, `-sa`, `-ss`, `-dv`, `-da`,
/// `-ds`) is passed after its flag.
pub proof fn lemma_stream_selectors_reach_command_line(url: Seq<char>, c: ResolvedConfig)
    ensures
        c.m3u8dl.select_video is Some && c.m3u8dl.select_video->0@.len() > 0 ==> has_pair(command_spec(url, c), "-sv"@, c.m3u8dl.select_video->0@),
        c.m3u8dl.select_audio is Some && c.m3u8dl.select_audio->0@.len() > 0 ==> has_pair(command_spec(url, c), "-sa"@, c.m3u8dl.select_audio->0@),
        c.m3u8dl.select_subtitle is Some && c.m3u8dl.select_subtitle->0@.len() > 0 ==> has_pair(command_spec(url, c), "-ss"@, c.m3u8dl.select_subtitle->0@),
        c.m3u8dl.drop_video is Some && c.m3u8dl.drop_video->0@.len() > 0 ==> has_pair(command_spec(url, c), "-dv"@, c.m3u8dl.drop_video->0@),
        c.m3u8dl.drop_audio is Some && c.m3u8dl.drop_audio->0@.len() > 0 ==> has_pair(command_spec(url, c), "-da"@, c.m3u8dl.drop_audio->0@),
        c.m3u8dl.drop_subtitle is Some && c.m3u8dl.drop_subtitle->0@.len() > 0 ==> has_pair(command_spec(url, c), "-ds"@, c.m3u8dl.drop_subtitle->0@),
{
    let m = c.m3u8dl;
    let n = c.network;
    let d = c.decryption;
    // stream selection
    let sel = seq![
        flag_if(m.auto_select, "--auto-select"@),
        pair_if_set("-sv"@, m.select_video),
        pair_if_set("-sa"@, m.select_audio),
        pair_if_set("-ss"@, m.select_subtitle),
        pair_if_set("-dv"@, m.drop_video),
        pair_if_set("-da"@, m.drop_audio),
        pair_if_set("-ds"@, m.drop_subtitle),
    ];
    assert(stream_selection_spec(m) == sel[0] + sel[1] + sel[2] + sel[3] + sel[4] + sel[5] + sel[6]);
    if m.select_video is Some && m.select_video->0@.len() > 0 {
        lemma_selection_pair(url, c, sel, 1, "-sv"@, m.select_video->0@);
    }
    if m.select_audio is Some && m.select_audio->0@.len() > 0 {
        lemma_selection_pair(url, c, sel, 2, "-sa"@, m.select_audio->0@);
    }
    if m.select_subtitle is Some && m.select_subtitle->0@.len() > 0 {
        lemma_selection_pair(url, c, sel, 3, "-ss"@, m.select_subtitle->0@);
    }
    if m.drop_video is Some && m.drop_video->0@.len() > 0 {
        lemma_selection_pair(url, c, sel, 4, "-dv"@, m.drop_video->0@);
    }
    if m.drop_audio is Some && m.drop_audio->0@.len() > 0 {
        lemma_selection_pair(url, c, sel, 5, "-da"@, m.drop_audio->0@);
    }
    if m.drop_subtitle is Some && m.drop_subtitle->0@.len() > 0 {
        lemma_selection_pair(url, c, sel, 6, "-ds"@, m.drop_subtitle->0@);
    }
}

/// The live limits reach the command line: a record limit that is set, a
/// positive wait time, and a take count other than 16, each after its flag.
pub proof fn lemma_live_limits_reach_command_line(url: Seq<char>, c: ResolvedConfig)
    ensures
        c.m3u8dl.live_record_limit is Some && c.m3u8dl.live_record_limit->0@.len() > 0 ==> has_pair(
            command_spec(url, c),
            "--live-record-limit"@,
            c.m3u8dl.live_record_limit->0@,
        ),
        c.m3u8dl.live_wait_time > 0 ==> has_pair(
            command_spec(url, c),
            "--live-wait-time"@,
            int_decimal(c.m3u8dl.live_wait_time as int),
        ),
        c.m3u8dl.live_take_count != 16 ==> has_pair(
            command_spec(url, c),
            "--live-take-count"@,
            int_decimal(c.m3u8dl.live_take_count as int),
        ),
{
    let m = c.m3u8dl;
    let n = c.network;
    let d = c.decryption;
    // live limits
    let live = seq![
        pair_if_set("--live-record-limit"@, m.live_record_limit),
        number_if(m.live_wait_time > 0, "--live-wait-time"@, m.live_wait_time as int),
        number_if(m.live_take_count != 16, "--live-take-count"@, m.live_take_count as int),
    ];
    assert(live_limits_spec(m) == live[0] + live[1] + live[2]);
    if m.live_record_limit is Some && m.live_record_limit->0@.len() > 0 {
        lemma_live_pair(url, c, live, 0, "--live-record-limit"@, m.live_record_limit->0@);
    }
    if m.live_wait_time > 0 {
        lemma_live_pair(url, c, live, 1, "--live-wait-time"@, int_decimal(m.live_wait_time as int));
    }
    if m.live_take_count != 16 {
        lemma_live_pair(url, c, live, 2, "--live-take-count"@, int_decimal(m.live_take_count as int));
    }
}

/// The network settings reach the command line: a custom proxy that is set
/// (when the system proxy is off) and a base URL that is set, each after
/// its flag.
pub proof fn lemma_network_settings_reach_command_line(url: Seq<char>, c: ResolvedConfig)
    ensures
        (!c.network.use_system_proxy && c.network.custom_proxy is Some && c.network.custom_proxy->0@.len() > 0)
            ==> has_pair(command_spec(url, c), "--custom-proxy"@, c.network.custom_proxy->0@),
        c.network.base_url is Some && c.network.base_url->0@.len() > 0 ==> has_pair(command_spec(url, c), "--base-url"@, c.network.base_url->0@),
{
    let m = c.m3u8dl;
    let n = c.network;
    let d = c.decryption;
    // network
    let net = seq![
        if n.use_system_proxy {
            seq!["--use-system-proxy"@]
        } else {
            pair_if_set("--custom-proxy"@, n.custom_proxy)
        },
        header_args(n.headers@),
        pair_if_set("--base-url"@, n.base_url),
        flag_if(n.append_url_params, "--append-url-params"@),
    ];
    assert(network_args_spec(n) == net[0] + net[1] + net[2] + net[3]);
    if !n.use_system_proxy && n.custom_proxy is Some && n.custom_proxy->0@.len() > 0 {
        lemma_network_pair(url, c, net, 0, "--custom-proxy"@, n.custom_proxy->0@);
    }
    if n.base_url is Some && n.base_url->0@.len() > 0 {
        lemma_network_pair(url, c, net, 2, "--base-url"@, n.base_url->0@);
    }
}

/// The decryption settings reach the command line: a key file and a
/// decryption binary that are set, each after its flag.
pub proof fn lemma_decryption_settings_reach_command_line(url: Seq<char>, c: ResolvedConfig)
    ensures
        c.decryption.key_text_file is Some && c.decryption.key_text_file->0@.len() > 0 ==> has_pair(
            command_spec(url, c),
            "--key-text-file"@,
            c.decryption.key_text_file->0@,
        ),
        c.decryption.decryption_bin_path is Some && c.decryption.decryption_bin_path->0@.len() > 0 ==> has_pair(
            command_spec(url, c),
            "--decryption-binary-path"@,
            c.decryption.decryption_bin_path->0@,
        ),
{
    let m = c.m3u8dl;
    let n = c.network;
    let d = c.decryption;
    // decryption
    let dec = seq![
        pair_if_set("--key-text-file"@, d.key_text_file),
        if d.decryption_engine != DecryptionEngine::MP4Decrypt {
            seq!["--decryption-engine"@, decryption_engine_text(d.decryption_engine)]
        } else {
            no_args()
        },
        pair_if_set("--decryption-binary-path"@, d.decryption_bin_path),
        flag_if(d.real_time_decryption, "--mp4-real-time-decryption"@),
    ];
    assert(decryption_engine_spec(d) == dec[0] + dec[1] + dec[2] + dec[3]);
    if d.key_text_file is Some && d.key_text_file->0@.len() > 0 {
        lemma_decryption_pair(url, c, dec, 0, "--key-text-file"@, d.key_text_file->0@);
    }
    if d.decryption_bin_path is Some && d.decryption_bin_path->0@.len() > 0 {
        lemma_decryption_pair(url, c, dec, 2, "--decryption-binary-path"@, d.decryption_bin_path->0@);
    }
}

/// The eight parts of the command line, in order.
pub open spec fn command_parts(url: Seq<char>, c: ResolvedConfig) -> Seq<Seq<Seq<char>>> {
    seq![
        base_args_spec(url, c),
        download_args_spec(c.m3u8dl),
        mux_args_spec(c.m3u8dl),
        subtitle_args_spec(c.m3u8dl),
        live_args_spec(c.m3u8dl),
        network_args_spec(c.network),
        decryption_args_spec(c.decryption),
        advanced_args_spec(c),
    ]
}

/// The pieces joined in order.
pub open spec fn joined(p: Seq<Seq<Seq<char>>>) -> Seq<Seq<char>>
    decreases p.len(),
{
    if p.len() == 0 {
        Seq::empty()
    } else {
        joined(p.drop_last()) + p.last()
    }
}

/// A pair of one piece is a pair of the pieces joined.
proof fn lemma_pair_in_joined(p: Seq<Seq<Seq<char>>>, k: int, flag: Seq<char>, value: Seq<char>)
    requires
        0 <= k < p.len(),
        has_pair(p[k], flag, value),
    ensures
        has_pair(joined(p), flag, value),
    decreases p.len(),
{
    if k == p.len() - 1 {
        lemma_pair_in_concat(joined(p.drop_last()), p.last(), flag, value);
    } else {
        assert(p.drop_last()[k] == p[k]);
        lemma_pair_in_joined(p.drop_last(), k, flag, value);
        lemma_pair_in_concat(joined(p.drop_last()), p.last(), flag, value);
    }
}

/// A pair of one of the eight parts is a pair of the command line.
proof fn lemma_part_pair(url: Seq<char>, c: ResolvedConfig, k: int, flag: Seq<char>, value: Seq<char>)
    requires
        0 <= k < 8,
        has_pair(command_parts(url, c)[k], flag, value),
    ensures
        has_pair(command_spec(url, c), flag, value),
{
    let p = command_parts(url, c);
    lemma_pair_in_joined(p, k, flag, value);
    reveal_with_fuel(joined, 9);
    assert(p.drop_last().drop_last().drop_last().drop_last().drop_last().drop_last().drop_last()
        =~= seq![p[0]]);
    assert(joined(p) =~= command_spec(url, c));
}

/// A piece that is exactly the pair.
proof fn lemma_piece_pair(p: Seq<Seq<Seq<char>>>, k: int, flag: Seq<char>, value: Seq<char>)
    requires
        0 <= k < p.len(),
        p[k] == seq![flag, value],
    ensures
        has_pair(joined(p), flag, value),
{
    lemma_pair_itself(flag, value);
    lemma_pair_in_joined(p, k, flag, value);
}

proof fn lemma_limits_pair(
    url: Seq<char>,
    c: ResolvedConfig,
    lim: Seq<Seq<Seq<char>>>,
    k: int,
    flag: Seq<char>,
    value: Seq<char>,
)
    requires
        lim.len() == 4,
        download_limits_spec(c.m3u8dl) == lim[0] + lim[1] + lim[2] + lim[3],
        0 <= k < 4,
        lim[k] == seq![flag, value],
    ensures
        has_pair(command_spec(url, c), flag, value),
{
    let m = c.m3u8dl;
    lemma_piece_pair(lim, k, flag, value);
    reveal_with_fuel(joined, 5);
    assert(joined(lim) =~= download_limits_spec(m));
    lemma_pair_in_concat(download_limits_spec(m), stream_selection_spec(m), flag, value);
    lemma_pair_in_concat(
        download_limits_spec(m) + stream_selection_spec(m),
        download_flags_spec(m),
        flag,
        value,
    );
    lemma_part_pair(url, c, 1, flag, value);
}

proof fn lemma_selection_pair(
    url: Seq<char>,
    c: ResolvedConfig,
    sel: Seq<Seq<Seq<char>>>,
    k: int,
    flag: Seq<char>,
    value: Seq<char>,
)
    requires
        sel.len() == 7,
        stream_selection_spec(c.m3u8dl) == sel[0] + sel[1] + sel[2] + sel[3] + sel[4] + sel[5]
            + sel[6],
        0 <= k < 7,
        sel[k] == seq![flag, value],
    ensures
        has_pair(command_spec(url, c), flag, value),
{
    let m = c.m3u8dl;
    lemma_piece_pair(sel, k, flag, value);
    reveal_with_fuel(joined, 8);
    assert(joined(sel) =~= stream_selection_spec(m));
    lemma_pair_in_concat(download_limits_spec(m), stream_selection_spec(m), flag, value);
    lemma_pair_in_concat(
        download_limits_spec(m) + stream_selection_spec(m),
        download_flags_spec(m),
        flag,
        value,
    );
    lemma_part_pair(url, c, 1, flag, value);
}

proof fn lemma_live_pair(
    url: Seq<char>,
    c: ResolvedConfig,
    live: Seq<Seq<Seq<char>>>,
    k: int,
    flag: Seq<char>,
    value: Seq<char>,
)
    requires
        live.len() == 3,
        live_limits_spec(c.m3u8dl) == live[0] + live[1] + live[2],
        0 <= k < 3,
        live[k] == seq![flag, value],
    ensures
        has_pair(command_spec(url, c), flag, value),
{
    let m = c.m3u8dl;
    lemma_piece_pair(live, k, flag, value);
    reveal_with_fuel(joined, 4);
    assert(joined(live) =~= live_limits_spec(m));
    lemma_pair_in_concat(live_flags_spec(m), live_limits_spec(m), flag, value);
    lemma_part_pair(url, c, 4, flag, value);
}

proof fn lemma_network_pair(
    url: Seq<char>,
    c: ResolvedConfig,
    net: Seq<Seq<Seq<char>>>,
    k: int,
    flag: Seq<char>,
    value: Seq<char>,
)
    requires
        net.len() == 4,
        network_args_spec(c.network) == net[0] + net[1] + net[2] + net[3],
        0 <= k < 4,
        net[k] == seq![flag, value],
    ensures
        has_pair(command_spec(url, c), flag, value),
{
    lemma_piece_pair(net, k, flag, value);
    reveal_with_fuel(joined, 5);
    assert(joined(net) =~= network_args_spec(c.network));
    lemma_part_pair(url, c, 5, flag, value);
}

proof fn lemma_decryption_pair(
    url: Seq<char>,
    c: ResolvedConfig,
    dec: Seq<Seq<Seq<char>>>,
    k: int,
    flag: Seq<char>,
    value: Seq<char>,
)
    requires
        dec.len() == 4,
        decryption_engine_spec(c.decryption) == dec[0] + dec[1] + dec[2] + dec[3],
        0 <= k < 4,
        dec[k] == seq![flag, value],
    ensures
        has_pair(command_spec(url, c), flag, value),
{
    let d = c.decryption;
    lemma_piece_pair(dec, k, flag, value);
    reveal_with_fuel(joined, 5);
    assert(joined(dec) =~= decryption_engine_spec(d));
    lemma_pair_in_concat(key_args(d.keys@), decryption_engine_spec(d), flag, value);
    lemma_pair_in_concat(key_args(d.keys@) + decryption_engine_spec(d), custom_hls_spec(d), flag, value);
    lemma_part_pair(url, c, 6, flag, value);
}

/// `arg` somewhere among the arguments.
pub open spec fn has_arg(args: Seq<Seq<char>>, arg: Seq<char>) -> bool {
    exists|i: int| 0 <= i < args.len() && #[trigger] args[i] == arg
}

/// An argument of either part is an argument of the whole.
proof fn lemma_arg_in_concat(x: Seq<Seq<char>>, y: Seq<Seq<char>>, arg: Seq<char>)
    requires
        has_arg(x, arg) || has_arg(y, arg),
    ensures
        has_arg(x + y, arg),
{
    if has_arg(x, arg) {
        let i = choose|i: int| 0 <= i < x.len() && #[trigger] x[i] == arg;
        assert((x + y)[i] == arg);
    } else {
        let i = choose|i: int| 0 <= i < y.len() && #[trigger] y[i] == arg;
        assert((x + y)[x.len() + i] == arg);
    }
}

/// An argument of one piece is an argument of the pieces joined.
proof fn lemma_arg_in_joined(p: Seq<Seq<Seq<char>>>, k: int, arg: Seq<char>)
    requires
        0 <= k < p.len(),
        has_arg(p[k], arg),
    ensures
        has_arg(joined(p), arg),
    decreases p.len(),
{
    if k < p.len() - 1 {
        assert(p.drop_last()[k] == p[k]);
        lemma_arg_in_joined(p.drop_last(), k, arg);
    }
    lemma_arg_in_concat(joined(p.drop_last()), p.last(), arg);
}

/// An argument of one of the eight parts is an argument of the command line.
proof fn lemma_part_arg(url: Seq<char>, c: ResolvedConfig, k: int, arg: Seq<char>)
    requires
        0 <= k < 8,
        has_arg(command_parts(url, c)[k], arg),
    ensures
        has_arg(command_spec(url, c), arg),
{
    let p = command_parts(url, c);
    lemma_arg_in_joined(p, k, arg);
    reveal_with_fuel(joined, 9);
    assert(p.drop_last().drop_last().drop_last().drop_last().drop_last().drop_last().drop_last()
        =~= seq![p[0]]);
    assert(joined(p) =~= command_spec(url, c));
}

/// A piece that is the argument alone, or the argument and a value.
proof fn lemma_piece_arg(p: Seq<Seq<Seq<char>>>, k: int, arg: Seq<char>)
    requires
        0 <= k < p.len(),
        p[k].len() >= 1 && p[k][0] == arg,
    ensures
        has_arg(joined(p), arg),
{
    lemma_arg_in_joined(p, k, arg);
}

proof fn lemma_lift_download_flags_arg(url: Seq<char>, c: ResolvedConfig, arg: Seq<char>)
    requires
        has_arg(download_flags_spec(c.m3u8dl), arg),
    ensures
        has_arg(command_spec(url, c), arg),
{
    let m = c.m3u8dl;
    lemma_arg_in_concat(download_limits_spec(m) + stream_selection_spec(m), download_flags_spec(m), arg);
    lemma_part_arg(url, c, 1, arg);
}

proof fn lemma_lift_download_flags_pair(url: Seq<char>, c: ResolvedConfig, flag: Seq<char>, value: Seq<char>)
    requires
        has_pair(download_flags_spec(c.m3u8dl), flag, value),
    ensures
        has_pair(command_spec(url, c), flag, value),
{
    let m = c.m3u8dl;
    lemma_pair_in_concat(download_limits_spec(m) + stream_selection_spec(m), download_flags_spec(m), flag, value);
    lemma_part_pair(url, c, 1, flag, value);
}

proof fn lemma_lift_stream_selection_arg(url: Seq<char>, c: ResolvedConfig, arg: Seq<char>)
    requires
        has_arg(stream_selection_spec(c.m3u8dl), arg),
    ensures
        has_arg(command_spec(url, c), arg),
{
    let m = c.m3u8dl;
    lemma_arg_in_concat(download_limits_spec(m), stream_selection_spec(m), arg);
    lemma_arg_in_concat(download_limits_spec(m) + stream_selection_spec(m), download_flags_spec(m), arg);
    lemma_part_arg(url, c, 1, arg);
}

proof fn lemma_lift_mux_arg(url: Seq<char>, c: ResolvedConfig, arg: Seq<char>)
    requires
        has_arg(mux_args_spec(c.m3u8dl), arg),
    ensures
        has_arg(command_spec(url, c), arg),
{
    lemma_part_arg(url, c, 2, arg);
}

proof fn lemma_lift_subtitle_arg(url: Seq<char>, c: ResolvedConfig, arg: Seq<char>)
    requires
        has_arg(subtitle_args_spec(c.m3u8dl), arg),
    ensures
        has_arg(command_spec(url, c), arg),
{
    lemma_part_arg(url, c, 3, arg);
}

proof fn lemma_lift_subtitle_pair(url: Seq<char>, c: ResolvedConfig, flag: Seq<char>, value: Seq<char>)
    requires
        has_pair(subtitle_args_spec(c.m3u8dl), flag, value),
    ensures
        has_pair(command_spec(url, c), flag, value),
{
    lemma_part_pair(url, c, 3, flag, value);
}

proof fn lemma_lift_live_flags_arg(url: Seq<char>, c: ResolvedConfig, arg: Seq<char>)
    requires
        has_arg(live_flags_spec(c.m3u8dl), arg),
    ensures
        has_arg(command_spec(url, c), arg),
{
    lemma_arg_in_concat(live_flags_spec(c.m3u8dl), live_limits_spec(c.m3u8dl), arg);
    lemma_part_arg(url, c, 4, arg);
}

proof fn lemma_lift_live_flags_pair(url: Seq<char>, c: ResolvedConfig, flag: Seq<char>, value: Seq<char>)
    requires
        has_pair(live_flags_spec(c.m3u8dl), flag, value),
    ensures
        has_pair(command_spec(url, c), flag, value),
{
    lemma_pair_in_concat(live_flags_spec(c.m3u8dl), live_limits_spec(c.m3u8dl), flag, value);
    lemma_part_pair(url, c, 4, flag, value);
}

proof fn lemma_lift_network_arg(url: Seq<char>, c: ResolvedConfig, arg: Seq<char>)
    requires
        has_arg(network_args_spec(c.network), arg),
    ensures
        has_arg(command_spec(url, c), arg),
{
    lemma_part_arg(url, c, 5, arg);
}

proof fn lemma_lift_decryption_engine_arg(url: Seq<char>, c: ResolvedConfig, arg: Seq<char>)
    requires
        has_arg(decryption_engine_spec(c.decryption), arg),
    ensures
        has_arg(command_spec(url, c), arg),
{
    let d = c.decryption;
    lemma_arg_in_concat(key_args(d.keys@), decryption_engine_spec(d), arg);
    lemma_arg_in_concat(key_args(d.keys@) + decryption_engine_spec(d), custom_hls_spec(d), arg);
    lemma_part_arg(url, c, 6, arg);
}

proof fn lemma_lift_decryption_engine_pair(url: Seq<char>, c: ResolvedConfig, flag: Seq<char>, value: Seq<char>)
    requires
        has_pair(decryption_engine_spec(c.decryption), flag, value),
    ensures
        has_pair(command_spec(url, c), flag, value),
{
    let d = c.decryption;
    lemma_pair_in_concat(key_args(d.keys@), decryption_engine_spec(d), flag, value);
    lemma_pair_in_concat(key_args(d.keys@) + decryption_engine_spec(d), custom_hls_spec(d), flag, value);
    lemma_part_pair(url, c, 6, flag, value);
}

proof fn lemma_lift_advanced_arg(url: Seq<char>, c: ResolvedConfig, arg: Seq<char>)
    requires
        has_arg(advanced_args_spec(c), arg),
    ensures
        has_arg(command_spec(url, c), arg),
{
    lemma_part_arg(url, c, 7, arg);
}

proof fn lemma_lift_advanced_pair(url: Seq<char>, c: ResolvedConfig, flag: Seq<char>, value: Seq<char>)
    requires
        has_pair(advanced_args_spec(c), flag, value),
    ensures
        has_pair(command_spec(url, c), flag, value),
{
    lemma_part_pair(url, c, 7, flag, value);
}

// ---------------------------------------------------------------------
// The switches of each part
// ---------------------------------------------------------------------

proof fn lemma_download_flags_carry(m: M3U8DLSettings)
    ensures
        m.skip_merge ==> has_arg(download_flags_spec(m), "--skip-merge"@),
        !m.del_after_done ==> has_arg(download_flags_spec(m), "--no-delete-temp"@),
        !m.check_segments_count ==> has_pair(
            download_flags_spec(m),
            "--check-segments-count"@,
            "false"@,
        ),
        m.binary_merge ==> has_arg(download_flags_spec(m), "--binary-merge"@),
        m.write_meta_json ==> has_arg(download_flags_spec(m), "--write-meta-json"@),
        m.concurrent_download ==> has_arg(download_flags_spec(m), "-mt"@),
{
    let fl = seq![
        flag_if(m.skip_merge, "--skip-merge"@),
        flag_if(!m.del_after_done, "--no-delete-temp"@),
        if !m.check_segments_count {
            seq!["--check-segments-count"@, "false"@]
        } else {
            no_args()
        },
        flag_if(m.binary_merge, "--binary-merge"@),
        flag_if(m.write_meta_json, "--write-meta-json"@),
        flag_if(m.concurrent_download, "-mt"@),
    ];
    assert(joined(fl) =~= download_flags_spec(m)) by {
        reveal_with_fuel(joined, 7);
    }
    if m.skip_merge {
        lemma_piece_arg(fl, 0, "--skip-merge"@);
    }
    if !m.del_after_done {
        lemma_piece_arg(fl, 1, "--no-delete-temp"@);
    }
    if !m.check_segments_count {
        lemma_piece_pair(fl, 2, "--check-segments-count"@, "false"@);
    }
    if m.binary_merge {
        lemma_piece_arg(fl, 3, "--binary-merge"@);
    }
    if m.write_meta_json {
        lemma_piece_arg(fl, 4, "--write-meta-json"@);
    }
    if m.concurrent_download {
        lemma_piece_arg(fl, 5, "-mt"@);
    }
}

proof fn lemma_auto_select_carry(m: M3U8DLSettings)
    ensures
        m.auto_select ==> has_arg(stream_selection_spec(m), "--auto-select"@),
{
    if m.auto_select {
        let sel = seq![
            flag_if(m.auto_select, "--auto-select"@),
            pair_if_set("-sv"@, m.select_video),
            pair_if_set("-sa"@, m.select_audio),
            pair_if_set("-ss"@, m.select_subtitle),
            pair_if_set("-dv"@, m.drop_video),
            pair_if_set("-da"@, m.drop_audio),
            pair_if_set("-ds"@, m.drop_subtitle),
        ];
        assert(joined(sel) =~= stream_selection_spec(m)) by {
            reveal_with_fuel(joined, 8);
        }
        lemma_piece_arg(sel, 0, "--auto-select"@);
    }
}

proof fn lemma_mux_carry(m: M3U8DLSettings)
    ensures
        !m.skip_merge ==> has_arg(mux_args_spec(m), "-M"@),
        !m.skip_merge && m.no_date_info ==> has_arg(mux_args_spec(m), "--no-date-info"@),
        !m.skip_merge && m.use_ffmpeg_concat_demuxer ==> has_arg(
            mux_args_spec(m),
            "--use-ffmpeg-concat-demuxer"@,
        ),
{
    if !m.skip_merge {
        let mx = seq![
            seq!["-M"@, mux_option(m)],
            flag_if(m.no_date_info, "--no-date-info"@),
            flag_if(m.use_ffmpeg_concat_demuxer, "--use-ffmpeg-concat-demuxer"@),
            imports_args(m.mux_imports@),
        ];
        assert(joined(mx) =~= mux_args_spec(m)) by {
            reveal_with_fuel(joined, 5);
        }
        lemma_piece_arg(mx, 0, "-M"@);
        if m.no_date_info {
            lemma_piece_arg(mx, 1, "--no-date-info"@);
        }
        if m.use_ffmpeg_concat_demuxer {
            lemma_piece_arg(mx, 2, "--use-ffmpeg-concat-demuxer"@);
        }
    }
}

proof fn lemma_subtitle_carry(m: M3U8DLSettings)
    ensures
        m.sub_only ==> has_arg(subtitle_args_spec(m), "--sub-only"@),
        m.auto_subtitle_fix ==> has_arg(subtitle_args_spec(m), "--auto-subtitle-fix"@),
        m.sub_format != SubtitleFormat::SRT ==> has_pair(
            subtitle_args_spec(m),
            "--sub-format"@,
            subtitle_format_text(m.sub_format),
        ),
{
    let sb = seq![
        flag_if(m.sub_only, "--sub-only"@),
        if m.sub_format != SubtitleFormat::SRT {
            seq!["--sub-format"@, subtitle_format_text(m.sub_format)]
        } else {
            no_args()
        },
        flag_if(m.auto_subtitle_fix, "--auto-subtitle-fix"@),
    ];
    assert(joined(sb) =~= subtitle_args_spec(m)) by {
        reveal_with_fuel(joined, 4);
    }
    if m.sub_only {
        lemma_piece_arg(sb, 0, "--sub-only"@);
    }
    if m.sub_format != SubtitleFormat::SRT {
        lemma_piece_pair(sb, 1, "--sub-format"@, subtitle_format_text(m.sub_format));
    }
    if m.auto_subtitle_fix {
        lemma_piece_arg(sb, 2, "--auto-subtitle-fix"@);
    }
}

proof fn lemma_live_flags_carry(m: M3U8DLSettings)
    ensures
        m.live_perform_as_vod ==> has_arg(live_flags_spec(m), "--live-perform-as-vod"@),
        m.live_real_time_merge ==> has_arg(live_flags_spec(m), "--live-real-time-merge"@),
        !m.live_keep_segments ==> has_pair(live_flags_spec(m), "--live-keep-segments"@, "false"@),
        m.live_pipe_mux ==> has_arg(live_flags_spec(m), "--live-pipe-mux"@),
        m.live_fix_vtt_by_audio ==> has_arg(live_flags_spec(m), "--live-fix-vtt-by-audio"@),
{
    let lv = seq![
        flag_if(m.live_perform_as_vod, "--live-perform-as-vod"@),
        flag_if(m.live_real_time_merge, "--live-real-time-merge"@),
        if !m.live_keep_segments {
            seq!["--live-keep-segments"@, "false"@]
        } else {
            no_args()
        },
        flag_if(m.live_pipe_mux, "--live-pipe-mux"@),
        flag_if(m.live_fix_vtt_by_audio, "--live-fix-vtt-by-audio"@),
    ];
    assert(joined(lv) =~= live_flags_spec(m)) by {
        reveal_with_fuel(joined, 6);
    }
    if m.live_perform_as_vod {
        lemma_piece_arg(lv, 0, "--live-perform-as-vod"@);
    }
    if m.live_real_time_merge {
        lemma_piece_arg(lv, 1, "--live-real-time-merge"@);
    }
    if !m.live_keep_segments {
        lemma_piece_pair(lv, 2, "--live-keep-segments"@, "false"@);
    }
    if m.live_pipe_mux {
        lemma_piece_arg(lv, 3, "--live-pipe-mux"@);
    }
    if m.live_fix_vtt_by_audio {
        lemma_piece_arg(lv, 4, "--live-fix-vtt-by-audio"@);
    }
}

proof fn lemma_network_switches_carry(n: NetworkSettings)
    ensures
        n.use_system_proxy ==> has_arg(network_args_spec(n), "--use-system-proxy"@),
        n.append_url_params ==> has_arg(network_args_spec(n), "--append-url-params"@),
{
    let net = seq![
        if n.use_system_proxy {
            seq!["--use-system-proxy"@]
        } else {
            pair_if_set("--custom-proxy"@, n.custom_proxy)
        },
        header_args(n.headers@),
        pair_if_set("--base-url"@, n.base_url),
        flag_if(n.append_url_params, "--append-url-params"@),
    ];
    assert(joined(net) =~= network_args_spec(n)) by {
        reveal_with_fuel(joined, 5);
    }
    if n.use_system_proxy {
        lemma_piece_arg(net, 0, "--use-system-proxy"@);
    }
    if n.append_url_params {
        lemma_piece_arg(net, 3, "--append-url-params"@);
    }
}

proof fn lemma_decryption_switches_carry(d: DecryptionSettings)
    ensures
        d.real_time_decryption ==> has_arg(decryption_engine_spec(d), "--mp4-real-time-decryption"@),
        d.decryption_engine != DecryptionEngine::MP4Decrypt ==> has_pair(
            decryption_engine_spec(d),
            "--decryption-engine"@,
            decryption_engine_text(d.decryption_engine),
        ),
{
    let dec = seq![
        pair_if_set("--key-text-file"@, d.key_text_file),
        if d.decryption_engine != DecryptionEngine::MP4Decrypt {
            seq!["--decryption-engine"@, decryption_engine_text(d.decryption_engine)]
        } else {
            no_args()
        },
        pair_if_set("--decryption-binary-path"@, d.decryption_bin_path),
        flag_if(d.real_time_decryption, "--mp4-real-time-decryption"@),
    ];
    assert(joined(dec) =~= decryption_engine_spec(d)) by {
        reveal_with_fuel(joined, 5);
    }
    if d.real_time_decryption {
        lemma_piece_arg(dec, 3, "--mp4-real-time-decryption"@);
    }
    if d.decryption_engine != DecryptionEngine::MP4Decrypt {
        lemma_piece_pair(dec, 1, "--decryption-engine"@, decryption_engine_text(d.decryption_engine));
    }
}

proof fn lemma_advanced_carry(c: ResolvedConfig)
    ensures
        c.m3u8dl.allow_hls_multi_ext_map ==> has_arg(
            advanced_args_spec(c),
            "--allow-hls-multi-ext-map"@,
        ),
        c.m3u8dl.url_processor_args is Some && c.m3u8dl.url_processor_args->0@.len() > 0 ==> has_pair(
            advanced_args_spec(c),
            "--urlprocessor-args"@,
            c.m3u8dl.url_processor_args->0@,
        ),
        c.task.custom_range is Some && c.task.custom_range->0@.len() > 0 ==> has_pair(
            advanced_args_spec(c),
            "--custom-range"@,
            c.task.custom_range->0@,
        ),
        c.task.start_at is Some && c.task.start_at->0@.len() > 0 ==> has_pair(
            advanced_args_spec(c),
            "--task-start-at"@,
            c.task.start_at->0@,
        ),
{
    let adv = seq![
        flag_if(c.m3u8dl.allow_hls_multi_ext_map, "--allow-hls-multi-ext-map"@),
        pair_if_set("--urlprocessor-args"@, c.m3u8dl.url_processor_args),
        pair_if_set("--custom-range"@, c.task.custom_range),
        pair_if_set("--task-start-at"@, c.task.start_at),
    ];
    assert(joined(adv) =~= advanced_args_spec(c)) by {
        reveal_with_fuel(joined, 5);
    }
    if c.m3u8dl.allow_hls_multi_ext_map {
        lemma_piece_arg(adv, 0, "--allow-hls-multi-ext-map"@);
    }
    if c.m3u8dl.url_processor_args is Some && c.m3u8dl.url_processor_args->0@.len() > 0 {
        lemma_piece_pair(adv, 1, "--urlprocessor-args"@, c.m3u8dl.url_processor_args->0@);
    }
    if c.task.custom_range is Some && c.task.custom_range->0@.len() > 0 {
        lemma_piece_pair(adv, 2, "--custom-range"@, c.task.custom_range->0@);
    }
    if c.task.start_at is Some && c.task.start_at->0@.len() > 0 {
        lemma_piece_pair(adv, 3, "--task-start-at"@, c.task.start_at->0@);
    }
}

// ---------------------------------------------------------------------
// The switches on the whole command line
// ---------------------------------------------------------------------

/// The download switches reach the command line: skipping the merge,
/// keeping temporary files, binary merging, writing the meta JSON,
/// concurrent download and automatic selection each pass their flag when
/// on, and turning off the segment-count check passes
/// `--check-segments-count false`.
pub proof fn lemma_download_switches_reach_command_line(url: Seq<char>, c: ResolvedConfig)
    ensures
        c.m3u8dl.skip_merge ==> has_arg(command_spec(url, c), "--skip-merge"@),
        !c.m3u8dl.del_after_done ==> has_arg(command_spec(url, c), "--no-delete-temp"@),
        !c.m3u8dl.check_segments_count ==> has_pair(
            command_spec(url, c),
            "--check-segments-count"@,
            "false"@,
        ),
        c.m3u8dl.binary_merge ==> has_arg(command_spec(url, c), "--binary-merge"@),
        c.m3u8dl.write_meta_json ==> has_arg(command_spec(url, c), "--write-meta-json"@),
        c.m3u8dl.concurrent_download ==> has_arg(command_spec(url, c), "-mt"@),
        c.m3u8dl.auto_select ==> has_arg(command_spec(url, c), "--auto-select"@),
{
    let m = c.m3u8dl;
    lemma_download_flags_carry(m);
    lemma_auto_select_carry(m);
    if m.skip_merge {
        lemma_lift_download_flags_arg(url, c, "--skip-merge"@);
    }
    if !m.del_after_done {
        lemma_lift_download_flags_arg(url, c, "--no-delete-temp"@);
    }
    if !m.check_segments_count {
        lemma_lift_download_flags_pair(url, c, "--check-segments-count"@, "false"@);
    }
    if m.binary_merge {
        lemma_lift_download_flags_arg(url, c, "--binary-merge"@);
    }
    if m.write_meta_json {
        lemma_lift_download_flags_arg(url, c, "--write-meta-json"@);
    }
    if m.concurrent_download {
        lemma_lift_download_flags_arg(url, c, "-mt"@);
    }
    if m.auto_select {
        lemma_lift_stream_selection_arg(url, c, "--auto-select"@);
    }
}

/// The muxing and subtitle switches reach the command line: unless merging
/// is skipped, `-M` is passed, with `--no-date-info` and
/// `--use-ffmpeg-concat-demuxer` when on; subtitles only, the automatic
/// subtitle fix and a subtitle format other than SRT are passed.
pub proof fn lemma_mux_switches_reach_command_line(url: Seq<char>, c: ResolvedConfig)
    ensures
        !c.m3u8dl.skip_merge ==> has_arg(command_spec(url, c), "-M"@),
        !c.m3u8dl.skip_merge && c.m3u8dl.no_date_info ==> has_arg(
            command_spec(url, c),
            "--no-date-info"@,
        ),
        !c.m3u8dl.skip_merge && c.m3u8dl.use_ffmpeg_concat_demuxer ==> has_arg(
            command_spec(url, c),
            "--use-ffmpeg-concat-demuxer"@,
        ),
        c.m3u8dl.sub_only ==> has_arg(command_spec(url, c), "--sub-only"@),
        c.m3u8dl.auto_subtitle_fix ==> has_arg(command_spec(url, c), "--auto-subtitle-fix"@),
        c.m3u8dl.sub_format != SubtitleFormat::SRT ==> has_pair(
            command_spec(url, c),
            "--sub-format"@,
            subtitle_format_text(c.m3u8dl.sub_format),
        ),
{
    let m = c.m3u8dl;
    lemma_mux_carry(m);
    lemma_subtitle_carry(m);
    if !m.skip_merge {
        lemma_lift_mux_arg(url, c, "-M"@);
        if m.no_date_info {
            lemma_lift_mux_arg(url, c, "--no-date-info"@);
        }
        if m.use_ffmpeg_concat_demuxer {
            lemma_lift_mux_arg(url, c, "--use-ffmpeg-concat-demuxer"@);
        }
    }
    if m.sub_only {
        lemma_lift_subtitle_arg(url, c, "--sub-only"@);
    }
    if m.sub_format != SubtitleFormat::SRT {
        lemma_lift_subtitle_pair(url, c, "--sub-format"@, subtitle_format_text(m.sub_format));
    }
    if m.auto_subtitle_fix {
        lemma_lift_subtitle_arg(url, c, "--auto-subtitle-fix"@);
    }
}

/// The live switches reach the command line when on, and
/// `--live-keep-segments false` is passed when the segments are not kept.
pub proof fn lemma_live_switches_reach_command_line(url: Seq<char>, c: ResolvedConfig)
    ensures
        c.m3u8dl.live_perform_as_vod ==> has_arg(command_spec(url, c), "--live-perform-as-vod"@),
        c.m3u8dl.live_real_time_merge ==> has_arg(command_spec(url, c), "--live-real-time-merge"@),
        !c.m3u8dl.live_keep_segments ==> has_pair(
            command_spec(url, c),
            "--live-keep-segments"@,
            "false"@,
        ),
        c.m3u8dl.live_pipe_mux ==> has_arg(command_spec(url, c), "--live-pipe-mux"@),
        c.m3u8dl.live_fix_vtt_by_audio ==> has_arg(command_spec(url, c), "--live-fix-vtt-by-audio"@),
{
    let m = c.m3u8dl;
    lemma_live_flags_carry(m);
    if m.live_perform_as_vod {
        lemma_lift_live_flags_arg(url, c, "--live-perform-as-vod"@);
    }
    if m.live_real_time_merge {
        lemma_lift_live_flags_arg(url, c, "--live-real-time-merge"@);
    }
    if !m.live_keep_segments {
        lemma_lift_live_flags_pair(url, c, "--live-keep-segments"@, "false"@);
    }
    if m.live_pipe_mux {
        lemma_lift_live_flags_arg(url, c, "--live-pipe-mux"@);
    }
    if m.live_fix_vtt_by_audio {
        lemma_lift_live_flags_arg(url, c, "--live-fix-vtt-by-audio"@);
    }
}

/// The network, decryption and advanced switches reach the command line:
/// the system proxy, appending URL parameters, real-time decryption and
/// multiple HLS ext maps pass their flag when on; a decryption engine other
/// than mp4decrypt is passed after `--decryption-engine`; URL-processor
/// arguments, a custom range and a start time that are set are passed after
/// their flags.
pub proof fn lemma_other_switches_reach_command_line(url: Seq<char>, c: ResolvedConfig)
    ensures
        c.network.use_system_proxy ==> has_arg(command_spec(url, c), "--use-system-proxy"@),
        c.network.append_url_params ==> has_arg(command_spec(url, c), "--append-url-params"@),
        c.decryption.real_time_decryption ==> has_arg(
            command_spec(url, c),
            "--mp4-real-time-decryption"@,
        ),
        c.decryption.decryption_engine != DecryptionEngine::MP4Decrypt ==> has_pair(
            command_spec(url, c),
            "--decryption-engine"@,
            decryption_engine_text(c.decryption.decryption_engine),
        ),
        c.m3u8dl.allow_hls_multi_ext_map ==> has_arg(
            command_spec(url, c),
            "--allow-hls-multi-ext-map"@,
        ),
        c.m3u8dl.url_processor_args is Some && c.m3u8dl.url_processor_args->0@.len() > 0 ==> has_pair(
            command_spec(url, c),
            "--urlprocessor-args"@,
            c.m3u8dl.url_processor_args->0@,
        ),
        c.task.custom_range is Some && c.task.custom_range->0@.len() > 0 ==> has_pair(
            command_spec(url, c),
            "--custom-range"@,
            c.task.custom_range->0@,
        ),
        c.task.start_at is Some && c.task.start_at->0@.len() > 0 ==> has_pair(
            command_spec(url, c),
            "--task-start-at"@,
            c.task.start_at->0@,
        ),
{
    let n = c.network;
    let d = c.decryption;
    lemma_network_switches_carry(n);
    lemma_decryption_switches_carry(d);
    lemma_advanced_carry(c);
    if n.use_system_proxy {
        lemma_lift_network_arg(url, c, "--use-system-proxy"@);
    }
    if n.append_url_params {
        lemma_lift_network_arg(url, c, "--append-url-params"@);
    }
    if d.real_time_decryption {
        lemma_lift_decryption_engine_arg(url, c, "--mp4-real-time-decryption"@);
    }
    if d.decryption_engine != DecryptionEngine::MP4Decrypt {
        lemma_lift_decryption_engine_pair(
            url,
            c,
            "--decryption-engine"@,
            decryption_engine_text(d.decryption_engine),
        );
    }
    if c.m3u8dl.allow_hls_multi_ext_map {
        lemma_lift_advanced_arg(url, c, "--allow-hls-multi-ext-map"@);
    }
    if c.m3u8dl.url_processor_args is Some && c.m3u8dl.url_processor_args->0@.len() > 0 {
        lemma_lift_advanced_pair(url, c, "--urlprocessor-args"@, c.m3u8dl.url_processor_args->0@);
    }
    if c.task.custom_range is Some && c.task.custom_range->0@.len() > 0 {
        lemma_lift_advanced_pair(url, c, "--custom-range"@, c.task.custom_range->0@);
    }
    if c.task.start_at is Some && c.task.start_at->0@.len() > 0 {
        lemma_lift_advanced_pair(url, c, "--task-start-at"@, c.task.start_at->0@);
    }
}

} // verus!
