//! Download commands: which directory, tool and container a download uses,
//! what is reported when it ends, and how the output file is recognised.

use vstd::prelude::*;

use crate::text::string_views;

use super::none_if_empty;
use crate::domain::config::{FfmpegConfig, MuxFormat, ToolConfigs};
use crate::domain::download::engine::ToolId;
use crate::domain::task::overrides::TaskOverrides;
use crate::domain::download::url_type::{is_streaming_type, url_kind, url_type_name, UrlType};
use crate::text::{
    chars_of, ends_with, ends_with_chars, lowercase_of, piece_views, replace_all,
    replace_all_chars, split_char, split_chars, starts_with, starts_with_chars, string_of_chars,
    str_eq, strip_suffixes, strip_suffixes_chars, sub_chars, to_lowercase, trim, trim_range,
};

verus! {

// ---------------------------------------------------------------------
// Save directory, tools and container
// ---------------------------------------------------------------------

/// The save directory of a download: the task's own when it is not blank,
/// else the global default when that is not blank; `None` leaves the choice
/// to the system download directory.
pub open spec fn save_dir_choice(task_dir: Seq<char>, default_dir: Seq<char>) -> Option<Seq<char>> {
    if trim(task_dir).len() > 0 {
        Some(task_dir)
    } else if trim(default_dir).len() > 0 {
        Some(default_dir)
    } else {
        None
    }
}

/// Whether a string holds more than whitespace.
fn is_blank(s: &str) -> (r: bool)
    ensures
        r == (trim(s@).len() == 0),
{
    let c = chars_of(s);
    assert(c@.subrange(0, c@.len() as int) =~= c@);
    trim_range(&c, 0, c.len()).len() == 0
}

/// Chooses the save directory of a download (task, then global default).
pub fn resolve_save_dir(task_dir: &str, default_dir: &str) -> (r: Option<String>)
    ensures
        match r {
            Some(d) => save_dir_choice(task_dir@, default_dir@) == Some(d@),
            None => save_dir_choice(task_dir@, default_dir@) is None,
        },
{
    if !is_blank(task_dir) {
        Some(String::from_str(task_dir))
    } else if !is_blank(default_dir) {
        Some(String::from_str(default_dir))
    } else {
        None
    }
}

/// The message when N_m3u8DL-RE cannot be found.
pub open spec fn downloader_missing_message() -> Seq<char> {
    "N_m3u8DL-RE 未找到。请在设置中配置工具目录路径，或使用【下载】按钮自动下载。"@
}

/// The message when FFmpeg cannot be found.
pub open spec fn ffmpeg_missing_message() -> Seq<char> {
    "FFmpeg 未找到。请在设置中配置工具目录路径，或使用【下载】按钮自动下载。"@
}

/// Where to look for the program of an engine: its configured path (`None`
/// when that is empty), and the message when it is not found.
pub fn tool_location(engine: ToolId, tools: &ToolConfigs) -> (r: (Option<String>, String))
    ensures
        engine == ToolId::Nm3u8dl ==> {
            &&& (if tools.nm3u8dl.path@.len() > 0 {
                r.0 == Some(tools.nm3u8dl.path)
            } else {
                r.0 is None
            })
            &&& r.1@ == downloader_missing_message()
        },
        engine == ToolId::Ffmpeg ==> {
            &&& (if tools.ffmpeg.ffmpeg_path@.len() > 0 {
                r.0 == Some(tools.ffmpeg.ffmpeg_path)
            } else {
                r.0 is None
            })
            &&& r.1@ == ffmpeg_missing_message()
        },
{
    match engine {
        ToolId::Nm3u8dl => {
            let configured = match none_if_empty(Some(tools.nm3u8dl.path.as_str())) {
                Some(_) => Some(tools.nm3u8dl.path.clone()),
                None => None,
            };
            (
                configured,
                String::from_str(
                    "N_m3u8DL-RE 未找到。请在设置中配置工具目录路径，或使用【下载】按钮自动下载。",
                ),
            )
        },
        ToolId::Ffmpeg => {
            let configured = match none_if_empty(Some(tools.ffmpeg.ffmpeg_path.as_str())) {
                Some(_) => Some(tools.ffmpeg.ffmpeg_path.clone()),
                None => None,
            };
            (
                configured,
                String::from_str(
                    "FFmpeg 未找到。请在设置中配置工具目录路径，或使用【下载】按钮自动下载。",
                ),
            )
        },
    }
}

/// Where to look for ffprobe, in order: the configured ffprobe path, then the
/// configured FFmpeg path (each `None` when empty).
pub fn ffprobe_candidates(ffmpeg: &FfmpegConfig) -> (r: (Option<String>, Option<String>))
    ensures
        (if ffmpeg.ffprobe_path@.len() > 0 {
            r.0 == Some(ffmpeg.ffprobe_path)
        } else {
            r.0 is None
        }),
        (if ffmpeg.ffmpeg_path@.len() > 0 {
            r.1 == Some(ffmpeg.ffmpeg_path)
        } else {
            r.1 is None
        }),
{
    let probe = match none_if_empty(Some(ffmpeg.ffprobe_path.as_str())) {
        Some(_) => Some(ffmpeg.ffprobe_path.clone()),
        None => None,
    };
    let mpeg = match none_if_empty(Some(ffmpeg.ffmpeg_path.as_str())) {
        Some(_) => Some(ffmpeg.ffmpeg_path.clone()),
        None => None,
    };
    (probe, mpeg)
}

/// The container of a download: the task's override, else FFmpeg's default.
pub fn mux_format_for(overrides: &TaskOverrides, ffmpeg: &FfmpegConfig) -> (r: MuxFormat)
    ensures
        r == match overrides.mux_format {
            Some(f) => f,
            None => ffmpeg.mux_format,
        },
{
    match overrides.mux_format {
        Some(f) => f,
        None => ffmpeg.mux_format,
    }
}

// ---------------------------------------------------------------------
// End of a download
// ---------------------------------------------------------------------

/// What to report when a download process ends.
#[derive(Debug)]
pub enum Completion {
    /// Done; the output is the save directory joined with the file name
    /// (direct downloads name their output exactly).
    OutputAtSaveName,
    /// Done; the output has to be looked for (the stream downloader may
    /// change the file name).
    FindOutput,
    /// Failed with this message.
    Failed(String),
}

/// Decides what a finished download reports.
pub fn completion(engine: ToolId, success: bool, error_msg: Option<String>) -> (r: Completion)
    ensures
        success && engine == ToolId::Ffmpeg ==> r is OutputAtSaveName,
        success && engine == ToolId::Nm3u8dl ==> r is FindOutput,
        !success ==> (r matches Completion::Failed(m) && m@ == match error_msg {
            Some(e) => e@,
            None => "未知错误"@,
        }),
{
    if success {
        match engine {
            ToolId::Ffmpeg => Completion::OutputAtSaveName,
            ToolId::Nm3u8dl => Completion::FindOutput,
        }
    } else {
        match error_msg {
            Some(e) => Completion::Failed(e),
            None => Completion::Failed(String::from_str("未知错误")),
        }
    }
}

/// The error of a failed parse run: "解析失败: " and what the process wrote
/// to its error stream, or to its output when the error stream is empty.
pub fn parse_failure_message(stdout: &str, stderr: &str) -> (r: String)
    ensures
        r@ == "解析失败: "@ + (if stderr@.len() == 0 {
            stdout@
        } else {
            stderr@
        }),
{
    let shown = if stderr.is_empty() {
        stdout
    } else {
        stderr
    };
    String::from_str("解析失败: ").concat(shown)
}

// ---------------------------------------------------------------------
// The output file
// ---------------------------------------------------------------------

/// The extensions the output may have, for the container named in the mux
/// option (as written by the user).
pub open spec fn possible_extensions(mux_format: Option<Seq<char>>) -> Seq<Seq<char>> {
    if mux_format == Some("mp4"@) {
        seq!["mp4"@]
    } else if mux_format == Some("mkv"@) {
        seq!["mkv"@]
    } else {
        seq!["mp4"@, "mkv"@, "ts"@, "m4a"@, "m4v"@, "webm"@]
    }
}

/// The extensions the output may have, most likely first.
pub fn get_possible_extensions(mux_format: Option<&str>) -> (r: Vec<&'static str>)
    ensures
        r@.map_values(|e: &str| e@) == possible_extensions(
            match mux_format {
                Some(f) => Some(f@),
                None => None,
            },
        ),
{
    let (is_mp4, is_mkv) = match mux_format {
        Some(f) => (str_eq(f, "mp4"), str_eq(f, "mkv")),
        None => (false, false),
    };
    let r = if is_mp4 {
        vec!["mp4"]
    } else if is_mkv {
        vec!["mkv"]
    } else {
        vec!["mp4", "mkv", "ts", "m4a", "m4v", "webm"]
    };
    proof {
        reveal_strlit("mp4");
        reveal_strlit("mkv");
        assert(r@.map_values(|e: &str| e@) =~= possible_extensions(
            match mux_format {
                Some(f) => Some(f@),
                None => None,
            },
        ));
    }
    r
}

/// The extensions of media files (lowercase).
pub open spec fn media_extensions() -> Seq<Seq<char>> {
    seq![
        "mp4"@, "mkv"@, "ts"@, "m4a"@, "m4v"@, "webm"@, "avi"@, "mov"@, "flv"@, "wmv"@,
        "m2ts"@, "vob"@, "mp3"@, "aac"@, "ogg"@, "flac"@, "wav"@, "srt"@, "vtt"@, "ass"@,
    ]
}

fn media_extension(i: usize) -> (r: &'static str)
    requires
        i < 20,
    ensures
        r@ == media_extensions()[i as int],
{
    match i {
        0 => "mp4",
        1 => "mkv",
        2 => "ts",
        3 => "m4a",
        4 => "m4v",
        5 => "webm",
        6 => "avi",
        7 => "mov",
        8 => "flv",
        9 => "wmv",
        10 => "m2ts",
        11 => "vob",
        12 => "mp3",
        13 => "aac",
        14 => "ogg",
        15 => "flac",
        16 => "wav",
        17 => "srt",
        18 => "vtt",
        _ => "ass",
    }
}

/// A file with this extension (if it has one) is a media file: its
/// lowercase form is one of the media extensions.
pub open spec fn is_media_extension(ext: Option<Seq<char>>) -> bool {
    match ext {
        Some(e) => media_extensions().contains(lowercase_of(e)),
        None => false,
    }
}

/// Whether a file with extension `ext` is a media file (video, audio or
/// subtitles), ignoring case.
pub fn is_media_file(ext: Option<&str>) -> (r: bool)
    ensures
        r == is_media_extension(
            match ext {
                Some(e) => Some(e@),
                None => None,
            },
        ),
{
    let e = match ext {
        Some(e) => e,
        None => return false,
    };
    let lower = to_lowercase(e);
    let mut i: usize = 0;
    while i < 20
        invariant
            i <= 20,
            ext == Some(e),
            lower@ == lowercase_of(e@),
            forall|j: int| 0 <= j < i ==> media_extensions()[j] != lower@,
        decreases 20 - i,
    {
        if str_eq(lower.as_str(), media_extension(i)) {
            proof {
                assert(media_extensions()[i as int] == lower@);
                assert(media_extensions().contains(lower@));
            }
            return true;
        }
        i = i + 1;
    }
    proof {
        assert forall|j: int| 0 <= j < media_extensions().len() implies media_extensions()[j]
            != lower@ by {}
    }
    false
}

// ---------------------------------------------------------------------
// Finding the output file
// ---------------------------------------------------------------------

/// What is known of one entry of the save directory.
#[derive(Debug, Clone)]
pub struct DirEntryInfo {
    /// File name.
    pub name: String,
    /// Whether it is a media file.
    pub is_media: bool,
    /// Modification time in nanoseconds from the Unix epoch (`None` when
    /// unknown, which sorts before any known time).
    pub modified: Option<i128>,
}

/// Modification time `a` is not later than `b` (unknown is earliest).
pub open spec fn not_later(a: Option<i128>, b: Option<i128>) -> bool {
    match (a, b) {
        (None, _) => true,
        (Some(_), None) => false,
        (Some(x), Some(y)) => x <= y,
    }
}

/// An entry is a candidate output: a media file whose name starts with the
/// save name, when one is given.
pub open spec fn is_candidate(e: DirEntryInfo, prefix: Option<Seq<char>>) -> bool {
    e.is_media && match prefix {
        Some(p) => starts_with(e.name@, p),
        None => true,
    }
}

/// `i` is the newest candidate (the first of equally new ones, as a stable
/// sort by time, newest first, puts it first).
pub open spec fn is_newest(entries: Seq<DirEntryInfo>, prefix: Option<Seq<char>>, i: int) -> bool {
    &&& 0 <= i < entries.len()
    &&& is_candidate(entries[i], prefix)
    &&& forall|j: int|
        0 <= j < entries.len() && is_candidate(#[trigger] entries[j], prefix) ==> not_later(
            entries[j].modified,
            entries[i].modified,
        )
    &&& forall|j: int|
        0 <= j < i && is_candidate(#[trigger] entries[j], prefix) ==> !not_later(
            entries[i].modified,
            entries[j].modified,
        )
}

fn later(a: Option<i128>, b: Option<i128>) -> (r: bool)
    ensures
        r == !not_later(a, b),
{
    match (a, b) {
        (None, _) => false,
        (Some(_), None) => true,
        (Some(x), Some(y)) => x > y,
    }
}

/// The newest candidate output among the entries, if any.
pub fn newest_candidate(entries: &Vec<DirEntryInfo>, prefix: Option<&str>) -> (r: Option<usize>)
    ensures
        match r {
            Some(i) => is_newest(
                entries@,
                match prefix {
                    Some(p) => Some(p@),
                    None => None,
                },
                i as int,
            ),
            None => forall|j: int|
                0 <= j < entries@.len() ==> !is_candidate(
                    #[trigger] entries@[j],
                    match prefix {
                        Some(p) => Some(p@),
                        None => None,
                    },
                ),
        },
{
    let ghost pre = match prefix {
        Some(p) => Some(p@),
        None => None,
    };
    let pchars = match prefix {
        Some(p) => Some(chars_of(p)),
        None => None,
    };
    let mut best: Option<usize> = None;
    let mut i: usize = 0;
    while i < entries.len()
        invariant
            i <= entries.len(),
            pre == match prefix {
                Some(p) => Some(p@),
                None => None,
            },
            match pchars {
                Some(c) => pre == Some(c@),
                None => pre is None,
            },
            match best {
                Some(b) => b < i && is_candidate(entries@[b as int], pre) && (forall|j: int|
                    0 <= j < i && is_candidate(#[trigger] entries@[j], pre) ==> not_later(
                        entries@[j].modified,
                        entries@[b as int].modified,
                    )) && (forall|j: int|
                    0 <= j < b && is_candidate(#[trigger] entries@[j], pre) ==> !not_later(
                        entries@[b as int].modified,
                        entries@[j].modified,
                    )),
                None => forall|j: int| 0 <= j < i ==> !is_candidate(#[trigger] entries@[j], pre),
            },
        decreases entries.len() - i,
    {
        let e = &entries[i];
        let matches_prefix = match &pchars {
            Some(c) => starts_with_chars(&chars_of(e.name.as_str()), c),
            None => true,
        };
        if e.is_media && matches_prefix {
            assert(is_candidate(entries@[i as int], pre));
            match best {
                None => {
                    best = Some(i);
                },
                Some(b) => {
                    if later(e.modified, entries[b].modified) {
                        best = Some(i);
                    }
                },
            }
        }
        i = i + 1;
    }
    best
}

/// The output file of a stream download.
#[derive(Debug, Clone, Copy, PartialEq, Eq, Structural)]
pub enum OutputPick {
    /// The save directory does not exist: nothing.
    Nothing,
    /// The save name itself, an existing media file.
    Exact,
    /// The save name with the possible extension of this index.
    WithExtension(usize),
    /// The directory entry of this index.
    Entry(usize),
    /// Nothing found: the save name with the first possible extension.
    Expected,
}

/// The index of the first `true`.
pub open spec fn first_true(s: Seq<bool>) -> Option<int> {
    if exists|i: int| 0 <= i < s.len() && s[i] {
        Some(choose|i: int| 0 <= i < s.len() && s[i] && forall|j: int| 0 <= j < i ==> !s[j])
    } else {
        None
    }
}

fn first_true_index(s: &Vec<bool>) -> (r: Option<usize>)
    ensures
        match r {
            Some(i) => first_true(s@) == Some(i as int),
            None => first_true(s@) is None,
        },
{
    let mut i: usize = 0;
    while i < s.len()
        invariant
            i <= s.len(),
            forall|j: int| 0 <= j < i ==> !s@[j],
        decreases s.len() - i,
    {
        if s[i] {
            proof {
                let w = |k: int| 0 <= k < s@.len() && s@[k] && forall|j: int| 0 <= j < k ==> !s@[j];
                assert(w(i as int));
                let k = choose|k: int| 0 <= k < s@.len() && s@[k] && forall|j: int| 0 <= j < k ==> !s@[j];
                assert(0 <= k < s@.len() && s@[k] && forall|j: int| 0 <= j < k ==> !s@[j]);
                if k < i {
                    assert(!s@[k]);
                } else if k > i {
                    assert(!s@[i as int]);
                }
            }
            return Some(i);
        }
        i = i + 1;
    }
    None
}

/// Where the output of a stream download is (the downloader may change the
/// file name): with a save name, the name itself when it is an existing media
/// file, else the name with the first possible extension that exists, else
/// the newest media file whose name starts with it; then, with or without a
/// save name, the newest media file of the directory; else the name with the
/// first possible extension (nothing without a name).
///
/// `exact_is_media` says whether the save name exists as a media file,
/// `with_extension[i]` whether the name with the `i`-th possible extension
/// exists, and `entries` lists the directory.
pub fn pick_output_file(
    dir_exists: bool,
    save_name: Option<&str>,
    exact_is_media: bool,
    with_extension: &Vec<bool>,
    entries: &Vec<DirEntryInfo>,
) -> (r: OutputPick)
    ensures
        !dir_exists ==> r == OutputPick::Nothing,
        dir_exists && save_name is Some && exact_is_media ==> r == OutputPick::Exact,
        dir_exists && save_name is Some && !exact_is_media && first_true(with_extension@) is Some
            ==> r == OutputPick::WithExtension(first_true(with_extension@).unwrap() as usize),
        r matches OutputPick::Entry(i) ==> dir_exists && (is_newest(
            entries@,
            match save_name {
                Some(p) => Some(p@),
                None => None,
            },
            i as int,
        ) || is_newest(entries@, None, i as int)),
        dir_exists && save_name is None ==> match r {
            OutputPick::Entry(i) => is_newest(entries@, None, i as int),
            _ => r == OutputPick::Nothing && forall|j: int|
                0 <= j < entries@.len() ==> !is_candidate(#[trigger] entries@[j], None),
        },
        r == OutputPick::Expected ==> dir_exists && save_name is Some && forall|j: int|
            0 <= j < entries@.len() ==> !is_candidate(#[trigger] entries@[j], None),
        dir_exists && save_name is Some && !exact_is_media && first_true(with_extension@) is None
            ==> match newest_of(entries@, prefix_view(save_name)) {
            Some(i) => r == OutputPick::Entry(i as usize),
            None => match newest_of(entries@, None) {
                Some(i) => r == OutputPick::Entry(i as usize),
                None => r == OutputPick::Expected,
            },
        },
{
    if !dir_exists {
        return OutputPick::Nothing;
    }
    if let Some(name) = save_name {
        if exact_is_media {
            return OutputPick::Exact;
        }
        if let Some(i) = first_true_index(with_extension) {
            return OutputPick::WithExtension(i);
        }
        if let Some(i) = newest_candidate(entries, Some(name)) {
            proof {
                lemma_newest_unique(entries@, Some(name@), i as int);
                assert(is_newest(entries@, Some(name@), i as int));
                let k = choose|k: int| is_newest(entries@, Some(name@), k);
                assert(is_newest(entries@, Some(name@), k));
                assert(k == i);
                assert(prefix_view(save_name) == Some(name@));
            }
            return OutputPick::Entry(i);
        }
        proof {
            lemma_no_newest(entries@, Some(name@));
        }
    }
    if let Some(i) = newest_candidate(entries, None) {
        proof {
            lemma_newest_unique(entries@, None, i as int);
            assert(is_newest(entries@, None, i as int));
            let k = choose|k: int| is_newest(entries@, None, k);
            assert(is_newest(entries@, None, k));
        }
        return OutputPick::Entry(i);
    }
    proof {
        lemma_no_newest(entries@, None);
    }
    match save_name {
        Some(_) => OutputPick::Expected,
        None => OutputPick::Nothing,
    }
}

/// The characters of a prefix that may be absent.
pub open spec fn prefix_view(prefix: Option<&str>) -> Option<Seq<char>> {
    match prefix {
        Some(s) => Some(s@),
        None => None,
    }
}

/// The newest candidate, if any.
pub open spec fn newest_of(entries: Seq<DirEntryInfo>, p: Option<Seq<char>>) -> Option<int> {
    if exists|i: int| is_newest(entries, p, i) {
        Some(choose|i: int| is_newest(entries, p, i))
    } else {
        None
    }
}

/// The newest candidate is unique.
proof fn lemma_newest_unique(entries: Seq<DirEntryInfo>, p: Option<Seq<char>>, i: int)
    requires
        is_newest(entries, p, i),
    ensures
        forall|k: int| is_newest(entries, p, k) ==> k == i,
{
    assert forall|k: int| is_newest(entries, p, k) implies k == i by {
        if k < i {
            assert(not_later(entries[i].modified, entries[k].modified));
        } else if k > i {
            assert(not_later(entries[k].modified, entries[i].modified));
        }
    }
}

/// Without candidates there is no newest one.
proof fn lemma_no_newest(entries: Seq<DirEntryInfo>, p: Option<Seq<char>>)
    requires
        forall|j: int| 0 <= j < entries.len() ==> !is_candidate(#[trigger] entries[j], p),
    ensures
        forall|k: int| !is_newest(entries, p, k),
{
}

// ---------------------------------------------------------------------
// Command lines given by the front end
// ---------------------------------------------------------------------

/// The message when no N_m3u8DL-RE path is configured.
pub open spec fn program_missing_message() -> Seq<char> {
    "N_m3u8DL-RE 路径未配置，请在设置中配置 N_m3u8DL-RE 的绝对路径"@
}

/// The configured N_m3u8DL-RE program, which must be given and not empty.
pub fn require_program_path(path: Option<String>) -> (r: Result<String, String>)
    ensures
        match path {
            Some(p) => if p@.len() > 0 {
                r == Ok::<String, String>(p)
            } else {
                (r matches Err(m) && m@ == program_missing_message())
            },
            None => (r matches Err(m) && m@ == program_missing_message()),
        },
{
    match path {
        Some(p) => {
            if !p.as_str().is_empty() {
                return Ok(p);
            }
        },
        None => {},
    }
    Err(String::from_str("N_m3u8DL-RE 路径未配置，请在设置中配置 N_m3u8DL-RE 的绝对路径"))
}

/// The first argument that starts with `-M`, if any.
pub open spec fn mux_flag_at(args: Seq<Seq<char>>, i: int) -> bool {
    0 <= i < args.len() && starts_with(args[i], "-M"@) && forall|j: int|
        0 <= j < i ==> !starts_with(args[j], "-M"@)
}

/// The first `:`-separated part that starts with `format=`.
pub open spec fn format_part_at(parts: Seq<Seq<char>>, i: int) -> bool {
    0 <= i < parts.len() && starts_with(parts[i], "format="@) && forall|j: int|
        0 <= j < i ==> !starts_with(parts[j], "format="@)
}

/// The container named on a command line: the argument after the first one
/// starting with `-M`, split at `:`, the first part starting with `format=`,
/// without that prefix and lowercased.
pub open spec fn mux_format_in(args: Seq<Seq<char>>) -> Option<Seq<char>> {
    if exists|i: int| mux_flag_at(args, i) {
        let i = choose|i: int| mux_flag_at(args, i);
        if i + 1 < args.len() {
            let parts = split_char(args[i + 1], ':');
            if exists|k: int| format_part_at(parts, k) {
                let k = choose|k: int| format_part_at(parts, k);
                Some(lowercase_of(parts[k].skip(7)))
            } else {
                None
            }
        } else {
            None
        }
    } else {
        None
    }
}

/// The container named by the `-M` option of a command line, lowercased.
pub fn mux_format_from_args(args: &Vec<String>) -> (r: Option<String>)
    ensures
        match r {
            Some(f) => mux_format_in(string_views(args@)) == Some(f@),
            None => mux_format_in(string_views(args@)) is None,
        },
{
    let ghost a = string_views(args@);
    let flag = chars_of("-M");
    let mut i: usize = 0;
    while i < args.len()
        invariant
            i <= args.len(),
            a == string_views(args@),
            flag@ == "-M"@,
            forall|j: int| 0 <= j < i ==> !starts_with(#[trigger] a[j], "-M"@),
        decreases args.len() - i,
    {
        if starts_with_chars(&chars_of(args[i].as_str()), &flag) {
            proof {
                assert(a[i as int] == args@[i as int]@);
                assert(mux_flag_at(a, i as int));
                let c = choose|c: int| mux_flag_at(a, c);
                if c < i {
                    assert(!starts_with(a[c], "-M"@));
                } else if c > i {
                    assert(!starts_with(a[i as int], "-M"@));
                }
                assert(c == i);
            }
            if i + 1 >= args.len() {
                return None;
            }
            let parts = split_chars(&chars_of(args[i + 1].as_str()), ':');
            let ghost ps = split_char(a[i + 1], ':');
            proof {
                assert(a[i + 1] == args@[i + 1]@);
                assert(parts@.len() == ps.len());
            }
            let prefix = chars_of("format=");
            let mut k: usize = 0;
            while k < parts.len()
                invariant
                    k <= parts.len(),
                    a == string_views(args@),
                    i + 1 < args@.len(),
                    mux_flag_at(a, i as int),
                    (choose|c: int| mux_flag_at(a, c)) == i,
                    ps == split_char(a[i + 1], ':'),
                    piece_views(parts@) == ps,
                    prefix@ == "format="@,
                    forall|j: int| 0 <= j < k ==> !starts_with(#[trigger] ps[j], "format="@),
                decreases parts.len() - k,
            {
                if starts_with_chars(&parts[k], &prefix) {
                    proof {
                        assert(ps[k as int] == parts@[k as int]@);
                        assert(format_part_at(ps, k as int));
                        let c = choose|c: int| format_part_at(ps, c);
                        if c < k {
                            assert(!starts_with(ps[c], "format="@));
                        } else if c > k {
                            assert(!starts_with(ps[k as int], "format="@));
                        }
                        reveal_strlit("format=");
                    }
                    let p = &parts[k];
                    let rest = string_of_chars(&sub_chars(p, 7, p.len()));
                    proof {
                        assert(p@.subrange(7, p@.len() as int) =~= p@.skip(7));
                    }
                    return Some(to_lowercase(rest.as_str()));
                }
                proof {
                    assert(ps[k as int] == parts@[k as int]@);
                }
                k = k + 1;
            }
            return None;
        }
        proof {
            assert(a[i as int] == args@[i as int]@);
        }
        i = i + 1;
    }
    None
}

/// The FFmpeg program: the configured path when not empty, else `ffmpeg`
/// from the search path.
pub fn ffmpeg_program(path: Option<String>) -> (r: String)
    ensures
        match path {
            Some(p) => if p@.len() > 0 {
                r == p
            } else {
                r@ == "ffmpeg"@
            },
            None => r@ == "ffmpeg"@,
        },
{
    match path {
        Some(p) => {
            if !p.as_str().is_empty() {
                return p;
            }
        },
        None => {},
    }
    String::from_str("ffmpeg")
}

/// The ffprobe next to an FFmpeg program: a path ending with `ffmpeg` or
/// `ffmpeg.exe` has every `ffmpeg` in it replaced by `ffprobe`; any other
/// path, without trailing `.exe`s, gets `probe` appended.
pub open spec fn ffprobe_path_of(ffmpeg: Seq<char>) -> Seq<char> {
    if ends_with(ffmpeg, "ffmpeg.exe"@) || ends_with(ffmpeg, "ffmpeg"@) {
        replace_all(ffmpeg, "ffmpeg"@, "ffprobe"@)
    } else {
        strip_suffixes(ffmpeg, ".exe"@) + "probe"@
    }
}

/// The ffprobe program that goes with an FFmpeg program.
pub fn ffprobe_path_for(ffmpeg: &str) -> (r: String)
    ensures
        r@ == ffprobe_path_of(ffmpeg@),
{
    let f = chars_of(ffmpeg);
    proof {
        reveal_strlit("ffmpeg");
        reveal_strlit(".exe");
    }
    if ends_with_chars(&f, &chars_of("ffmpeg.exe")) || ends_with_chars(&f, &chars_of("ffmpeg")) {
        string_of_chars(&replace_all_chars(&f, &chars_of("ffmpeg"), &chars_of("ffprobe")))
    } else {
        string_of_chars(&strip_suffixes_chars(&f, &chars_of(".exe"))).concat("probe")
    }
}

/// The message for a URL that is neither a stream nor a direct media file.
pub open spec fn unsupported_url_message() -> Seq<char> {
    "不支持的 URL 格式。请输入 M3U8、DASH 或 MSS 流媒体链接。"@
}

/// How a URL is parsed.
#[derive(Debug, Clone, Copy, PartialEq, Eq, Structural)]
pub enum ParseRoute {
    /// A direct media file: probed with ffprobe.
    Probe,
    /// A stream: listed by N_m3u8DL-RE.
    Listing,
}

/// Decides how a URL of the given type is parsed; neither a stream nor a
/// direct media file is refused.
pub fn parse_route(url_type: UrlType) -> (r: Result<ParseRoute, String>)
    ensures
        url_type == UrlType::HttpVideo ==> r == Ok::<ParseRoute, String>(ParseRoute::Probe),
        is_streaming_type(url_type) ==> r == Ok::<ParseRoute, String>(ParseRoute::Listing),
        url_type == UrlType::Unknown ==> (r matches Err(m) && m@ == unsupported_url_message()),
{
    if url_type.needs_ffmpeg() {
        Ok(ParseRoute::Probe)
    } else if !url_type.is_streaming() {
        Err(String::from_str("不支持的 URL 格式。请输入 M3U8、DASH 或 MSS 流媒体链接。"))
    } else {
        Ok(ParseRoute::Listing)
    }
}

/// The URL of a parse command line: its first argument (empty without one).
pub fn url_of_args(args: &Vec<String>) -> (r: String)
    ensures
        args@.len() > 0 ==> r == args@[0],
        args@.len() == 0 ==> r@ == Seq::<char>::empty(),
{
    if args.len() > 0 {
        args[0].clone()
    } else {
        String::new()
    }
}

/// The FFmpeg command line of a direct download: read `url`, copy the
/// streams without re-encoding, overwrite `output`.
pub fn http_download_args(url: String, output: String) -> (r: Vec<String>)
    ensures
        r@.map_values(|a: String| a@) == seq!["-i"@, url@, "-c"@, "copy"@, "-y"@, output@],
{
    let r = vec![
        String::from_str("-i"),
        url,
        String::from_str("-c"),
        String::from_str("copy"),
        String::from_str("-y"),
        output,
    ];
    proof {
        assert(r@.map_values(|a: String| a@) =~= seq!["-i"@, r@[1]@, "-c"@, "copy"@, "-y"@, r@[5]@]);
    }
    r
}

/// The type of a URL, by the name the front end knows it by.
pub fn detect_url_type(url: &str) -> (r: String)
    ensures
        r@ == url_type_name(url_kind(lowercase_of(url@))),
{
    String::from_str(UrlType::detect(url).name())
}

/// The arguments of a parse run with the placeholder `streamgrab_parse`
/// replaced by the directory the listing is written to.
pub open spec fn with_parse_dir(args: Seq<Seq<char>>, dir: Seq<char>) -> Seq<Seq<char>> {
    args.map_values(|a: Seq<char>| if a == "streamgrab_parse"@ {
        dir
    } else {
        a
    })
}

/// Replaces the parse placeholder among the arguments.
pub fn substitute_parse_dir(args: &Vec<String>, dir: &str) -> (r: Vec<String>)
    ensures
        string_views(r@) == with_parse_dir(string_views(args@), dir@),
{
    let mut out: Vec<String> = Vec::new();
    let mut i: usize = 0;
    while i < args.len()
        invariant
            i <= args.len(),
            string_views(out@) == with_parse_dir(string_views(args@.take(i as int)), dir@),
        decreases args.len() - i,
    {
        let a = &args[i];
        let next = if str_eq(a.as_str(), "streamgrab_parse") {
            String::from_str(dir)
        } else {
            a.clone()
        };
        let ghost before = string_views(out@);
        out.push(next);
        proof {
            assert(string_views(out@) =~= before.push(next@));
            assert(args@.take(i + 1) =~= args@.take(i as int).push(args@[i as int]));
            assert(string_views(args@.take(i + 1)) =~= string_views(args@.take(i as int)).push(a@));
            assert(with_parse_dir(string_views(args@.take(i + 1)), dir@) =~= with_parse_dir(
                string_views(args@.take(i as int)),
                dir@,
            ).push(next@));
        }
        i = i + 1;
    }
    proof {
        assert(args@.take(args@.len() as int) =~= args@);
    }
    out
}

} // verus!
