//! The version a tool reports on its command line.

use vstd::prelude::*;

use super::release::ToolInfo;
use crate::text::{
    capture, chars_of, contains_chars, contains_seq, lines, lines_of, lowercase_of, piece_views, regex_capture,
    string_of_chars, to_lowercase, words, words_of,
};

verus! {

/// The first dotted version number (`\d+\.\d+\.\d+`) in a line, as the
/// `regex` crate finds it.
pub open spec fn version_number_in(line: Seq<char>) -> Option<Seq<char>> {
    regex_capture("(\\d+\\.\\d+\\.\\d+)"@, line, 1)
}

/// The leftmost dotted version number in the line.
fn find_version_number(line: &str) -> (r: Option<String>)
    ensures
        match r {
            Some(v) => version_number_in(line@) == Some(v@),
            None => version_number_in(line@) is None,
        },
{
    capture("(\\d+\\.\\d+\\.\\d+)", line, 1)
}

/// The version after "ffmpeg version" in FFmpeg's banner line, as the `regex`
/// crate finds it.
pub open spec fn ffmpeg_banner_version(line: Seq<char>) -> Option<Seq<char>> {
    regex_capture("ffmpeg\\s+version\\s+(\\d+\\.\\d+(?:\\.\\d+)?)"@, line, 1)
}

/// The version after "ffmpeg version" in a line.
fn find_ffmpeg_version(line: &str) -> (r: Option<String>)
    ensures
        match r {
            Some(v) => ffmpeg_banner_version(line@) == Some(v@),
            None => ffmpeg_banner_version(line@) is None,
        },
{
    capture("ffmpeg\\s+version\\s+(\\d+\\.\\d+(?:\\.\\d+)?)", line, 1)
}

/// Word `i` holds "version" (ignoring case) and another word follows it.
pub open spec fn version_word_at(ws: Seq<Seq<char>>, i: int) -> bool {
    0 <= i && i + 1 < ws.len() && contains_seq(lowercase_of(ws[i]), "version"@)
}

/// The first such word.
pub open spec fn first_version_word(ws: Seq<Seq<char>>, i: int) -> bool {
    version_word_at(ws, i) && forall|j: int| 0 <= j < i ==> !version_word_at(ws, j)
}

/// The version an output line of N_m3u8DL-RE gives: on a line mentioning
/// "version" or "Version", the word after the first word holding "version",
/// else the first dotted version number of the line.
pub open spec fn line_version(line: Seq<char>) -> Option<Seq<char>> {
    if contains_seq(line, "version"@) || contains_seq(line, "Version"@) {
        let ws = words_of(line);
        if exists|i: int| first_version_word(ws, i) {
            Some(ws[(choose|i: int| first_version_word(ws, i)) + 1])
        } else {
            version_number_in(line)
        }
    } else {
        None
    }
}

/// The first present value, in order.
pub open spec fn first_present(s: Seq<Option<Seq<char>>>) -> Option<Seq<char>>
    decreases s.len(),
{
    if s.len() == 0 {
        None
    } else {
        match s[0] {
            Some(v) => Some(v),
            None => first_present(s.drop_first()),
        }
    }
}

/// The version N_m3u8DL-RE reports: from its output lines first, then the
/// first dotted version number of its error lines.
pub open spec fn nm3u8dl_version(stdout: Seq<char>, stderr: Seq<char>) -> Option<Seq<char>> {
    match first_present(lines_of(stdout).map_values(|l: Seq<char>| line_version(l))) {
        Some(v) => Some(v),
        None => first_present(lines_of(stderr).map_values(|l: Seq<char>| version_number_in(l))),
    }
}

/// The version on one output line of N_m3u8DL-RE, if any.
fn version_of_line(line: &Vec<char>) -> (r: Option<String>)
    ensures
        match r {
            Some(v) => line_version(line@) == Some(v@),
            None => line_version(line@) is None,
        },
{
    if !(contains_chars(line, &chars_of("version")) || contains_chars(line, &chars_of("Version"))) {
        return None;
    }
    let ws = words(line);
    let ghost wv = words_of(line@);
    let mut i: usize = 0;
    while ws.len() > 1 && i < ws.len() - 1
        invariant
            piece_views(ws@) == wv,
            wv == words_of(line@),
            contains_seq(line@, "version"@) || contains_seq(line@, "Version"@),
            i <= ws.len(),
            forall|j: int| 0 <= j < i ==> !version_word_at(wv, j),
        decreases ws.len() - i,
    {
        let lower = to_lowercase(string_of_chars(&ws[i]).as_str());
        proof {
            assert(ws@[i as int]@ == wv[i as int]);
        }
        if contains_chars(&chars_of(lower.as_str()), &chars_of("version")) {
            proof {
                assert(version_word_at(wv, i as int));
                assert(first_version_word(wv, i as int));
                let k = choose|k: int| first_version_word(wv, k);
                if k < i {
                    assert(!version_word_at(wv, k));
                } else if k > i {
                    assert(!version_word_at(wv, i as int));
                }
                assert(ws@[i + 1]@ == wv[i + 1]);
            }
            return Some(string_of_chars(&ws[i + 1]));
        }
        i = i + 1;
    }
    proof {
        assert forall|j: int| !first_version_word(wv, j) by {
            if 0 <= j < i {
            } else if j >= i {
                assert(!version_word_at(wv, j));
            }
        }
    }
    find_version_number(string_of_chars(line).as_str())
}

/// Reads the version N_m3u8DL-RE prints.
pub fn parse_nm3u8dl_version(stdout: &str, stderr: &str) -> (r: Option<String>)
    ensures
        match r {
            Some(v) => nm3u8dl_version(stdout@, stderr@) == Some(v@),
            None => nm3u8dl_version(stdout@, stderr@) is None,
        },
{
    let out = lines(stdout);
    let ghost lo = lines_of(stdout@);
    let ghost vo = lo.map_values(|l: Seq<char>| line_version(l));
    let mut i: usize = 0;
    proof {
        assert(vo.skip(0) =~= vo);
    }
    while i < out.len()
        invariant
            piece_views(out@) == lo,
            lo == lines_of(stdout@),
            vo == lo.map_values(|l: Seq<char>| line_version(l)),
            i <= out.len(),
            first_present(vo) == first_present(vo.skip(i as int)),
        decreases out.len() - i,
    {
        proof {
            assert(out@[i as int]@ == lo[i as int]);
            assert(vo.skip(i as int).drop_first() =~= vo.skip(i + 1));
        }
        match version_of_line(&out[i]) {
            Some(v) => {
                return Some(v);
            },
            None => {},
        }
        i = i + 1;
    }
    proof {
        assert(vo.skip(i as int).len() == 0);
    }
    let err = lines(stderr);
    let ghost le = lines_of(stderr@);
    let ghost ve = le.map_values(|l: Seq<char>| version_number_in(l));
    let mut k: usize = 0;
    proof {
        assert(ve.skip(0) =~= ve);
    }
    while k < err.len()
        invariant
            piece_views(err@) == le,
            le == lines_of(stderr@),
            ve == le.map_values(|l: Seq<char>| version_number_in(l)),
            first_present(vo) is None,
            vo == lines_of(stdout@).map_values(|l: Seq<char>| line_version(l)),
            k <= err.len(),
            first_present(ve) == first_present(ve.skip(k as int)),
        decreases err.len() - k,
    {
        proof {
            assert(err@[k as int]@ == le[k as int]);
            assert(ve.skip(k as int).drop_first() =~= ve.skip(k + 1));
        }
        match find_version_number(string_of_chars(&err[k]).as_str()) {
            Some(v) => {
                return Some(v);
            },
            None => {},
        }
        k = k + 1;
    }
    None
}

/// The version in FFmpeg's banner: what follows "ffmpeg version" on its
/// first output line.
pub open spec fn ffmpeg_version(stdout: Seq<char>) -> Option<Seq<char>> {
    if lines_of(stdout).len() == 0 {
        None
    } else {
        ffmpeg_banner_version(lines_of(stdout)[0])
    }
}

/// Reads the version FFmpeg prints.
pub fn parse_ffmpeg_version(stdout: &str) -> (r: Option<String>)
    ensures
        match r {
            Some(v) => ffmpeg_version(stdout@) == Some(v@),
            None => ffmpeg_version(stdout@) is None,
        },
{
    let ls = lines(stdout);
    if ls.len() == 0 {
        return None;
    }
    proof {
        assert(ls@[0]@ == lines_of(stdout@)[0]);
    }
    find_ffmpeg_version(string_of_chars(&ls[0]).as_str())
}

/// What running a tool's version command gave: its output and error
/// streams, or why it could not be run.
pub type VersionRun = Result<(String, String), String>;

/// The message when a tool is neither configured nor on the search path.
pub open spec fn not_found_message(tool_name: Seq<char>) -> Seq<char> {
    tool_name + " 未找到，请配置路径"@
}

/// The error when a tool is neither configured nor on the search path.
pub fn tool_not_found(tool_name: &str) -> (r: String)
    ensures
        r@ == not_found_message(tool_name@),
{
    String::from_str(tool_name).concat(" 未找到，请配置路径")
}

/// The information about a tool at `path`: not installed when the file does
/// not exist ("文件不存在") or its version command could not be run
/// ("执行失败: " and why); else installed, with the version read from the
/// command's streams by `nm3u8dl` (N_m3u8DL-RE) or else FFmpeg's reader.
pub fn tool_info(tool_name: &str, path: String, exists: bool, run: VersionRun, nm3u8dl: bool) -> (r:
    ToolInfo)
    ensures
        r.name@ == tool_name@,
        r.path == Some(path),
        !exists ==> !r.installed && r.version is None && (r.error matches Some(e) && e@
            == "文件不存在"@),
        exists ==> match run {
            Ok((out, err)) => {
                &&& r.installed
                &&& r.error is None
                &&& match r.version {
                    Some(v) => Some(v@) == (if nm3u8dl {
                        nm3u8dl_version(out@, err@)
                    } else {
                        ffmpeg_version(out@)
                    }),
                    None => (if nm3u8dl {
                        nm3u8dl_version(out@, err@)
                    } else {
                        ffmpeg_version(out@)
                    }) is None,
                }
            },
            Err(why) => !r.installed && r.version is None && (r.error matches Some(e) && e@
                == "执行失败: "@ + why@),
        },
{
    if !exists {
        return ToolInfo {
            name: String::from_str(tool_name),
            installed: false,
            version: None,
            path: Some(path),
            error: Some(String::from_str("文件不存在")),
        };
    }
    match run {
        Ok((out, err)) => {
            let version = if nm3u8dl {
                parse_nm3u8dl_version(out.as_str(), err.as_str())
            } else {
                parse_ffmpeg_version(out.as_str())
            };
            ToolInfo {
                name: String::from_str(tool_name),
                installed: true,
                version,
                path: Some(path),
                error: None,
            }
        },
        Err(why) => ToolInfo {
            name: String::from_str(tool_name),
            installed: false,
            version: None,
            path: Some(path),
            error: Some(String::from_str("执行失败: ").concat(why.as_str())),
        },
    }
}

} // verus!
