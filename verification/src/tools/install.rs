//! Decisions of tool and update downloads: which tool a name means, where it
//! is installed by default, what a downloaded file is called, and whether a
//! download is complete.

use vstd::prelude::*;

use super::release::{platform_display, platform_name, Platform};
use crate::text::{
    chars_of, contains_chars, contains_seq, decimal_string, int_decimal, lemma_split_char_nonempty,
    lemma_split_char_pieces,
    lowercase_of, split_char, split_chars, string_of_chars, to_lowercase,
};

verus! {

/// A tool name means FFmpeg when its lowercase form holds "ffmpeg".
pub open spec fn names_ffmpeg(tool: Seq<char>) -> bool {
    contains_seq(lowercase_of(tool), "ffmpeg"@)
}

/// Whether a tool name means FFmpeg (else N_m3u8DL-RE), ignoring case.
pub fn is_ffmpeg_tool(tool: &str) -> (r: bool)
    ensures
        r == names_ffmpeg(tool@),
{
    let lower = chars_of(to_lowercase(tool).as_str());
    contains_chars(&lower, &chars_of("ffmpeg"))
}

/// The subdirectory of the tools directory that a tool is installed into
/// when no target directory is given.
pub fn tool_subdir(tool: &str) -> (r: &'static str)
    ensures
        r@ == (if names_ffmpeg(tool@) {
            "ffmpeg"@
        } else {
            "nm3u8dl"@
        }),
{
    if is_ffmpeg_tool(tool) {
        "ffmpeg"
    } else {
        "nm3u8dl"
    }
}

/// The file name of a download: what follows the last `/` of its URL.
pub open spec fn url_file_name_of(url: Seq<char>) -> Seq<char> {
    split_char(url, '/').last()
}

/// The file name of a download never holds a `/`, so it names a file of the
/// target directory itself.
pub proof fn lemma_url_file_name_has_no_slash(url: Seq<char>)
    ensures
        forall|j: int| 0 <= j < url_file_name_of(url).len() ==> url_file_name_of(url)[j] != '/',
{
    lemma_split_char_pieces(url, '/');
    lemma_split_char_nonempty(url, '/');
    let p = split_char(url, '/');
    assert forall|j: int| 0 <= j < url_file_name_of(url).len() implies url_file_name_of(url)[j] != '/' by {
        assert(p[p.len() - 1][j] != '/');
    }
}

/// The file name of a download URL.
pub fn url_file_name(url: &str) -> (r: String)
    ensures
        r@ == url_file_name_of(url@),
{
    let pieces = split_chars(&chars_of(url), '/');
    proof {
        lemma_split_char_nonempty(url@, '/');
        assert(pieces@.len() == split_char(url@, '/').len());
        assert(pieces@[pieces@.len() - 1]@ == split_char(url@, '/').last());
    }
    string_of_chars(&pieces[pieces.len() - 1])
}

/// The message of a download shorter or longer than announced.
pub open spec fn incomplete_message(expected: u64, actual: u64) -> Seq<char> {
    "下载不完整: 期望 "@ + int_decimal(expected as int) + " bytes, 实际 "@ + int_decimal(
        actual as int,
    ) + " bytes"@
}

/// Checks a download against its announced length (none announced: any
/// length is accepted).
pub fn check_download_size(expected: u64, actual: u64) -> (r: Result<(), String>)
    ensures
        expected > 0 && actual != expected ==> (r matches Err(m) && m@ == incomplete_message(
            expected,
            actual,
        )),
        !(expected > 0 && actual != expected) ==> r is Ok,
{
    if expected > 0 && actual != expected {
        return Err(
            String::from_str("下载不完整: 期望 ").concat(
                decimal_string(expected as i128).as_str(),
            ).concat(" bytes, 实际 ").concat(decimal_string(actual as i128).as_str()).concat(
                " bytes",
            ),
        );
    }
    Ok(())
}

/// The message when a release has no asset for this machine.
pub open spec fn missing_asset_message(platform: Platform, arch_keywords: Seq<char>) -> Seq<char> {
    "未找到适合 "@ + platform_display(platform) + " ("@ + arch_keywords + ") 的下载链接"@
}

/// The error when a release has no asset for the platform and architecture.
pub fn missing_asset_error(platform: Platform, arch_keywords: &str) -> (r: String)
    ensures
        r@ == missing_asset_message(platform, arch_keywords@),
{
    String::from_str("未找到适合 ").concat(platform_name(platform)).concat(" (").concat(
        arch_keywords,
    ).concat(") 的下载链接")
}

} // verus!
