//! Checks and decisions made when a downloaded tool archive is installed:
//! the magic number against the file name, the top-level layout of the
//! archive, and the directory it is extracted into.

use vstd::prelude::*;

use crate::text::string_views;

use crate::text::{
    chars_of, ends_with, ends_with_chars, eq_ignore_ascii_case, lowercase_of,
    str_eq_ignore_ascii_case, to_lowercase,
};

verus! {

/// The archive formats the installer reads.
#[derive(Debug, Clone, Copy, PartialEq, Eq, Structural)]
pub enum ArchiveKind {
    /// `.zip`
    Zip,
    /// `.tar.gz` or `.tgz`
    TarGz,
    /// `.tar.xz`
    TarXz,
}

/// The format named by a lowercased file name, if it is one of those read.
pub open spec fn archive_kind_of(lower: Seq<char>) -> Option<ArchiveKind> {
    if ends_with(lower, ".zip"@) {
        Some(ArchiveKind::Zip)
    } else if ends_with(lower, ".tar.gz"@) || ends_with(lower, ".tgz"@) {
        Some(ArchiveKind::TarGz)
    } else if ends_with(lower, ".tar.xz"@) {
        Some(ArchiveKind::TarXz)
    } else {
        None
    }
}

/// The leading bytes start with the magic number of the format: `PK` for
/// zip, `1F 8B` for gzip, `FD 37 7A 58 5A 00` for xz.
pub open spec fn magic_matches(kind: ArchiveKind, b: Seq<u8>) -> bool {
    match kind {
        ArchiveKind::Zip => b.len() >= 2 && b[0] == 0x50u8 && b[1] == 0x4bu8,
        ArchiveKind::TarGz => b.len() >= 2 && b[0] == 0x1fu8 && b[1] == 0x8bu8,
        ArchiveKind::TarXz => b.len() >= 6 && b[0] == 0xfdu8 && b[1] == 0x37u8 && b[2] == 0x7au8
            && b[3] == 0x58u8 && b[4] == 0x5au8 && b[5] == 0x00u8,
    }
}

/// The message for a download too small to be an archive.
pub open spec fn too_small_message() -> Seq<char> {
    "下载文件过小，不是有效的压缩包"@
}

/// The message for a file name of an unknown format.
pub open spec fn unsupported_message(name: Seq<char>) -> Seq<char> {
    "不支持的压缩包格式: "@ + name
}

/// The message for bytes that do not match the format of the name.
pub open spec fn mismatch_message(name: Seq<char>) -> Seq<char> {
    "下载的文件与 "@ + name + " 的预期格式不符（可能已损坏或为错误页）"@
}

/// The format named by a file name, ignoring case.
pub fn archive_kind(filename: &str) -> (r: Option<ArchiveKind>)
    ensures
        r == archive_kind_of(lowercase_of(filename@)),
{
    let name = chars_of(to_lowercase(filename).as_str());
    if ends_with_chars(&name, &chars_of(".zip")) {
        Some(ArchiveKind::Zip)
    } else if ends_with_chars(&name, &chars_of(".tar.gz")) || ends_with_chars(
        &name,
        &chars_of(".tgz"),
    ) {
        Some(ArchiveKind::TarGz)
    } else if ends_with_chars(&name, &chars_of(".tar.xz")) {
        Some(ArchiveKind::TarXz)
    } else {
        None
    }
}

/// Checks that a downloaded archive is one (an HTML error page is not): it
/// holds at least six bytes, its name ends with a known extension (ignoring
/// case), and its leading bytes are the magic number of that format.
pub fn verify_archive_magic(filename: &str, bytes: &[u8]) -> (r: Result<(), String>)
    ensures
        bytes@.len() < 6 ==> (r matches Err(m) && m@ == too_small_message()),
        bytes@.len() >= 6 ==> match archive_kind_of(lowercase_of(filename@)) {
            None => (r matches Err(m) && m@ == unsupported_message(filename@)),
            Some(k) => if magic_matches(k, bytes@) {
                r is Ok
            } else {
                (r matches Err(m) && m@ == mismatch_message(filename@))
            },
        },
{
    if bytes.len() < 6 {
        return Err(String::from_str("下载文件过小，不是有效的压缩包"));
    }
    let ok = match archive_kind(filename) {
        Some(ArchiveKind::Zip) => bytes[0] == 0x50u8 && bytes[1] == 0x4bu8,
        Some(ArchiveKind::TarGz) => bytes[0] == 0x1fu8 && bytes[1] == 0x8bu8,
        Some(ArchiveKind::TarXz) => bytes[0] == 0xfdu8 && bytes[1] == 0x37u8 && bytes[2] == 0x7au8
            && bytes[3] == 0x58u8 && bytes[4] == 0x5au8 && bytes[5] == 0x00u8,
        None => {
            return Err(String::from_str("不支持的压缩包格式: ").concat(filename));
        },
    };
    if !ok {
        return Err(
            String::from_str("下载的文件与 ").concat(filename).concat(
                " 的预期格式不符（可能已损坏或为错误页）",
            ),
        );
    }
    Ok(())
}

// ---------------------------------------------------------------------
// Top-level layout
// ---------------------------------------------------------------------

/// One of `names` equals `n` up to ASCII case.
pub open spec fn has_name_ignoring_case(names: Seq<Seq<char>>, n: Seq<char>) -> bool {
    exists|i: int| 0 <= i < names.len() && eq_ignore_ascii_case(#[trigger] names[i], n)
}

/// The top-level directories after one more entry, whose path has the given
/// components: an entry under a directory, or a directory itself, adds its
/// first component unless one equal up to ASCII case is already listed.
pub open spec fn tops_after(tops: Seq<Seq<char>>, comps: Seq<Seq<char>>, is_dir: bool) -> Seq<
    Seq<char>,
> {
    if comps.len() >= 1 && (comps.len() >= 2 || is_dir) && !has_name_ignoring_case(
        tops,
        comps[0],
    ) {
        tops.push(comps[0])
    } else {
        tops
    }
}

/// Whether the archive has a file at its root once this entry is seen.
pub open spec fn root_file_after(had: bool, comps: Seq<Seq<char>>, is_dir: bool) -> bool {
    had || (comps.len() == 1 && !is_dir)
}

/// Sorts one archive entry, given the components of its path: under a
/// top-level directory (or a directory itself), or a file at the root.
pub fn classify_entry(
    components: &Vec<String>,
    is_dir: bool,
    top_dirs: &mut Vec<String>,
    has_root_files: &mut bool,
)
    ensures
        string_views(final(top_dirs)@) == tops_after(string_views(old(top_dirs)@), string_views(components@), is_dir),
        *final(has_root_files) == root_file_after(*old(has_root_files), string_views(components@), is_dir),
{
    if components.len() == 0 {
        return;
    }
    let name = &components[0];
    proof {
        assert(string_views(components@)[0] == name@);
    }
    if components.len() >= 2 || is_dir {
        let mut i: usize = 0;
        let mut found = false;
        while i < top_dirs.len()
            invariant
                i <= top_dirs.len(),
                top_dirs@ == old(top_dirs)@,
                found <==> exists|j: int| 0 <= j < i && eq_ignore_ascii_case(
                    #[trigger] string_views(top_dirs@)[j],
                    name@,
                ),
            decreases top_dirs.len() - i,
        {
            if str_eq_ignore_ascii_case(top_dirs[i].as_str(), name.as_str()) {
                found = true;
            }
            proof {
                assert(string_views(top_dirs@)[i as int] == top_dirs@[i as int]@);
            }
            i = i + 1;
        }
        let ghost before = string_views(top_dirs@);
        if !found {
            top_dirs.push(name.clone());
            proof {
                assert(string_views(top_dirs@) =~= before.push(name@));
            }
        }
    } else {
        *has_root_files = true;
    }
}

/// No two listed top-level directories are equal up to ASCII case.
pub open spec fn distinct_ignoring_case(tops: Seq<Seq<char>>) -> bool {
    forall|i: int, j: int|
        0 <= i < j < tops.len() ==> !eq_ignore_ascii_case(#[trigger] tops[i], #[trigger] tops[j])
}

/// Sorting entries keeps the top-level directories free of duplicates (up
/// to ASCII case), whatever the entries.
pub proof fn lemma_tops_stay_distinct(tops: Seq<Seq<char>>, comps: Seq<Seq<char>>, is_dir: bool)
    requires
        distinct_ignoring_case(tops),
    ensures
        distinct_ignoring_case(tops_after(tops, comps, is_dir)),
{
    let after = tops_after(tops, comps, is_dir);
    if after.len() > tops.len() {
        let n = comps[0];
        assert forall|i: int, j: int| 0 <= i < j < after.len() implies !eq_ignore_ascii_case(
            #[trigger] after[i],
            #[trigger] after[j],
        ) by {
            if j == tops.len() {
                assert(after[j] == n);
                assert(after[i] == tops[i]);
                if eq_ignore_ascii_case(tops[i], n) {
                    assert(has_name_ignoring_case(tops, n));
                }
            } else {
                assert(after[i] == tops[i]);
                assert(after[j] == tops[j]);
            }
        }
    }
}

/// `i` is the first index at which `s` holds `true`.
pub open spec fn first_true_at(s: Seq<bool>, i: int) -> bool {
    0 <= i < s.len() && s[i] && forall|j: int| 0 <= j < i ==> !s[j]
}

/// Where an archive is extracted, as an index into the ancestors of the
/// target directory (0 is the target itself, 1 its parent, and so on).
///
/// An archive with one top-level directory `T` and no root file goes into
/// the nearest ancestor that already holds a directory named `T` (updating an
/// existing install in place, not nesting it); `with_top[i]` says whether the
/// `i`-th ancestor holds one. Any other archive, or one for which no
/// ancestor holds `T`, goes into the target itself.
pub open spec fn extract_index(top_count: nat, has_root_files: bool, with_top: Seq<bool>) -> nat {
    if has_root_files || top_count != 1 {
        0
    } else if exists|i: int| 0 <= i < with_top.len() && with_top[i] {
        (choose|i: int| first_true_at(with_top, i)) as nat
    } else {
        0
    }
}

/// Picks the ancestor of the target directory to extract into.
pub fn resolve_target_from_top(top_count: usize, has_root_files: bool, with_top: &Vec<bool>) -> (r:
    usize)
    ensures
        r == extract_index(top_count as nat, has_root_files, with_top@),
        r == 0 || r < with_top@.len(),
{
    if has_root_files || top_count != 1 {
        return 0;
    }
    let mut i: usize = 0;
    while i < with_top.len()
        invariant
            i <= with_top.len(),
            !has_root_files && top_count == 1,
            forall|j: int| 0 <= j < i ==> !with_top@[j],
        decreases with_top.len() - i,
    {
        if with_top[i] {
            proof {
                assert(with_top@[i as int]);
                assert(first_true_at(with_top@, i as int));
                let k = choose|k: int| first_true_at(with_top@, k);
                if k < i {
                    assert(!with_top@[k]);
                } else if k > i {
                    assert(!with_top@[i as int]);
                }
            }
            return i;
        }
        i = i + 1;
    }
    0
}

} // verus!
