//! Latest releases of the external tools: what is known of one, the version
//! shown for it, and the cache that spares the GitHub API (five minutes, and
//! a five-minute pause after the API reports its rate limit).

use serde_json::{from_str, Error, Value};
use vstd::prelude::*;

use super::install::{missing_asset_error, missing_asset_message, url_file_name, url_file_name_of};
use crate::text::{
    chars_of, contains_chars, contains_seq, decimal_string, ends_with, ends_with_chars,
    capture, int_decimal, opt_view, or_empty, regex_capture, str_eq,
};

verus! {

/// Information about a tool.
#[derive(Debug, Clone)]
pub struct ToolInfo {
    /// Tool name.
    pub name: String,
    /// Whether it is installed (the path is valid).
    pub installed: bool,
    /// Version.
    pub version: Option<String>,
    /// Installation path.
    pub path: Option<String>,
    /// Error message.
    pub error: Option<String>,
}

/// A release of a tool.
#[derive(Debug)]
pub struct ToolReleaseInfo {
    /// Version.
    pub version: String,
    /// Download URL of the main archive.
    pub download_url: String,
    /// File name of the main archive.
    pub filename: String,
    /// Publication date.
    pub published_at: String,
    /// Further archives extracted into the same directory (such as ffprobe
    /// published separately for macOS).
    pub extra_assets: Vec<String>,
}

impl View for ToolReleaseInfo {
    /// Version, download URL, file name, publication date and further
    /// archives, as characters.
    type V = (Seq<char>, Seq<char>, Seq<char>, Seq<char>, Seq<Seq<char>>);

    open spec fn view(&self) -> Self::V {
        (
            self.version@,
            self.download_url@,
            self.filename@,
            self.published_at@,
            self.extra_assets@.map_values(|a: String| a@),
        )
    }
}

/// The view of a release that may be missing.
pub open spec fn release_view(o: Option<ToolReleaseInfo>) -> Option<
    (Seq<char>, Seq<char>, Seq<char>, Seq<char>, Seq<Seq<char>>),
> {
    match o {
        Some(r) => Some(r@),
        None => None,
    }
}

impl ToolReleaseInfo {
    /// A copy with the same contents.
    pub fn duplicate(&self) -> (r: ToolReleaseInfo)
        ensures
            r@ == self@,
    {
        let mut extra: Vec<String> = Vec::new();
        let mut i: usize = 0;
        while i < self.extra_assets.len()
            invariant
                i <= self.extra_assets.len(),
                extra@ == self.extra_assets@.take(i as int),
            decreases self.extra_assets.len() - i,
        {
            extra.push(self.extra_assets[i].clone());
            proof {
                assert(self.extra_assets@.take(i + 1) =~= self.extra_assets@.take(i as int).push(
                    self.extra_assets@[i as int],
                ));
            }
            i = i + 1;
        }
        proof {
            assert(self.extra_assets@.take(self.extra_assets@.len() as int) =~= self.extra_assets@);
            assert(extra@.map_values(|a: String| a@) =~= self.extra_assets@.map_values(
                |a: String| a@,
            ));
        }
        ToolReleaseInfo {
            version: self.version.clone(),
            download_url: self.download_url.clone(),
            filename: self.filename.clone(),
            published_at: self.published_at.clone(),
            extra_assets: extra,
        }
    }
}

/// The operating systems the tools are released for.
#[derive(Debug, Clone, Copy, PartialEq, Eq, Structural)]
pub enum Platform {
    /// Windows.
    Windows,
    /// macOS.
    MacOS,
    /// Linux.
    Linux,
}

/// The display name of a platform.
pub open spec fn platform_display(p: Platform) -> Seq<char> {
    match p {
        Platform::Windows => "Windows"@,
        Platform::MacOS => "macOS"@,
        Platform::Linux => "Linux"@,
    }
}

/// The display name of a platform.
pub fn platform_name(platform: Platform) -> (r: &'static str)
    ensures
        r@ == platform_display(platform),
{
    match platform {
        Platform::Windows => "Windows",
        Platform::MacOS => "macOS",
        Platform::Linux => "Linux",
    }
}

// ---------------------------------------------------------------------
// Version shown for a release
// ---------------------------------------------------------------------

/// The first date (`\d{4}-\d{2}-\d{2}`) that the `regex` crate finds in a
/// release name.
pub open spec fn first_date_in(name: Seq<char>) -> Option<Seq<char>> {
    regex_capture("(\\d{4}-\\d{2}-\\d{2})"@, name, 1)
}

/// The text of the leftmost date in `name`, if any.
fn find_date(name: &str) -> (r: Option<String>)
    ensures
        match r {
            Some(d) => first_date_in(name@) == Some(d@),
            None => first_date_in(name@) is None,
        },
{
    capture("(\\d{4}-\\d{2}-\\d{2})", name, 1)
}

/// The version shown for a release whose tag is `tag` and name is `name`,
/// given the date found in the name: a release tagged `latest` with a name is
/// known by that date (by the whole name when it holds none); any other by
/// its tag.
pub open spec fn version_of_release(tag: Seq<char>, name: Seq<char>, date: Option<Seq<char>>) -> Seq<char> {
    if tag == "latest"@ && name.len() > 0 {
        match date {
            Some(d) => d,
            None => name,
        }
    } else {
        tag
    }
}

/// The version shown for a release, given the date found in its name.
pub fn version_from_release(tag: &str, name: &str, date: Option<String>) -> (r: String)
    ensures
        r@ == version_of_release(
            tag@,
            name@,
            match date {
                Some(d) => Some(d@),
                None => None,
            },
        ),
{
    if str_eq(tag, "latest") && !name.is_empty() {
        match date {
            Some(d) => d,
            None => String::from_str(name),
        }
    } else {
        String::from_str(tag)
    }
}

/// The version shown for a release: for an automatic build tagged `latest`,
/// the date in its name ("Latest Auto-Build (2026-08-09 13:03)" gives
/// "2026-08-09").
pub fn release_version(tag: &str, name: &str) -> (r: String)
    ensures
        r@ == version_of_release(tag@, name@, first_date_in(name@)),
{
    if str_eq(tag, "latest") && !name.is_empty() {
        let date = find_date(name);
        version_from_release(tag, name, date)
    } else {
        String::from_str(tag)
    }
}

// ---------------------------------------------------------------------
// Windows builds among the assets of a release
// ---------------------------------------------------------------------

/// The Windows x64 archive of N_m3u8DL-RE.
pub open spec fn is_downloader_asset(name: Seq<char>) -> bool {
    contains_seq(name, "win-x64"@) && ends_with(name, ".zip"@)
}

/// The Windows 64-bit GPL shared archive of FFmpeg (it holds ffprobe too).
pub open spec fn is_ffmpeg_asset(name: Seq<char>) -> bool {
    contains_seq(name, "win64"@) && contains_seq(name, "gpl"@) && contains_seq(name, "shared"@)
        && ends_with(name, ".zip"@)
}

/// The Windows archive of the tool (`ffmpeg`, else N_m3u8DL-RE).
pub open spec fn is_windows_asset(name: Seq<char>, ffmpeg: bool) -> bool {
    if ffmpeg {
        is_ffmpeg_asset(name)
    } else {
        is_downloader_asset(name)
    }
}

/// Whether an asset name is the Windows archive of the tool.
pub fn windows_asset(name: &str, ffmpeg: bool) -> (r: bool)
    ensures
        r == is_windows_asset(name@, ffmpeg),
{
    let n = chars_of(name);
    if ffmpeg {
        contains_chars(&n, &chars_of("win64")) && contains_chars(&n, &chars_of("gpl"))
            && contains_chars(&n, &chars_of("shared")) && ends_with_chars(&n, &chars_of(".zip"))
    } else {
        contains_chars(&n, &chars_of("win-x64")) && ends_with_chars(&n, &chars_of(".zip"))
    }
}

/// The first asset that is the Windows archive of the tool.
pub fn pick_windows_asset(names: &Vec<String>, ffmpeg: bool) -> (r: Option<usize>)
    ensures
        match r {
            Some(i) => i < names@.len() && is_windows_asset(names@[i as int]@, ffmpeg) && forall|j: int|
                0 <= j < i ==> !is_windows_asset(#[trigger] names@[j]@, ffmpeg),
            None => forall|j: int|
                0 <= j < names@.len() ==> !is_windows_asset(#[trigger] names@[j]@, ffmpeg),
        },
{
    let mut i: usize = 0;
    while i < names.len()
        invariant
            i <= names.len(),
            forall|j: int| 0 <= j < i ==> !is_windows_asset(#[trigger] names@[j]@, ffmpeg),
        decreases names.len() - i,
    {
        if windows_asset(names[i].as_str(), ffmpeg) {
            return Some(i);
        }
        i = i + 1;
    }
    None
}

/// The message when a release has no Windows archive of the tool.
pub open spec fn no_windows_asset_message(ffmpeg: bool) -> Seq<char> {
    if ffmpeg {
        "未找到 Windows x64 GPL shared 版本的下载链接"@
    } else {
        "未找到 Windows x64 版本的下载链接"@
    }
}

/// The Windows release of a tool: its tag (else "unknown"), the download URL
/// of its archive and the file name after the URL's last `/`; refused when
/// the URL is empty (no such archive).
pub fn windows_release(
    tag: Option<String>,
    published_at: String,
    download_url: String,
    ffmpeg: bool,
) -> (r: Result<ToolReleaseInfo, String>)
    ensures
        download_url@.len() == 0 ==> (r matches Err(m) && m@ == no_windows_asset_message(ffmpeg)),
        download_url@.len() > 0 ==> (r matches Ok(info) && {
            &&& info.version@ == match tag {
                Some(t) => t@,
                None => "unknown"@,
            }
            &&& info.download_url == download_url
            &&& info.filename@ == url_file_name_of(download_url@)
            &&& info.published_at == published_at
            &&& info.extra_assets@.len() == 0
        }),
{
    if download_url.as_str().is_empty() {
        return Err(
            if ffmpeg {
                String::from_str("未找到 Windows x64 GPL shared 版本的下载链接")
            } else {
                String::from_str("未找到 Windows x64 版本的下载链接")
            },
        );
    }
    let filename = url_file_name(download_url.as_str());
    Ok(
        ToolReleaseInfo {
            version: match tag {
                Some(t) => t,
                None => String::from_str("unknown"),
            },
            download_url,
            filename,
            published_at,
            extra_assets: Vec::new(),
        },
    )
}

// ---------------------------------------------------------------------
// The GitHub API's answer
// ---------------------------------------------------------------------

/// An asset of a release, as characters: its name and download URL, each
/// when a string.
pub type AssetView = (Option<Seq<char>>, Option<Seq<char>>);

/// What `serde_json` reads from a GitHub release: `tag_name`,
/// `published_at`, and the name and `browser_download_url` of each entry of
/// `assets` (absent when there is no such array); or the parser's error text
/// when the input is not JSON.
pub uninterp spec fn github_release_of(json: Seq<char>) -> Result<
    (Option<Seq<char>>, Option<Seq<char>>, Option<Seq<AssetView>>),
    Seq<char>,
>;

/// The characters of assets read.
pub open spec fn asset_views(a: Seq<(Option<String>, Option<String>)>) -> Seq<AssetView> {
    a.map_values(|x: (Option<String>, Option<String>)| (opt_view(x.0), opt_view(x.1)))
}

/// `serde_json::from_str` on a GitHub release, then its `tag_name`,
/// `published_at` and the `name` and `browser_download_url` of each asset,
/// each when a string. The contract names the result.
#[verifier::external_body]
fn release_fields(json: &str) -> (r: Result<
    (Option<String>, Option<String>, Option<Vec<(Option<String>, Option<String>)>>),
    String,
>)
    ensures
        match r {
            Ok((t, p, a)) => github_release_of(json@) == Ok::<
                (Option<Seq<char>>, Option<Seq<char>>, Option<Seq<AssetView>>),
                Seq<char>,
            >((
                opt_view(t),
                opt_view(p),
                match a {
                    Some(v) => Some(asset_views(v@)),
                    None => None,
                },
            )),
            Err(e) => github_release_of(json@) == Err::<
                (Option<Seq<char>>, Option<Seq<char>>, Option<Seq<AssetView>>),
                Seq<char>,
            >(e@),
        },
{
    let v: Value = from_str(json).map_err(|e: Error| e.to_string())?;
    let t = |x: &Value, p| x.pointer(p)?.as_str().map(String::from);
    Ok((
        t(&v, "/tag_name"),
        t(&v, "/published_at"),
        v["assets"].as_array().map(
            |a| a.iter().map(|x| (t(x, "/name"), t(x, "/browser_download_url"))).collect(),
        ),
    ))
}

/// `i` is the first asset whose name (empty when absent) is the Windows
/// archive of the tool.
pub open spec fn first_windows_asset(assets: Seq<AssetView>, ffmpeg: bool, i: int) -> bool {
    &&& 0 <= i < assets.len()
    &&& is_windows_asset(or_empty(assets[i].0), ffmpeg)
    &&& forall|j: int| 0 <= j < i ==> !is_windows_asset(or_empty(#[trigger] assets[j].0), ffmpeg)
}

/// The download URL of the first Windows asset of the tool (empty when there
/// is none, or when it has no URL).
pub open spec fn windows_asset_url(assets: Seq<AssetView>, ffmpeg: bool) -> Seq<char> {
    if exists|i: int| first_windows_asset(assets, ffmpeg, i) {
        or_empty(assets[choose|i: int| first_windows_asset(assets, ffmpeg, i)].1)
    } else {
        Seq::empty()
    }
}

/// The message when the API's answer is not JSON, with the parser's text.
pub open spec fn release_parse_error_message(e: Seq<char>) -> Seq<char> {
    "解析响应失败: "@ + e
}

/// The Windows release of a tool that a GitHub release answer describes:
/// its tag (else "unknown"), the URL of its first asset named as the tool's
/// Windows archive and the file name after the URL's last `/`, and its
/// publication date (else empty); refused when the answer is not JSON or no
/// such asset has a URL.
pub fn release_from_json(json: &str, ffmpeg: bool) -> (r: Result<ToolReleaseInfo, String>)
    ensures
        match github_release_of(json@) {
            Err(e) => r matches Err(m) && m@ == release_parse_error_message(e),
            Ok((tag, published, assets)) => {
                let url = windows_asset_url(
                    match assets {
                        Some(a) => a,
                        None => Seq::empty(),
                    },
                    ffmpeg,
                );
                &&& url.len() == 0 ==> (r matches Err(m) && m@ == no_windows_asset_message(
                    ffmpeg,
                ))
                &&& url.len() > 0 ==> (r matches Ok(info) && info@ == (
                    match tag {
                        Some(t) => t,
                        None => "unknown"@,
                    },
                    url,
                    url_file_name_of(url),
                    or_empty(published),
                    Seq::<Seq<char>>::empty(),
                ))
            },
        },
{
    match release_fields(json) {
        Err(e) => Err(String::from_str("解析响应失败: ").concat(e.as_str())),
        Ok((tag, published, assets_read)) => {
            let ghost read = match &assets_read {
                Some(v) => asset_views(v@),
                None => Seq::<AssetView>::empty(),
            };
            let assets = match assets_read {
                Some(a) => a,
                None => Vec::new(),
            };
            let ghost av = asset_views(assets@);
            proof {
                assert(av =~= read);
            }
            let mut names: Vec<String> = Vec::new();
            let mut i: usize = 0;
            while i < assets.len()
                invariant
                    i <= assets.len(),
                    av == asset_views(assets@),
                    names@.len() == i,
                    forall|j: int| 0 <= j < i ==> #[trigger] names@[j]@ == or_empty(av[j].0),
                decreases assets.len() - i,
            {
                let n = match &assets[i].0 {
                    Some(n) => n.clone(),
                    None => String::new(),
                };
                names.push(n);
                i = i + 1;
            }
            let picked = pick_windows_asset(&names, ffmpeg);
            let url = match picked {
                Some(k) => match &assets[k].1 {
                    Some(u) => u.clone(),
                    None => String::new(),
                },
                None => String::new(),
            };
            proof {
                assert forall|j: int| 0 <= j < names@.len() implies is_windows_asset(
                    #[trigger] names@[j]@,
                    ffmpeg,
                ) == is_windows_asset(or_empty(av[j].0), ffmpeg) by {}
                match picked {
                    Some(k) => {
                        assert(av.len() == names@.len());
                        assert(names@[k as int]@ == or_empty(av[k as int].0));
                        assert forall|j: int| 0 <= j < k implies !is_windows_asset(
                            or_empty(#[trigger] av[j].0),
                            ffmpeg,
                        ) by {
                            assert(!is_windows_asset(names@[j]@, ffmpeg));
                        }
                        assert(first_windows_asset(av, ffmpeg, k as int));
                        let c = choose|c: int| first_windows_asset(av, ffmpeg, c);
                        if c < k {
                            assert(!is_windows_asset(names@[c]@, ffmpeg));
                        }
                        if k < c {
                            assert(!is_windows_asset(or_empty(av[k as int].0), ffmpeg));
                        }
                        assert(c == k);
                        assert(av[k as int].1 == opt_view(assets@[k as int].1));
                        assert(url@ == windows_asset_url(av, ffmpeg));
                    },
                    None => {
                        assert(av.len() == names@.len());
                        assert forall|c: int| !first_windows_asset(av, ffmpeg, c) by {
                            if 0 <= c < av.len() {
                                assert(names@[c]@ == or_empty(av[c].0));
                                assert(!is_windows_asset(names@[c]@, ffmpeg));
                            }
                        }
                        assert(url@ == windows_asset_url(av, ffmpeg));
                    },
                }
            }
            let published_at = match published {
                Some(p) => p,
                None => String::new(),
            };
            let r = windows_release(tag, published_at, url, ffmpeg);
            proof {
                if r is Ok {
                    assert(r->Ok_0.extra_assets@.map_values(|a: String| a@) =~= Seq::<
                        Seq<char>,
                    >::empty());
                }
            }
            r
        },
    }
}

// ---------------------------------------------------------------------
// A release as the release APIs describe it
// ---------------------------------------------------------------------

/// A text field of a release that may be missing, with its default.
pub open spec fn field_or(f: Option<String>, default: Seq<char>) -> Seq<char> {
    match f {
        Some(s) => s@,
        None => default,
    }
}

/// The release that the GitHub API describes by its tag (else "unknown"),
/// name (else empty), publication date (else empty) and the asset picked for
/// the platform (its download URL and file name): the version is the one
/// shown for that tag and name; without an asset the release is refused
/// with the platform and its architecture keywords.
pub fn release_from_api(
    tag: Option<String>,
    name: Option<String>,
    published_at: Option<String>,
    asset: Option<(String, String)>,
    platform: Platform,
    arch: &str,
) -> (r: Result<ToolReleaseInfo, String>)
    ensures
        asset is None ==> (r matches Err(m) && m@ == missing_asset_message(platform, arch@)),
        asset matches Some((url, file)) ==> (r matches Ok(info) && info@ == (
            version_of_release(
                field_or(tag, "unknown"@),
                field_or(name, Seq::empty()),
                first_date_in(field_or(name, Seq::empty())),
            ),
            url@,
            file@,
            field_or(published_at, Seq::empty()),
            Seq::<Seq<char>>::empty(),
        )),
{
    let tag_name = match tag {
        Some(t) => t,
        None => String::from_str("unknown"),
    };
    let release_name = match name {
        Some(n) => n,
        None => String::new(),
    };
    let version = release_version(tag_name.as_str(), release_name.as_str());
    match asset {
        Some((download_url, filename)) => {
            let extra: Vec<String> = Vec::new();
            let info = ToolReleaseInfo {
                version,
                download_url,
                filename,
                published_at: match published_at {
                    Some(p) => p,
                    None => String::new(),
                },
                extra_assets: extra,
            };
            proof {
                assert(info.extra_assets@.map_values(|a: String| a@) =~= Seq::<Seq<char>>::empty());
            }
            Ok(info)
        },
        None => Err(missing_asset_error(platform, arch)),
    }
}

/// The message when an evermeet.cx answer lacks the version (or else the
/// zip download URL) of a tool.
pub open spec fn evermeet_missing_message(version_field: bool, which: Seq<char>) -> Seq<char> {
    (if version_field {
        "evermeet.cx 响应缺少 version 字段 ("@
    } else {
        "evermeet.cx 响应缺少 zip 下载链接 ("@
    }) + which + ")"@
}

/// The version and zip download URL that evermeet.cx gives for a tool
/// (`ffmpeg` or `ffprobe`); refused, naming the tool, when either is missing
/// (the version is looked at first).
pub fn evermeet_fields(which: &str, version: Option<String>, zip_url: Option<String>) -> (r: Result<
    (String, String),
    String,
>)
    ensures
        version is None ==> (r matches Err(m) && m@ == evermeet_missing_message(true, which@)),
        version is Some && zip_url is None ==> (r matches Err(m) && m@ == evermeet_missing_message(false, which@)),
        version is Some && zip_url is Some ==> (r matches Ok((a, b)) && a == version->0 && b
            == zip_url->0),
{
    match version {
        None => Err(
            String::from_str("evermeet.cx 响应缺少 version 字段 (").concat(which).concat(")"),
        ),
        Some(v) => match zip_url {
            None => Err(
                String::from_str("evermeet.cx 响应缺少 zip 下载链接 (").concat(which).concat(")"),
            ),
            Some(z) => Ok((v, z)),
        },
    }
}

/// The macOS release of FFmpeg from evermeet.cx: FFmpeg's version and zip,
/// named after the URL's last `/`, with ffprobe's zip as a further archive
/// (no publication date is given).
pub fn evermeet_release(version: String, ffmpeg_url: String, ffprobe_url: String) -> (r:
    ToolReleaseInfo)
    ensures
        r@ == (version@, ffmpeg_url@, url_file_name_of(ffmpeg_url@), Seq::<char>::empty(), seq![
            ffprobe_url@,
        ]),
{
    let filename = url_file_name(ffmpeg_url.as_str());
    let mut extra: Vec<String> = Vec::new();
    extra.push(ffprobe_url);
    let info = ToolReleaseInfo {
        version,
        download_url: ffmpeg_url,
        filename,
        published_at: String::new(),
        extra_assets: extra,
    };
    proof {
        assert(info.extra_assets@.map_values(|a: String| a@) =~= seq![info.extra_assets@[0]@]);
    }
    info
}

// ---------------------------------------------------------------------
// The release cache
// ---------------------------------------------------------------------

/// How long a cached release stays valid, in milliseconds (five minutes).
pub const CACHE_TTL_MS: u64 = 300000;

/// How long no request is made after the API reported its rate limit, in
/// milliseconds (five minutes).
pub const RATE_LIMIT_COOLDOWN_MS: u64 = 300000;

/// The latest releases of the two tools (slot 0: N_m3u8DL-RE, slot 1:
/// FFmpeg), when they were stored, and until when the API is not asked.
/// Times are milliseconds of a monotonic clock.
#[derive(Debug)]
pub struct ReleaseCache {
    /// The release of slot 0.
    pub downloader: Option<ToolReleaseInfo>,
    /// The release of slot 1.
    pub ffmpeg: Option<ToolReleaseInfo>,
    /// When a release was last stored (`None`: never, so nothing is fresh).
    pub stored_at: Option<u64>,
    /// No request before this time.
    pub rate_limited_until: Option<u64>,
}

/// The release held in a slot (0, or any other number for slot 1).
pub open spec fn slot_release(c: ReleaseCache, slot: usize) -> Option<ToolReleaseInfo> {
    if slot == 0 {
        c.downloader
    } else {
        c.ffmpeg
    }
}

/// What was stored is still fresh at `now`: less than the time to live has
/// passed since (a clock read before the store counts as no time passed).
pub open spec fn cache_fresh(c: ReleaseCache, now: u64) -> bool {
    match c.stored_at {
        Some(t) => (if now >= t {
            now - t
        } else {
            0
        }) < CACHE_TTL_MS,
        None => false,
    }
}

/// What a lookup at `now` gives: the slot's release while fresh.
pub open spec fn cache_lookup(c: ReleaseCache, slot: usize, now: u64) -> Option<ToolReleaseInfo> {
    if cache_fresh(c, now) {
        slot_release(c, slot)
    } else {
        None
    }
}

/// Requests are held back at `now`.
pub open spec fn rate_limited_at(c: ReleaseCache, now: u64) -> bool {
    match c.rate_limited_until {
        Some(u) => now < u,
        None => false,
    }
}

/// The message of a held-back request, with the whole seconds left.
pub open spec fn rate_limit_message(secs: int) -> Seq<char> {
    "GitHub API 请求频率限制，请 "@ + int_decimal(secs) + " 秒后重试"@
}

/// The cache after the release of a slot is stored at `now`: the slot holds
/// it, the other slot is kept, and the whole cache is fresh from `now`.
pub open spec fn stored(c: ReleaseCache, slot: usize, info: ToolReleaseInfo, now: u64) -> ReleaseCache {
    if slot == 0 {
        ReleaseCache { downloader: Some(info), stored_at: Some(now), ..c }
    } else {
        ReleaseCache { ffmpeg: Some(info), stored_at: Some(now), ..c }
    }
}

/// The cache after the rate limit is reported at `now`: requests are held
/// back for the cool-down, and the releases are kept.
pub open spec fn marked(c: ReleaseCache, now: u64) -> ReleaseCache {
    ReleaseCache { rate_limited_until: Some((now + RATE_LIMIT_COOLDOWN_MS) as u64), ..c }
}

impl ReleaseCache {
    /// An empty cache: nothing stored, nothing held back.
    pub fn new() -> (r: ReleaseCache)
        ensures
            r.downloader is None,
            r.ffmpeg is None,
            r.stored_at is None,
            r.rate_limited_until is None,
    {
        ReleaseCache { downloader: None, ffmpeg: None, stored_at: None, rate_limited_until: None }
    }

    /// The cached release of a slot, while fresh.
    pub fn cached_release(&self, slot: usize, now: u64) -> (r: Option<ToolReleaseInfo>)
        ensures
            release_view(r) == release_view(cache_lookup(*self, slot, now)),
    {
        let fresh = match self.stored_at {
            Some(t) => now.saturating_sub(t) < CACHE_TTL_MS,
            None => false,
        };
        if !fresh {
            return None;
        }
        let held = if slot == 0 {
            &self.downloader
        } else {
            &self.ffmpeg
        };
        match held {
            Some(info) => Some(info.duplicate()),
            None => None,
        }
    }

    /// Stores the release of a slot; the whole cache is fresh from `now`.
    pub fn store_cached_release(&mut self, slot: usize, info: ToolReleaseInfo, now: u64)
        ensures
            *final(self) == stored(*old(self), slot, info, now),
    {
        if slot == 0 {
            self.downloader = Some(info);
        } else {
            self.ffmpeg = Some(info);
        }
        self.stored_at = Some(now);
    }

    /// Whether a request may be made at `now`; while held back, the error
    /// tells the whole seconds left.
    pub fn check_rate_limit(&self, now: u64) -> (r: Result<(), String>)
        ensures
            !rate_limited_at(*self, now) ==> r is Ok,
            rate_limited_at(*self, now) ==> (r matches Err(m) && m@ == rate_limit_message(
                (self.rate_limited_until.unwrap() - now) / 1000,
            )),
    {
        if let Some(until) = self.rate_limited_until {
            if now < until {
                let secs = (until - now) / 1000;
                let msg = String::from_str("GitHub API 请求频率限制，请 ").concat(
                    decimal_string(secs as i128).as_str(),
                ).concat(" 秒后重试");
                return Err(msg);
            }
        }
        Ok(())
    }

    /// Holds requests back for the cool-down, from `now`.
    pub fn mark_rate_limited(&mut self, now: u64)
        requires
            now + RATE_LIMIT_COOLDOWN_MS <= u64::MAX,
        ensures
            *final(self) == marked(*old(self), now),
    {
        self.rate_limited_until = Some(now + RATE_LIMIT_COOLDOWN_MS);
    }
}

/// A release just stored is what a lookup of its slot gives for the whole
/// time to live, and no longer.
pub proof fn lemma_store_then_lookup(
    c: ReleaseCache,
    slot: usize,
    info: ToolReleaseInfo,
    now: u64,
    later: u64,
)
    requires
        now <= later,
    ensures
        later - now < CACHE_TTL_MS ==> cache_lookup(stored(c, slot, info, now), slot, later) == Some(
            info,
        ),
        later - now >= CACHE_TTL_MS ==> cache_lookup(stored(c, slot, info, now), slot, later) is None,
{
}

/// Storing one slot keeps what the other slot holds, and does not lift a
/// hold on requests.
pub proof fn lemma_store_keeps_other_slot(
    c: ReleaseCache,
    slot: usize,
    info: ToolReleaseInfo,
    now: u64,
    at: u64,
)
    ensures
        slot_release(stored(c, slot, info, now), if slot == 0 {
            1
        } else {
            0
        }) == slot_release(c, if slot == 0 {
            1
        } else {
            0
        }),
        rate_limited_at(stored(c, slot, info, now), at) == rate_limited_at(c, at),
{
}

/// Once the rate limit is reported at `now`, a request at `at` is held back
/// exactly while the five-minute cool-down lasts (a clock read before the
/// report included), and the message then tells the whole seconds left.
pub proof fn lemma_cooldown_window(c: ReleaseCache, now: u64, at: u64)
    requires
        now + RATE_LIMIT_COOLDOWN_MS <= u64::MAX,
    ensures
        rate_limited_at(marked(c, now), at) <==> at < now + RATE_LIMIT_COOLDOWN_MS,
        rate_limited_at(marked(c, now), at) ==> rate_limit_message(
            (marked(c, now).rate_limited_until->0 - at) / 1000,
        ) == rate_limit_message((now + RATE_LIMIT_COOLDOWN_MS - at) / 1000),
{
}

/// A cache whose rate limit was never reported holds no request back, and
/// storing releases keeps it so.
pub proof fn lemma_never_marked(c: ReleaseCache, slot: usize, info: ToolReleaseInfo, now: u64, at: u64)
    requires
        c.rate_limited_until is None,
    ensures
        !rate_limited_at(c, at),
        !rate_limited_at(stored(c, slot, info, now), at),
{
}

} // verus!
