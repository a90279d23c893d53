//! URL type detection and dispatch to the default engine.

use vstd::prelude::*;

use crate::domain::download::engine::ToolId;
use crate::text::{
    chars_of, contains_chars, contains_seq, ends_with, ends_with_chars, lowercase_of,
    to_lowercase,
};

verus! {

/// The media type of a URL.
#[derive(Debug, Clone, Copy, PartialEq, Eq, Structural)]
pub enum UrlType {
    /// HLS stream (m3u8).
    Hls,
    /// DASH stream (mpd).
    Dash,
    /// MSS stream (ism).
    Mss,
    /// Direct HTTP media file (mp4, mkv, ...).
    HttpVideo,
    /// Unknown / unsupported.
    Unknown,
}

/// The media file extensions recognised as direct downloads, in the order
/// they are tried.
pub open spec fn video_extensions() -> Seq<Seq<char>> {
    seq![
        ".mp4"@, ".mkv"@, ".avi"@, ".mov"@, ".wmv"@, ".flv"@, ".webm"@, ".m4v"@, ".ts"@,
        ".m2ts"@, ".mp3"@, ".m4a"@, ".aac"@, ".ogg"@, ".flac"@, ".wav"@,
    ]
}

/// The (lowercased) URL is marked with `ext`: it ends with it, or it holds it
/// directly followed by a query (`ext?`).
pub open spec fn marked_with(l: Seq<char>, ext: Seq<char>) -> bool {
    ends_with(l, ext) || contains_seq(l, ext.push('?'))
}

/// The type of an already lowercased URL.
pub open spec fn url_kind(l: Seq<char>) -> UrlType {
    if marked_with(l, ".m3u8"@) {
        UrlType::Hls
    } else if marked_with(l, ".mpd"@) {
        UrlType::Dash
    } else if marked_with(l, ".ism/manifest"@) || marked_with(l, ".isml/manifest"@) {
        UrlType::Mss
    } else if exists|i: int| 0 <= i < video_extensions().len() && marked_with(l, #[trigger] video_extensions()[i]) {
        UrlType::HttpVideo
    } else {
        UrlType::Unknown
    }
}

/// The default engine of each type (`None` for unknown URLs).
pub open spec fn engine_of(t: UrlType) -> Option<ToolId> {
    match t {
        UrlType::Hls | UrlType::Dash | UrlType::Mss => Some(ToolId::Nm3u8dl),
        UrlType::HttpVideo => Some(ToolId::Ffmpeg),
        UrlType::Unknown => None,
    }
}

/// Streaming formats handled by N_m3u8DL-RE.
pub open spec fn is_streaming_type(t: UrlType) -> bool {
    t == UrlType::Hls || t == UrlType::Dash || t == UrlType::Mss
}

/// The `i`-th recognised media extension.
fn video_extension(i: usize) -> (r: &'static str)
    requires
        i < 16,
    ensures
        r@ == video_extensions()[i as int],
{
    match i {
        0 => ".mp4",
        1 => ".mkv",
        2 => ".avi",
        3 => ".mov",
        4 => ".wmv",
        5 => ".flv",
        6 => ".webm",
        7 => ".m4v",
        8 => ".ts",
        9 => ".m2ts",
        10 => ".mp3",
        11 => ".m4a",
        12 => ".aac",
        13 => ".ogg",
        14 => ".flac",
        _ => ".wav",
    }
}

/// Whether the lowercased URL `l` is marked with `ext`.
fn is_marked_with(l: &Vec<char>, ext: &str) -> (r: bool)
    ensures
        r == marked_with(l@, ext@),
{
    let e = chars_of(ext);
    if ends_with_chars(l, &e) {
        return true;
    }
    let mut q = e.clone();
    q.push('?');
    contains_chars(l, &q)
}

impl UrlType {
    /// The type of a URL that is already lowercase.
    pub fn classify_lowercase(lower: &str) -> (r: UrlType)
        ensures
            r == url_kind(lower@),
    {
        let l = chars_of(lower);
        if is_marked_with(&l, ".m3u8") {
            return UrlType::Hls;
        }
        if is_marked_with(&l, ".mpd") {
            return UrlType::Dash;
        }
        if is_marked_with(&l, ".ism/manifest") || is_marked_with(&l, ".isml/manifest") {
            return UrlType::Mss;
        }
        let mut i: usize = 0;
        while i < 16
            invariant
                l@ == lower@,
                i <= 16,
                !marked_with(l@, ".m3u8"@),
                !marked_with(l@, ".mpd"@),
                !marked_with(l@, ".ism/manifest"@),
                !marked_with(l@, ".isml/manifest"@),
                forall|j: int| 0 <= j < i ==> !marked_with(l@, #[trigger] video_extensions()[j]),
            decreases 16 - i,
        {
            if is_marked_with(&l, video_extension(i)) {
                return UrlType::HttpVideo;
            }
            i = i + 1;
        }
        UrlType::Unknown
    }

    /// Detects the type of a URL, ignoring case.
    pub fn detect(url: &str) -> (r: UrlType)
        ensures
            r == url_kind(lowercase_of(url@)),
    {
        let lower = to_lowercase(url);
        UrlType::classify_lowercase(lower.as_str())
    }

    /// The default engine of the type (`None` for unknown URLs, which the
    /// registry resolves to its fallback engine).
    pub fn engine(self) -> (r: Option<ToolId>)
        ensures
            r == engine_of(self),
    {
        match self {
            UrlType::Hls | UrlType::Dash | UrlType::Mss => Some(ToolId::Nm3u8dl),
            UrlType::HttpVideo => Some(ToolId::Ffmpeg),
            UrlType::Unknown => None,
        }
    }

    /// Whether the URL is downloaded with FFmpeg (direct media files).
    pub fn needs_ffmpeg(self) -> (r: bool)
        ensures
            r == (self == UrlType::HttpVideo),
    {
        match self {
            UrlType::HttpVideo => true,
            _ => false,
        }
    }

    /// Whether the URL is a streaming format (handled by N_m3u8DL-RE).
    pub fn is_streaming(self) -> (r: bool)
        ensures
            r == is_streaming_type(self),
    {
        match self {
            UrlType::Hls | UrlType::Dash | UrlType::Mss => true,
            _ => false,
        }
    }
}

/// Detection ignores case: URLs with the same lowercase form have the same type.
pub proof fn lemma_detect_ignores_case(a: Seq<char>, b: Seq<char>)
    requires
        lowercase_of(a) == lowercase_of(b),
    ensures
        url_kind(lowercase_of(a)) == url_kind(lowercase_of(b)),
{
}

/// Dispatch is consistent: streaming types go to N_m3u8DL-RE, direct media
/// to FFmpeg, and nothing else gets an engine of its own.
pub proof fn lemma_engine_dispatch(t: UrlType)
    ensures
        engine_of(t) == Some(ToolId::Nm3u8dl) <==> is_streaming_type(t),
        engine_of(t) == Some(ToolId::Ffmpeg) <==> t == UrlType::HttpVideo,
        engine_of(t) is None <==> t == UrlType::Unknown,
        !(is_streaming_type(t) && t == UrlType::HttpVideo),
{
}

/// A lowercased URL that ends in `.m3u8` is HLS, whatever comes before.
pub proof fn lemma_m3u8_suffix_is_hls(prefix: Seq<char>)
    ensures
        url_kind(prefix + ".m3u8"@) == UrlType::Hls,
{
    let l = prefix + ".m3u8"@;
    assert(l.subrange(l.len() - ".m3u8"@.len(), l.len() as int) =~= ".m3u8"@);
}

/// A URL whose lowercase form ends with one of the media extensions
/// (.mp4 .mkv .avi .mov .wmv .flv .webm .m4v .ts .m2ts .mp3 .m4a .aac .ogg
/// .flac .wav) is a direct media file, unless it is a stream (HLS, DASH,
/// MSS): it is never of unknown type.
pub proof fn lemma_media_extensions_are_direct(url: Seq<char>, ext: Seq<char>)
    requires
        ext == ".mp4"@ || ext == ".mkv"@ || ext == ".avi"@ || ext == ".mov"@ || ext == ".wmv"@ ||
            ext == ".flv"@ || ext == ".webm"@ || ext == ".m4v"@ || ext == ".ts"@ ||
            ext == ".m2ts"@ || ext == ".mp3"@ || ext == ".m4a"@ || ext == ".aac"@ ||
            ext == ".ogg"@ || ext == ".flac"@ || ext == ".wav"@,
        ends_with(lowercase_of(url), ext),
    ensures
        url_kind(lowercase_of(url)) == UrlType::HttpVideo || is_streaming_type(
            url_kind(lowercase_of(url)),
        ),
{
    let l = lowercase_of(url);
    if ext == ".mp4"@ {
        assert(video_extensions()[0] == ext);
    }
    if ext == ".mkv"@ {
        assert(video_extensions()[1] == ext);
    }
    if ext == ".avi"@ {
        assert(video_extensions()[2] == ext);
    }
    if ext == ".mov"@ {
        assert(video_extensions()[3] == ext);
    }
    if ext == ".wmv"@ {
        assert(video_extensions()[4] == ext);
    }
    if ext == ".flv"@ {
        assert(video_extensions()[5] == ext);
    }
    if ext == ".webm"@ {
        assert(video_extensions()[6] == ext);
    }
    if ext == ".m4v"@ {
        assert(video_extensions()[7] == ext);
    }
    if ext == ".ts"@ {
        assert(video_extensions()[8] == ext);
    }
    if ext == ".m2ts"@ {
        assert(video_extensions()[9] == ext);
    }
    if ext == ".mp3"@ {
        assert(video_extensions()[10] == ext);
    }
    if ext == ".m4a"@ {
        assert(video_extensions()[11] == ext);
    }
    if ext == ".aac"@ {
        assert(video_extensions()[12] == ext);
    }
    if ext == ".ogg"@ {
        assert(video_extensions()[13] == ext);
    }
    if ext == ".flac"@ {
        assert(video_extensions()[14] == ext);
    }
    if ext == ".wav"@ {
        assert(video_extensions()[15] == ext);
    }
    assert(exists|i: int|
        0 <= i < video_extensions().len() && marked_with(l, #[trigger] video_extensions()[i]));
}

/// The name of a URL type as the front end knows it.
pub open spec fn url_type_name(t: UrlType) -> Seq<char> {
    match t {
        UrlType::Hls => "hls"@,
        UrlType::Dash => "dash"@,
        UrlType::Mss => "mss"@,
        UrlType::HttpVideo => "httpVideo"@,
        UrlType::Unknown => "unknown"@,
    }
}

impl UrlType {
    /// The name of the type as the front end knows it.
    pub fn name(self) -> (r: &'static str)
        ensures
            r@ == url_type_name(self),
    {
        match self {
            UrlType::Hls => "hls",
            UrlType::Dash => "dash",
            UrlType::Mss => "mss",
            UrlType::HttpVideo => "httpVideo",
            UrlType::Unknown => "unknown",
        }
    }
}

} // verus!
