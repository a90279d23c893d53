//! Media metadata: persisted with tasks, extracted from parsed streams and
//! from the analysis of local files.

use vstd::prelude::*;

use crate::text::{
    chars_of, lemma_parse_u32_decimal, lemma_split_char_concat, lemma_split_char_none,
    lemma_split_char_nonempty, lemma_nat_decimal_digits, nat_decimal, parse_u32, parse_u32_spec,
    split_char, split_chars,
};

verus! {

/// Metadata of a medium.
///
/// The frame rate and the duration are real numbers; they are held as the
/// bits of IEEE 754 doubles, which this library carries without computing on.
#[derive(Debug, Clone, PartialEq)]
pub struct MediaInfo {
    /// Resolution (such as "1920x1080").
    pub resolution: Option<String>,
    /// Width in pixels.
    pub width: Option<u32>,
    /// Height in pixels.
    pub height: Option<u32>,
    /// Frame rate, as the bits of a double.
    pub frame_rate: Option<u64>,
    /// Video codec.
    pub video_codec: Option<String>,
    /// Video range (SDR/HDR/DV).
    pub video_range: Option<String>,
    /// Audio codec.
    pub audio_codec: Option<String>,
    /// Audio channels.
    pub audio_channels: Option<String>,
    /// Audio language.
    pub audio_language: Option<String>,
    /// Duration in seconds, as the bits of a double.
    pub duration: Option<u64>,
    /// Number of segments (streams).
    pub segment_count: Option<u32>,
    /// Live stream.
    pub is_live: bool,
    /// Encrypted.
    pub is_encrypted: bool,
    /// Container format (mp4/mkv/ts...).
    pub file_format: Option<String>,
    /// File size in bytes (filled by local analysis).
    pub file_size: Option<i64>,
    /// Bit rate in bits per second.
    pub bit_rate: Option<i64>,
}

/// Metadata with nothing known.
pub open spec fn no_media_info() -> MediaInfo {
    MediaInfo {
        resolution: None,
        width: None,
        height: None,
        frame_rate: None,
        video_codec: None,
        video_range: None,
        audio_codec: None,
        audio_channels: None,
        audio_language: None,
        duration: None,
        segment_count: None,
        is_live: false,
        is_encrypted: false,
        file_format: None,
        file_size: None,
        bit_rate: None,
    }
}

/// `theirs` when present, else `mine`.
pub open spec fn prefer<T>(mine: Option<T>, theirs: Option<T>) -> Option<T> {
    if theirs is Some {
        theirs
    } else {
        mine
    }
}

/// `a` completed by `b`: every field present in `b` replaces the one of `a`;
/// the live and encrypted flags are set when either side sets them.
pub open spec fn merged(a: MediaInfo, b: MediaInfo) -> MediaInfo {
    MediaInfo {
        resolution: prefer(a.resolution, b.resolution),
        width: prefer(a.width, b.width),
        height: prefer(a.height, b.height),
        frame_rate: prefer(a.frame_rate, b.frame_rate),
        video_codec: prefer(a.video_codec, b.video_codec),
        video_range: prefer(a.video_range, b.video_range),
        audio_codec: prefer(a.audio_codec, b.audio_codec),
        audio_channels: prefer(a.audio_channels, b.audio_channels),
        audio_language: prefer(a.audio_language, b.audio_language),
        duration: prefer(a.duration, b.duration),
        segment_count: prefer(a.segment_count, b.segment_count),
        is_live: a.is_live || b.is_live,
        is_encrypted: a.is_encrypted || b.is_encrypted,
        file_format: prefer(a.file_format, b.file_format),
        file_size: prefer(a.file_size, b.file_size),
        bit_rate: prefer(a.bit_rate, b.bit_rate),
    }
}

impl Default for MediaInfo {
    fn default() -> (r: MediaInfo)
        ensures
            r == no_media_info(),
    {
        MediaInfo {
            resolution: None,
            width: None,
            height: None,
            frame_rate: None,
            video_codec: None,
            video_range: None,
            audio_codec: None,
            audio_channels: None,
            audio_language: None,
            duration: None,
            segment_count: None,
            is_live: false,
            is_encrypted: false,
            file_format: None,
            file_size: None,
            bit_rate: None,
        }
    }
}

fn prefer_string(mine: &mut Option<String>, theirs: &Option<String>)
    ensures
        *final(mine) == prefer(*old(mine), *theirs),
{
    if let Some(v) = theirs {
        *mine = Some(v.clone());
    }
}

impl MediaInfo {
    /// Completes this metadata with `other`: what `other` knows replaces what
    /// is here (the stream metadata completed by the analysis of the file).
    pub fn merge(&mut self, other: &MediaInfo)
        ensures
            *final(self) == merged(*old(self), *other),
    {
        prefer_string(&mut self.resolution, &other.resolution);
        if other.width.is_some() {
            self.width = other.width;
        }
        if other.height.is_some() {
            self.height = other.height;
        }
        if other.frame_rate.is_some() {
            self.frame_rate = other.frame_rate;
        }
        prefer_string(&mut self.video_codec, &other.video_codec);
        prefer_string(&mut self.video_range, &other.video_range);
        prefer_string(&mut self.audio_codec, &other.audio_codec);
        prefer_string(&mut self.audio_channels, &other.audio_channels);
        prefer_string(&mut self.audio_language, &other.audio_language);
        if other.duration.is_some() {
            self.duration = other.duration;
        }
        if other.segment_count.is_some() {
            self.segment_count = other.segment_count;
        }
        prefer_string(&mut self.file_format, &other.file_format);
        if other.file_size.is_some() {
            self.file_size = other.file_size;
        }
        if other.bit_rate.is_some() {
            self.bit_rate = other.bit_rate;
        }
        self.is_live = self.is_live || other.is_live;
        self.is_encrypted = self.is_encrypted || other.is_encrypted;
    }
}

/// Merging what knows nothing changes nothing.
pub proof fn lemma_merge_nothing(a: MediaInfo)
    ensures
        merged(a, no_media_info()) == a,
{
}

/// Merging the same information twice is merging it once.
pub proof fn lemma_merge_idempotent(a: MediaInfo, b: MediaInfo)
    ensures
        merged(merged(a, b), b) == merged(a, b),
{
}

/// Every field that the newer information knows wins.
pub proof fn lemma_merge_prefers_known(a: MediaInfo, b: MediaInfo)
    requires
        b.resolution is Some,
        b.duration is Some,
    ensures
        merged(a, b).resolution == b.resolution,
        merged(a, b).duration == b.duration,
{
}

// ---------------------------------------------------------------------
// Resolutions
// ---------------------------------------------------------------------

/// A parsed number, or zero when it does not parse.
pub open spec fn or_zero(o: Option<u32>) -> u32 {
    match o {
        Some(v) => v,
        None => 0,
    }
}

/// The width and height written in `s` as `WxH`: the pieces before the first
/// `x` and between it and the next one, each parsed as a `u32` (zero where
/// that fails); `(0, 0)` when there is no `x` at all.
pub open spec fn resolution_of(s: Seq<char>) -> (u32, u32) {
    let parts = split_char(s, 'x');
    if parts.len() >= 2 {
        (or_zero(parse_u32_spec(parts[0])), or_zero(parse_u32_spec(parts[1])))
    } else {
        (0, 0)
    }
}

/// Parses a resolution such as "1920x1080" into `(1920, 1080)`.
pub fn parse_resolution(resolution: &str) -> (r: (u32, u32))
    ensures
        r == resolution_of(resolution@),
{
    let s = chars_of(resolution);
    let parts = split_chars(&s, 'x');
    proof {
        assert(parts@.len() == split_char(s@, 'x').len());
    }
    if parts.len() >= 2 {
        proof {
            assert(parts@[0]@ == split_char(s@, 'x')[0]);
            assert(parts@[1]@ == split_char(s@, 'x')[1]);
        }
        let w = match parse_u32(&parts[0]) {
            Some(v) => v,
            None => 0,
        };
        let h = match parse_u32(&parts[1]) {
            Some(v) => v,
            None => 0,
        };
        (w, h)
    } else {
        (0, 0)
    }
}

/// Writing a width and a height as `WxH` in decimal and parsing it back gives
/// them again.
pub proof fn lemma_resolution_round_trip(w: u32, h: u32)
    ensures
        resolution_of(nat_decimal(w as nat).push('x') + nat_decimal(h as nat)) == (w, h),
{
    let dw = nat_decimal(w as nat);
    let dh = nat_decimal(h as nat);
    lemma_nat_decimal_digits(w as nat);
    lemma_nat_decimal_digits(h as nat);
    assert forall|i: int| 0 <= i < dw.len() implies dw[i] != 'x' by {
        assert(crate::text::is_digit(dw[i]));
    }
    assert forall|i: int| 0 <= i < dh.len() implies dh[i] != 'x' by {
        assert(crate::text::is_digit(dh[i]));
    }
    lemma_split_char_none(dw, 'x');
    lemma_split_char_none(dh, 'x');
    lemma_split_char_concat(dw, dh, 'x');
    lemma_split_char_nonempty(dh, 'x');
    let parts = split_char(dw.push('x') + dh, 'x');
    assert(parts =~= seq![dw, dh]);
    lemma_parse_u32_decimal(w);
    lemma_parse_u32_decimal(h);
}

} // verus!
