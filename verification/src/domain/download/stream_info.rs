//! Streams found when a URL is parsed, and the reading of the stream lines
//! that N_m3u8DL-RE prints, such as `Aud audio-32000 | Audio | 57 Segments`.

use vstd::prelude::*;

use crate::domain::media::info::{or_zero, parse_resolution, resolution_of};
use crate::text::{
    chars_of, find_seq, first_occurrence, first_word, first_word_of,
    lemma_first_occurrence_occurs, lemma_split_char_nonempty, parse_u32, parse_u32_spec,
    split_char, split_chars, starts_with, starts_with_chars, string_of_chars, sub_chars, trim,
    trim_range,
};

verus! {

/// Properties shared by every kind of stream.
#[derive(Debug, Clone, PartialEq)]
pub struct BaseStream {
    /// Identifier.
    pub id: String,
    /// Bandwidth in bits per second.
    pub bandwidth: u32,
    /// Codecs.
    pub codecs: String,
    /// Language.
    pub language: String,
    /// Display name.
    pub name: String,
    /// Group identifier.
    pub group_id: Option<String>,
    /// Whether the stream is selected.
    pub selected: Option<bool>,
}

/// A video stream.
#[derive(Debug, Clone, PartialEq)]
pub struct VideoStream {
    /// Shared properties.
    pub base: BaseStream,
    /// Resolution such as "1920x1080".
    pub resolution: String,
    /// Width in pixels.
    pub width: u32,
    /// Height in pixels.
    pub height: u32,
    /// Frame rate, as the bits of an IEEE 754 single (0 is 0.0).
    pub frame_rate: u32,
    /// Video range (SDR/HDR/DV).
    pub video_range: String,
}

/// An audio stream.
#[derive(Debug, Clone, PartialEq)]
pub struct AudioStream {
    /// Shared properties.
    pub base: BaseStream,
    /// Channels.
    pub channels: String,
    /// Sample rate.
    pub sample_rate: u32,
    /// Default track.
    pub is_default: bool,
}

/// A subtitle stream.
#[derive(Debug, Clone, PartialEq)]
pub struct SubtitleStream {
    /// Shared properties.
    pub base: BaseStream,
    /// Subtitle format.
    pub format: String,
    /// Default track.
    pub is_default: bool,
    /// Forced track.
    pub is_forced: bool,
}

// ---------------------------------------------------------------------
// Stream lines
// ---------------------------------------------------------------------

/// What follows the stream tag of a line: the rest of the line when it starts
/// with `tag`, else what follows the first `| ` + `tag`; `None` without either.
pub open spec fn after_tag(line: Seq<char>, tag: Seq<char>) -> Option<Seq<char>> {
    if starts_with(line, tag) {
        Some(line.skip(tag.len() as int))
    } else {
        match first_occurrence(line, "| "@ + tag) {
            Some(p) => Some(line.skip(p + 2 + tag.len())),
            None => None,
        }
    }
}

/// The first `|`-separated field of a stream description, trimmed.
pub open spec fn first_field(part: Seq<char>) -> Seq<char> {
    trim(split_char(part, '|')[0])
}

/// The number after the last `-` of an identifier (`audio-32000` gives
/// 32000), or zero.
pub open spec fn trailing_number(id: Seq<char>) -> u32 {
    or_zero(parse_u32_spec(split_char(id, '-').last()))
}

/// The part of a line after its stream tag.
fn tagged_part(line: &Vec<char>, tag: &str) -> (r: Option<Vec<char>>)
    ensures
        match r {
            Some(v) => after_tag(line@, tag@) == Some(v@),
            None => after_tag(line@, tag@) is None,
        },
{
    let t = chars_of(tag);
    if starts_with_chars(line, &t) {
        return Some(sub_chars(line, t.len(), line.len()));
    }
    let marker = chars_of(String::from_str("| ").concat(tag).as_str());
    proof {
        reveal_strlit("| ");
    }
    match find_seq(line, &marker) {
        Some(p) => {
            proof {
                lemma_first_occurrence_occurs(line@, marker@);
                assert(crate::text::occurs_at(line@, marker@, p as int));
                assert(marker@ == "| "@ + tag@);
                assert(p + marker@.len() <= line@.len());
            }
            assert(p + marker.len() <= line.len());
            let start = p + marker.len();
            Some(sub_chars(line, start, line.len()))
        },
        None => None,
    }
}

/// The trimmed first field of a stream description.
fn first_field_of(part: &Vec<char>) -> (r: Vec<char>)
    ensures
        r@ == first_field(part@),
{
    let pieces = split_chars(part, '|');
    proof {
        lemma_split_char_nonempty(part@, '|');
        assert(pieces@.len() == split_char(part@, '|').len());
        assert(pieces@[0]@ == split_char(part@, '|')[0]);
    }
    let first = &pieces[0];
    assert(first@.subrange(0, first@.len() as int) =~= first@);
    trim_range(first, 0, first.len())
}

/// The number after the last `-` of an identifier, or zero.
fn trailing_number_of(id: &Vec<char>) -> (r: u32)
    ensures
        r == trailing_number(id@),
{
    let pieces = split_chars(id, '-');
    proof {
        lemma_split_char_nonempty(id@, '-');
        assert(pieces@.len() == split_char(id@, '-').len());
        assert(pieces@[pieces@.len() - 1]@ == split_char(id@, '-').last());
    }
    match parse_u32(&pieces[pieces.len() - 1]) {
        Some(v) => v,
        None => 0,
    }
}

/// A stream described only by its identifier: no codecs, language or group.
pub open spec fn base_with_id(b: BaseStream, id: Seq<char>, bandwidth: u32) -> bool {
    &&& b.id@ == id
    &&& b.name@ == id
    &&& b.bandwidth == bandwidth
    &&& b.codecs@ == Seq::<char>::empty()
    &&& b.language@ == Seq::<char>::empty()
    &&& b.group_id is None
    &&& b.selected is None
}

fn base_from_id(id: &Vec<char>, bandwidth: u32) -> (b: BaseStream)
    ensures
        base_with_id(b, id@, bandwidth),
{
    BaseStream {
        id: string_of_chars(id),
        bandwidth,
        codecs: String::new(),
        language: String::new(),
        name: string_of_chars(id),
        group_id: None,
        selected: None,
    }
}

/// The audio stream of a description: identified by its first field, with
/// the bandwidth after the last `-` of it; two channels, no sample rate, not
/// the default track.
pub open spec fn audio_from_part(part: Seq<char>, a: AudioStream) -> bool {
    &&& base_with_id(a.base, first_field(part), trailing_number(first_field(part)))
    &&& a.channels@ == "2"@
    &&& a.sample_rate == 0
    &&& !a.is_default
}

/// The subtitle stream of a description: identified by its first field;
/// SRT, neither default nor forced.
pub open spec fn subtitle_from_part(part: Seq<char>, s: SubtitleStream) -> bool {
    &&& base_with_id(s.base, first_field(part), 0)
    &&& s.format@ == "srt"@
    &&& !s.is_default
    &&& !s.is_forced
}

/// The video stream of a description: the first field is the resolution
/// (also the id and the name), the second the bandwidth in Kbps (held in
/// bits per second), the third the codecs; SDR, no frame rate.
pub open spec fn video_from_part(part: Seq<char>, v: VideoStream) -> bool {
    let res = field(part, 0);
    &&& v.base.id@ == res
    &&& v.base.name@ == res
    &&& v.resolution@ == res
    &&& (v.width, v.height) == resolution_of(res)
    &&& v.base.bandwidth == kbps_of(part) * 1000
    &&& v.base.codecs@ == field(part, 2)
    &&& v.base.language@ == Seq::<char>::empty()
    &&& v.base.group_id is None
    &&& v.base.selected is None
    &&& v.frame_rate == 0
    &&& v.video_range@ == "SDR"@
}

/// Reads an audio line such as `Aud audio-32000 | Audio | 57 Segments`: the
/// identifier is the first field, and the bandwidth the number after its last
/// `-`. Two channels, no sample rate, not the default track.
pub fn parse_audio_line(line: &str) -> (r: Option<AudioStream>)
    ensures
        match after_tag(line@, "Aud "@) {
            None => r is None,
            Some(part) => r matches Some(a) && audio_from_part(part, a),
        },
{
    let l = chars_of(line);
    let part = match tagged_part(&l, "Aud ") {
        Some(p) => p,
        None => return None,
    };
    let id = first_field_of(&part);
    let bandwidth = trailing_number_of(&id);
    Some(
        AudioStream {
            base: base_from_id(&id, bandwidth),
            channels: String::from_str("2"),
            sample_rate: 0,
            is_default: false,
        },
    )
}

/// Reads a subtitle line such as `Sub zh | Chinese`: the identifier is the
/// first field; SRT, neither default nor forced.
pub fn parse_subtitle_line(line: &str) -> (r: Option<SubtitleStream>)
    ensures
        match after_tag(line@, "Sub "@) {
            None => r is None,
            Some(part) => r matches Some(s) && subtitle_from_part(part, s),
        },
{
    let l = chars_of(line);
    let part = match tagged_part(&l, "Sub ") {
        Some(p) => p,
        None => return None,
    };
    let id = first_field_of(&part);
    Some(
        SubtitleStream {
            base: base_from_id(&id, 0),
            format: String::from_str("srt"),
            is_default: false,
            is_forced: false,
        },
    )
}

/// The `i`-th `|`-separated field of a stream description, trimmed; empty
/// when there are fewer fields.
pub open spec fn field(part: Seq<char>, i: int) -> Seq<char> {
    let parts = split_char(part, '|');
    if 0 <= i < parts.len() {
        trim(parts[i])
    } else {
        Seq::<char>::empty()
    }
}

/// The kilobits per second of a video description: the first word of its
/// second field, or zero when absent or not a `u32`.
pub open spec fn kbps_of(part: Seq<char>) -> u32 {
    match first_word(field(part, 1)) {
        Some(w) => or_zero(parse_u32_spec(w)),
        None => 0,
    }
}

/// The kilobits per second of a video line (zero when it is none).
pub open spec fn video_line_kbps(line: Seq<char>) -> u32 {
    match after_tag(line, "Vid "@) {
        Some(part) => kbps_of(part),
        None => 0,
    }
}

/// The trimmed `i`-th field of a stream description.
fn field_of(part: &Vec<char>, i: usize) -> (r: Vec<char>)
    ensures
        r@ == field(part@, i as int),
{
    let pieces = split_chars(part, '|');
    proof {
        assert(pieces@.len() == split_char(part@, '|').len());
    }
    if i < pieces.len() {
        let p = &pieces[i];
        proof {
            assert(p@ == split_char(part@, '|')[i as int]);
            assert(p@.subrange(0, p@.len() as int) =~= p@);
        }
        trim_range(p, 0, p.len())
    } else {
        Vec::new()
    }
}

/// Whether the bandwidth of a video line fits a `u32` once its kilobits are
/// turned into bits.
pub fn video_line_fits(line: &str) -> (r: bool)
    ensures
        r == (video_line_kbps(line@) * 1000 <= u32::MAX),
{
    let l = chars_of(line);
    let kbps = match tagged_part(&l, "Vid ") {
        Some(part) => kbps_from(&part),
        None => 0,
    };
    kbps <= 4294967
}

fn kbps_from(part: &Vec<char>) -> (r: u32)
    ensures
        r == kbps_of(part@),
{
    let f = field_of(part, 1);
    match first_word_of(&f) {
        Some(w) => match parse_u32(&w) {
            Some(v) => v,
            None => 0,
        },
        None => 0,
    }
}

/// Reads a video line such as `Vid 960x544 | 785 Kbps | mp4a.40.2 | 56
/// Segments`: the first field is the resolution (also the id and the name),
/// the second the bandwidth in Kbps (stored in bits per second), the third
/// the codecs. SDR, no frame rate.
pub fn parse_video_line(line: &str) -> (r: Option<VideoStream>)
    requires
        video_line_kbps(line@) * 1000 <= u32::MAX,
    ensures
        match after_tag(line@, "Vid "@) {
            None => r is None,
            Some(part) => r matches Some(v) && video_from_part(part, v),
        },
{
    let l = chars_of(line);
    let part = match tagged_part(&l, "Vid ") {
        Some(p) => p,
        None => return None,
    };
    let res = field_of(&part, 0);
    let resolution = string_of_chars(&res);
    let (width, height) = parse_resolution(resolution.as_str());
    let bandwidth = kbps_from(&part) * 1000;
    let codecs = string_of_chars(&field_of(&part, 2));
    Some(
        VideoStream {
            base: BaseStream {
                id: resolution.clone(),
                bandwidth,
                codecs,
                language: String::new(),
                name: resolution.clone(),
                group_id: None,
                selected: None,
            },
            resolution,
            width,
            height,
            frame_rate: 0,
            video_range: String::from_str("SDR"),
        },
    )
}

} // verus!
