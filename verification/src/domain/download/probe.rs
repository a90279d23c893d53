//! Streams of a direct media URL, from what ffprobe reports of it.

use serde_json::{from_str, Number, Value};
use vstd::prelude::*;

use super::stream_info::{AudioStream, BaseStream, VideoStream};
use crate::domain::media::info::or_zero;
use crate::text::{chars_of, opt_view, or_empty, decimal_string, int_decimal, parse_u32, parse_u32_spec, str_eq};

verus! {

/// What ffprobe reports of one stream, as read from its JSON output.
#[derive(Debug, Clone)]
pub struct ProbeStream {
    /// `codec_type` ("video", "audio", ...), when a string.
    pub codec_type: Option<String>,
    /// `width`, when a non-negative integer.
    pub width: Option<u64>,
    /// `height`, when a non-negative integer.
    pub height: Option<u64>,
    /// `codec_name`, when a string.
    pub codec_name: Option<String>,
    /// `bit_rate`, when a string.
    pub bit_rate: Option<String>,
    /// `channels`, when a non-negative integer.
    pub channels: Option<u64>,
    /// `sample_rate`, when a string.
    pub sample_rate: Option<String>,
    /// `tags.language`, when a string.
    pub language: Option<String>,
}

/// What ffprobe reports of one stream, as characters.
pub struct ProbeStreamView {
    pub codec_type: Option<Seq<char>>,
    pub width: Option<u64>,
    pub height: Option<u64>,
    pub codec_name: Option<Seq<char>>,
    pub bit_rate: Option<Seq<char>>,
    pub channels: Option<u64>,
    pub sample_rate: Option<Seq<char>>,
    pub language: Option<Seq<char>>,
}

impl View for ProbeStream {
    type V = ProbeStreamView;

    open spec fn view(&self) -> ProbeStreamView {
        ProbeStreamView {
            codec_type: opt_view(self.codec_type),
            width: self.width,
            height: self.height,
            codec_name: opt_view(self.codec_name),
            bit_rate: opt_view(self.bit_rate),
            channels: self.channels,
            sample_rate: opt_view(self.sample_rate),
            language: opt_view(self.language),
        }
    }
}

/// The views of probe entries.
pub open spec fn probe_views(es: Seq<ProbeStream>) -> Seq<ProbeStreamView> {
    es.map_values(|p: ProbeStream| p@)
}

/// A number written in a string that may be absent; zero when absent or not
/// a `u32`.
pub open spec fn number_or_zero(o: Option<Seq<char>>) -> u32 {
    match o {
        Some(s) => or_zero(parse_u32_spec(s)),
        None => 0,
    }
}

/// A dimension: the reported integer, truncated to 32 bits; zero if absent.
pub open spec fn dimension(o: Option<u64>) -> u32 {
    match o {
        Some(v) => (v % 0x1_0000_0000) as u32,
        None => 0,
    }
}

/// The video stream described by a probe entry: resolution `WxH`, id
/// `video_WxH`, named by its resolution, selected, SDR.
pub open spec fn video_from_probe(p: ProbeStreamView, v: VideoStream) -> bool {
    let w = dimension(p.width);
    let h = dimension(p.height);
    let res = int_decimal(w as int).push('x') + int_decimal(h as int);
    &&& v.width == w
    &&& v.height == h
    &&& v.resolution@ == res
    &&& v.base.id@ == "video_"@ + res
    &&& v.base.name@ == res
    &&& v.base.bandwidth == number_or_zero(p.bit_rate)
    &&& v.base.codecs@ == or_empty(p.codec_name)
    &&& v.base.language@ == Seq::<char>::empty()
    &&& v.base.group_id is None
    &&& v.base.selected == Some(true)
    &&& v.frame_rate == 0
    &&& v.video_range@ == "SDR"@
}

/// The audio stream described by a probe entry: id "audio", named "Audio",
/// selected and default; two channels unless reported.
pub open spec fn audio_from_probe(p: ProbeStreamView, a: AudioStream) -> bool {
    &&& a.base.id@ == "audio"@
    &&& a.base.name@ == "Audio"@
    &&& a.base.bandwidth == number_or_zero(p.bit_rate)
    &&& a.base.codecs@ == or_empty(p.codec_name)
    &&& a.base.language@ == or_empty(p.language)
    &&& a.base.group_id is None
    &&& a.base.selected == Some(true)
    &&& a.channels@ == int_decimal(
        match p.channels {
            Some(c) => c as int,
            None => 2,
        },
    )
    &&& a.sample_rate == number_or_zero(p.sample_rate)
    &&& a.is_default
}

/// An entry is of codec type `t`.
pub open spec fn has_type(t: Seq<char>) -> spec_fn(ProbeStreamView) -> bool {
    |p: ProbeStreamView| p.codec_type == Some(t)
}

/// The probe entries of one codec type, in order.
pub open spec fn entries_of_type(s: Seq<ProbeStreamView>, t: Seq<char>) -> Seq<ProbeStreamView> {
    s.filter(has_type(t))
}

/// The message when ffprobe reports neither video nor audio.
pub open spec fn no_stream_message() -> Seq<char> {
    "未找到有效的视频或音频流"@
}

fn text_of(o: &Option<String>) -> (r: String)
    ensures
        r@ == or_empty(opt_view(*o)),
{
    match o {
        Some(s) => s.clone(),
        None => String::new(),
    }
}

fn number_of(o: &Option<String>) -> (r: u32)
    ensures
        r == number_or_zero(opt_view(*o)),
{
    match o {
        Some(s) => match parse_u32(&chars_of(s.as_str())) {
            Some(v) => v,
            None => 0,
        },
        None => 0,
    }
}

fn dimension_of(o: Option<u64>) -> (r: u32)
    ensures
        r == dimension(o),
{
    match o {
        Some(v) => {
            let t = (v % 0x1_0000_0000) as u32;
            t
        },
        None => 0,
    }
}

/// The video stream of one probe entry.
pub fn video_stream(p: &ProbeStream) -> (v: VideoStream)
    ensures
        video_from_probe(p@, v),
{
    let w = dimension_of(p.width);
    let h = dimension_of(p.height);
    let resolution = decimal_string(w as i128).concat("x").concat(
        decimal_string(h as i128).as_str(),
    );
    proof {
        reveal_strlit("x");
        assert(resolution@ =~= int_decimal(w as int).push('x') + int_decimal(h as int));
    }
    VideoStream {
        base: BaseStream {
            id: String::from_str("video_").concat(resolution.as_str()),
            bandwidth: number_of(&p.bit_rate),
            codecs: text_of(&p.codec_name),
            language: String::new(),
            name: resolution.clone(),
            group_id: None,
            selected: Some(true),
        },
        resolution,
        width: w,
        height: h,
        frame_rate: 0,
        video_range: String::from_str("SDR"),
    }
}

/// The audio stream of one probe entry.
pub fn audio_stream(p: &ProbeStream) -> (a: AudioStream)
    ensures
        audio_from_probe(p@, a),
{
    let channels = match p.channels {
        Some(c) => c,
        None => 2,
    };
    AudioStream {
        base: BaseStream {
            id: String::from_str("audio"),
            bandwidth: number_of(&p.bit_rate),
            codecs: text_of(&p.codec_name),
            language: text_of(&p.language),
            name: String::from_str("Audio"),
            group_id: None,
            selected: Some(true),
        },
        channels: decimal_string(channels as i128),
        sample_rate: number_of(&p.sample_rate),
        is_default: true,
    }
}

/// What ffprobe's entries give: one video stream for each entry of type
/// "video" and one audio stream for each entry of type "audio", in order,
/// other entries ignored; refused when there is neither.
pub open spec fn probe_outcome(
    entries: Seq<ProbeStreamView>,
    r: Result<(Vec<VideoStream>, Vec<AudioStream>), String>,
) -> bool {
    match r {
        Ok((videos, audios)) => {
            &&& videos@.len() == entries_of_type(entries, "video"@).len()
            &&& forall|i: int|
                0 <= i < videos@.len() ==> video_from_probe(
                    entries_of_type(entries, "video"@)[i],
                    #[trigger] videos@[i],
                )
            &&& audios@.len() == entries_of_type(entries, "audio"@).len()
            &&& forall|i: int|
                0 <= i < audios@.len() ==> audio_from_probe(
                    entries_of_type(entries, "audio"@)[i],
                    #[trigger] audios@[i],
                )
            &&& videos@.len() + audios@.len() > 0
        },
        Err(m) => {
            &&& m@ == no_stream_message()
            &&& entries_of_type(entries, "video"@).len() == 0
            &&& entries_of_type(entries, "audio"@).len() == 0
        },
    }
}

/// The streams read from ffprobe's entries carry what ffprobe reports of
/// them: each audio stream has the codec, language and channel count of its
/// entry (two channels when none is reported) and, when reported as a
/// number, its bit rate and sample rate; each video stream has the codec,
/// the width and height (zero when not reported) and, when reported as a
/// number, the bit rate of its entry.
pub proof fn lemma_probe_streams_carry_reports(
    entries: Seq<ProbeStreamView>,
    videos: Vec<VideoStream>,
    audios: Vec<AudioStream>,
)
    requires
        probe_outcome(entries, Ok::<(Vec<VideoStream>, Vec<AudioStream>), String>((videos, audios))),
    ensures
        forall|i: int|
            0 <= i < audios@.len() ==> {
                let e = entries_of_type(entries, "audio"@)[i];
                &&& e.codec_type == Some("audio"@)
                &&& #[trigger] audios@[i].base.codecs@ == (match e.codec_name {
                    Some(n) => n,
                    None => Seq::<char>::empty(),
                })
                &&& audios@[i].base.language@ == (match e.language {
                    Some(n) => n,
                    None => Seq::<char>::empty(),
                })
                &&& audios@[i].channels@ == int_decimal(
                    match e.channels {
                        Some(c) => c as int,
                        None => 2,
                    },
                )
                &&& (e.bit_rate is Some && parse_u32_spec(e.bit_rate->0) is Some ==> audios@[i].base.bandwidth
                    == parse_u32_spec(e.bit_rate->0)->0)
                &&& (e.sample_rate is Some && parse_u32_spec(e.sample_rate->0) is Some ==> audios@[i].sample_rate
                    == parse_u32_spec(e.sample_rate->0)->0)
            },
        forall|i: int|
            0 <= i < videos@.len() ==> {
                let e = entries_of_type(entries, "video"@)[i];
                &&& e.codec_type == Some("video"@)
                &&& #[trigger] videos@[i].base.codecs@ == (match e.codec_name {
                    Some(n) => n,
                    None => Seq::<char>::empty(),
                })
                &&& (e.width is Some && e.width->0 <= u32::MAX ==> videos@[i].width == e.width->0)
                &&& (e.height is Some && e.height->0 <= u32::MAX ==> videos@[i].height == e.height->0)
                &&& (e.width is None ==> videos@[i].width == 0)
                &&& (e.height is None ==> videos@[i].height == 0)
                &&& (e.bit_rate is Some && parse_u32_spec(e.bit_rate->0) is Some ==> videos@[i].base.bandwidth
                    == parse_u32_spec(e.bit_rate->0)->0)
            },
{
    assert forall|i: int| 0 <= i < audios@.len() implies entries_of_type(entries, "audio"@)[i].codec_type
        == Some("audio"@) by {
        let f = entries_of_type(entries, "audio"@);
        assert(f.contains(f[i]));
        entries.filter_lemma(has_type("audio"@));
    }
    assert forall|i: int| 0 <= i < videos@.len() implies entries_of_type(entries, "video"@)[i].codec_type
        == Some("video"@) by {
        let f = entries_of_type(entries, "video"@);
        assert(f.contains(f[i]));
        entries.filter_lemma(has_type("video"@));
    }
}

/// Whether an entry is of codec type `t`.
fn is_type(p: &ProbeStream, t: &str) -> (r: bool)
    ensures
        r == (p@.codec_type == Some(t@)),
{
    match &p.codec_type {
        Some(c) => str_eq(c.as_str(), t),
        None => false,
    }
}

/// The streams ffprobe reports for a direct media URL: one video stream for
/// each entry of type "video" and one audio stream for each entry of type
/// "audio", in order; other entries are ignored. Refused when there is
/// neither.
pub fn streams_from_probe(entries: &Vec<ProbeStream>) -> (r: Result<
    (Vec<VideoStream>, Vec<AudioStream>),
    String,
>)
    ensures
        probe_outcome(probe_views(entries@), r),
{
    let ghost ev = probe_views(entries@);
    let mut videos: Vec<VideoStream> = Vec::new();
    let mut audios: Vec<AudioStream> = Vec::new();
    let mut i: usize = 0;
    while i < entries.len()
        invariant
            i <= entries.len(),
            ev == probe_views(entries@),
            videos@.len() == entries_of_type(ev.take(i as int), "video"@).len(),
            forall|k: int|
                0 <= k < videos@.len() ==> video_from_probe(
                    entries_of_type(ev.take(i as int), "video"@)[k],
                    #[trigger] videos@[k],
                ),
            audios@.len() == entries_of_type(ev.take(i as int), "audio"@).len(),
            forall|k: int|
                0 <= k < audios@.len() ==> audio_from_probe(
                    entries_of_type(ev.take(i as int), "audio"@)[k],
                    #[trigger] audios@[k],
                ),
        decreases entries.len() - i,
    {
        let p = &entries[i];
        let is_video = is_type(p, "video");
        let is_audio = is_type(p, "audio");
        let ghost vs_before = videos@;
        let ghost as_before = audios@;
        if is_video {
            let v = video_stream(p);
            videos.push(v);
        } else if is_audio {
            let a = audio_stream(p);
            audios.push(a);
        }
        proof {
            let prev = ev.take(i as int);
            let t = ev.take(i + 1);
            assert(ev[i as int] == p@);
            assert(t =~= prev.push(p@));
            prev.lemma_filter_push(p@, has_type("video"@));
            prev.lemma_filter_push(p@, has_type("audio"@));
            reveal_strlit("video");
            reveal_strlit("audio");
            assert("video"@[0] != "audio"@[0]);
            if is_video {
                assert(videos@ =~= vs_before.push(videos@.last()));
            }
            if is_audio && !is_video {
                assert(audios@ =~= as_before.push(audios@.last()));
            }
        }
        i = i + 1;
    }
    proof {
        assert(ev.take(ev.len() as int) =~= ev);
    }
    if videos.len() == 0 && audios.len() == 0 {
        return Err(String::from_str("未找到有效的视频或音频流"));
    }
    Ok((videos, audios))
}

// ---------------------------------------------------------------------
// ffprobe's JSON output
// ---------------------------------------------------------------------

/// What `serde_json` reads from ffprobe's JSON output: the entries of the
/// `streams` array (absent when there is no such array) and the text of
/// `format.duration` (a string as written, a number in `serde_json`'s
/// writing); or the parser's error text when the input is not JSON.
pub uninterp spec fn ffprobe_entries_of(json: Seq<char>) -> Result<
    (Option<Seq<ProbeStreamView>>, Option<Seq<char>>),
    Seq<char>,
>;

/// `serde_json::from_str` on ffprobe's output, then the fields of each
/// stream entry (`codec_type`, `width`, `height`, `codec_name`, `bit_rate`,
/// `channels`, `sample_rate`, `tags.language`, each when of the right JSON
/// type) and of `format.duration`. The contract names the result.
#[verifier::external_body]
fn probe_entries(json: &str) -> (r: Result<(Option<Vec<ProbeStream>>, Option<String>), String>)
    ensures
        match r {
            Ok((es, d)) => ffprobe_entries_of(json@) == Ok::<
                (Option<Seq<ProbeStreamView>>, Option<Seq<char>>),
                Seq<char>,
            >((
                match es {
                    Some(v) => Some(probe_views(v@)),
                    None => None,
                },
                opt_view(d),
            )),
            Err(e) => ffprobe_entries_of(json@) == Err::<
                (Option<Seq<ProbeStreamView>>, Option<Seq<char>>),
                Seq<char>,
            >(e@),
        },
{
    let v: Value = from_str(json).map_err(|e| e.to_string())?;
    let d = &v["format"]["duration"];
    Ok((
        v["streams"].as_array().map(|a| a.iter().map(|s| {
            let t = |p| s.pointer(p)?.as_str().map(String::from);
            let u = |p| s.pointer(p)?.as_u64();
            ProbeStream { codec_type: t("/codec_type"), width: u("/width"), height: u("/height"),
                codec_name: t("/codec_name"), bit_rate: t("/bit_rate"), channels: u("/channels"),
                sample_rate: t("/sample_rate"), language: t("/tags/language") }
        }).collect()),
        d.as_str().map(String::from).or(d.as_number().map(Number::to_string)),
    ))
}

/// The message when ffprobe's output is not JSON, with the parser's text.
pub open spec fn probe_parse_error_message(e: Seq<char>) -> Seq<char> {
    "解析 ffprobe 输出失败: "@ + e
}

/// The stream entries read, none when there is no `streams` array.
pub open spec fn entries_or_none(es: Option<Seq<ProbeStreamView>>) -> Seq<ProbeStreamView> {
    match es {
        Some(s) => s,
        None => Seq::empty(),
    }
}

/// Reads the JSON that `ffprobe -print_format json -show_format
/// -show_streams` prints: the video and audio streams of its entries, and the
/// duration as written (a number of seconds). Refused when the text is not
/// JSON, or when it reports neither video nor audio.
pub fn parse_ffprobe_output(json: &str) -> (r: Result<
    (Vec<VideoStream>, Vec<AudioStream>, Option<String>),
    String,
>)
    ensures
        match ffprobe_entries_of(json@) {
            Err(e) => r matches Err(m) && m@ == probe_parse_error_message(e),
            Ok((es, d)) => match r {
                Ok((videos, audios, d2)) => probe_outcome(
                    entries_or_none(es),
                    Ok::<(Vec<VideoStream>, Vec<AudioStream>), String>((videos, audios)),
                ) && opt_view(d2) == d,
                Err(m) => probe_outcome(
                    entries_or_none(es),
                    Err::<(Vec<VideoStream>, Vec<AudioStream>), String>(m),
                ),
            },
        },
{
    match probe_entries(json) {
        Err(e) => Err(String::from_str("解析 ffprobe 输出失败: ").concat(e.as_str())),
        Ok((es, d)) => {
            let entries = match es {
                Some(v) => v,
                None => Vec::new(),
            };
            proof {
                assert(probe_views(entries@) =~= entries_or_none(
                    match es {
                        Some(v) => Some(probe_views(v@)),
                        None => None,
                    },
                ));
            }
            match streams_from_probe(&entries) {
                Ok((videos, audios)) => Ok((videos, audios, d)),
                Err(m) => Err(m),
            }
        },
    }
}

} // verus!
