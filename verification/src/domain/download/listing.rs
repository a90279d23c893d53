//! The stream listing that N_m3u8DL-RE prints when it parses a URL, read
//! line by line, either bare (`Vid 960x544 | 785 Kbps | ...`) or behind a log
//! prefix (`21:29:59.639 INFO : Vid 960x544 | ...`).

use vstd::prelude::*;

use crate::text::string_views;

use super::stream_info::{
    after_tag, audio_from_part, kbps_of, parse_audio_line, parse_subtitle_line,
    parse_video_line, subtitle_from_part, video_from_part, video_line_fits, video_line_kbps,
    AudioStream, SubtitleStream, VideoStream,
};
use crate::text::{
    capture, chars_of, lines, lines_of, parse_u32, parse_u32_spec, piece_views, regex_capture,
    string_of_chars, trim,
    trim_range,
};

verus! {

// ---------------------------------------------------------------------
// Patterns found with the regex crate
// ---------------------------------------------------------------------

/// The message of a log line, as the `regex` crate captures it (group 2 of
/// `^\d{2}:\d{2}:\d{2}\.\d+\s+(INFO|WARN|ERROR|DEBUG)\s*:\s*(.+)$`).
pub open spec fn log_message_of(line: Seq<char>) -> Option<Seq<char>> {
    regex_capture(
        "^\\d{2}:\\d{2}:\\d{2}\\.\\d+\\s+(INFO|WARN|ERROR|DEBUG)\\s*:\\s*(.+)$"@,
        line,
        2,
    )
}

/// The message after the time stamp and level, when the line has that form.
fn log_line_message(line: &str) -> (r: Option<String>)
    ensures
        match r {
            Some(m) => log_message_of(line@) == Some(m@),
            None => log_message_of(line@) is None,
        },
{
    capture("^\\d{2}:\\d{2}:\\d{2}\\.\\d+\\s+(INFO|WARN|ERROR|DEBUG)\\s*:\\s*(.+)$", line, 2)
}

/// The digits before "segment" (or "Segment") in a line, as the `regex`
/// crate captures them (group 1 of `(\d+)\s*[Ss]egment`).
pub open spec fn segment_digits_of(line: Seq<char>) -> Option<Seq<char>> {
    regex_capture("(\\d+)\\s*[Ss]egment"@, line, 1)
}

/// The leftmost run of digits followed by optional whitespace and "segment".
fn segment_digits(line: &str) -> (r: Option<String>)
    ensures
        match r {
            Some(d) => segment_digits_of(line@) == Some(d@),
            None => segment_digits_of(line@) is None,
        },
{
    capture("(\\d+)\\s*[Ss]egment", line, 1)
}

/// The number of segments a line announces: the digits before "segment",
/// when they form a `u32`.
pub open spec fn segments_in(line: Seq<char>) -> Option<u32> {
    match segment_digits_of(line) {
        Some(d) => parse_u32_spec(d),
        None => None,
    }
}

/// The number of segments, given the digits found before "segment".
pub fn segments_from_digits(digits: Option<String>) -> (r: Option<u32>)
    ensures
        r == match digits {
            Some(d) => parse_u32_spec(d@),
            None => None,
        },
{
    match digits {
        Some(d) => parse_u32(&chars_of(d.as_str())),
        None => None,
    }
}

/// The number of segments a line announces (`56 Segments`), if any.
pub fn parse_segments_from_line(line: &str) -> (r: Option<u32>)
    ensures
        r == segments_in(line@),
{
    segments_from_digits(segment_digits(line))
}

// ---------------------------------------------------------------------
// Sorting by bandwidth
// ---------------------------------------------------------------------

/// Streams that have a bandwidth.
pub trait HasBandwidth {
    /// The bandwidth in bits per second.
    spec fn bandwidth_of(&self) -> u32;

    /// The bandwidth in bits per second.
    fn bandwidth(&self) -> (r: u32)
        ensures
            r == self.bandwidth_of(),
    ;
}

impl HasBandwidth for VideoStream {
    open spec fn bandwidth_of(&self) -> u32 {
        self.base.bandwidth
    }

    fn bandwidth(&self) -> (r: u32) {
        self.base.bandwidth
    }
}

impl HasBandwidth for AudioStream {
    open spec fn bandwidth_of(&self) -> u32 {
        self.base.bandwidth
    }

    fn bandwidth(&self) -> (r: u32) {
        self.base.bandwidth
    }
}

/// Where a stream of bandwidth `k` goes in a list sorted by bandwidth,
/// highest first: before the first lower one, after all that are at least
/// as high.
pub open spec fn insert_pos<T: HasBandwidth>(s: Seq<T>, k: u32) -> int
    decreases s.len(),
{
    if s.len() == 0 {
        0
    } else if s[0].bandwidth_of() < k {
        0
    } else {
        1 + insert_pos(s.drop_first(), k)
    }
}

/// The streams sorted by bandwidth, highest first; streams of equal
/// bandwidth keep their order (a stable sort).
pub open spec fn sorted_by_bandwidth<T: HasBandwidth>(s: Seq<T>) -> Seq<T>
    decreases s.len(),
{
    if s.len() == 0 {
        s
    } else {
        let r = sorted_by_bandwidth(s.drop_last());
        r.insert(insert_pos(r, s.last().bandwidth_of()), s.last())
    }
}

proof fn lemma_insert_pos<T: HasBandwidth>(s: Seq<T>, k: u32, j: int)
    requires
        0 <= j <= s.len(),
        forall|m: int| 0 <= m < j ==> s[m].bandwidth_of() >= k,
        j == s.len() || s[j].bandwidth_of() < k,
    ensures
        insert_pos(s, k) == j,
    decreases j,
{
    if j > 0 {
        assert(s.len() > 0);
        lemma_insert_pos(s.drop_first(), k, j - 1);
    }
}

/// The inserted position of `insert_pos` keeps a list sorted (highest
/// first).
proof fn lemma_insert_keeps_sorted<T: HasBandwidth>(s: Seq<T>, x: T)
    requires
        forall|a: int, b: int|
            0 <= a < b < s.len() ==> s[a].bandwidth_of() >= s[b].bandwidth_of(),
    ensures
        0 <= insert_pos(s, x.bandwidth_of()) <= s.len(),
        forall|m: int| 0 <= m < insert_pos(s, x.bandwidth_of()) ==> s[m].bandwidth_of() >= x.bandwidth_of(),
        forall|m: int|
            insert_pos(s, x.bandwidth_of()) <= m < s.len() ==> s[m].bandwidth_of() < x.bandwidth_of(),
    decreases s.len(),
{
    if s.len() > 0 {
        let t = s.drop_first();
        lemma_insert_keeps_sorted(t, x);
        if s[0].bandwidth_of() >= x.bandwidth_of() {
            assert forall|m: int| 0 <= m < insert_pos(s, x.bandwidth_of()) implies s[m].bandwidth_of()
                >= x.bandwidth_of() by {
                if m > 0 {
                    assert(s[m] == t[m - 1]);
                }
            }
            assert forall|m: int| insert_pos(s, x.bandwidth_of()) <= m < s.len() implies s[m].bandwidth_of()
                < x.bandwidth_of() by {
                assert(s[m] == t[m - 1]);
            }
        } else {
            assert forall|m: int| 0 <= m < s.len() implies s[m].bandwidth_of() < x.bandwidth_of() by {
                if m > 0 {
                    assert(s[0].bandwidth_of() >= s[m].bandwidth_of());
                }
            }
        }
    }
}

/// Sorting by bandwidth orders the streams from the highest bandwidth down,
/// and keeps every stream.
pub proof fn lemma_sorted_by_bandwidth<T: HasBandwidth>(s: Seq<T>)
    ensures
        sorted_by_bandwidth(s).len() == s.len(),
        sorted_by_bandwidth(s).to_multiset() == s.to_multiset(),
        forall|a: int, b: int|
            0 <= a < b < s.len() ==> sorted_by_bandwidth(s)[a].bandwidth_of()
                >= sorted_by_bandwidth(s)[b].bandwidth_of(),
    decreases s.len(),
{
    broadcast use vstd::seq_lib::group_to_multiset_ensures;

    if s.len() > 0 {
        let r = sorted_by_bandwidth(s.drop_last());
        let x = s.last();
        lemma_sorted_by_bandwidth(s.drop_last());
        lemma_insert_keeps_sorted(r, x);
        let p = insert_pos(r, x.bandwidth_of());
        let q = r.insert(p, x);
        assert forall|a: int, b: int| 0 <= a < b < q.len() implies q[a].bandwidth_of()
            >= q[b].bandwidth_of() by {
            if b < p {
            } else if b == p {
            } else if a < p {
                assert(q[b] == r[b - 1]);
            } else if a == p {
                assert(q[b] == r[b - 1]);
            } else {
                assert(q[a] == r[a - 1]);
                assert(q[b] == r[b - 1]);
            }
        }
        assert(s =~= s.drop_last().push(x));
        vstd::seq_lib::to_multiset_insert(r, p, x);
    }
}

/// Sorts streams by bandwidth, highest first, keeping the order of equal
/// ones.
pub fn sort_by_bandwidth<T: HasBandwidth>(v: Vec<T>) -> (r: Vec<T>)
    ensures
        r@ == sorted_by_bandwidth(v@),
{
    let ghost orig = v@;
    assert(orig.len() == v.len());
    let mut src = v;
    let mut out: Vec<T> = Vec::new();
    let mut i: usize = 0;
    proof {
        assert(orig.take(0) =~= Seq::<T>::empty());
        assert(orig.skip(0) =~= orig);
    }
    while src.len() > 0
        invariant
            i <= orig.len(),
            orig.len() <= usize::MAX,
            src@ == orig.skip(i as int),
            out@ == sorted_by_bandwidth(orig.take(i as int)),
        decreases src.len(),
    {
        let x = src.remove(0);
        let k = x.bandwidth();
        let mut j: usize = 0;
        while j < out.len() && out[j].bandwidth() >= k
            invariant
                j <= out.len(),
                forall|m: int| 0 <= m < j ==> out@[m].bandwidth_of() >= k,
            decreases out.len() - j,
        {
            j = j + 1;
        }
        proof {
            lemma_insert_pos(out@, k, j as int);
            let t = orig.take(i + 1);
            assert(orig.skip(i as int)[0] == orig[i as int]);
            assert(t.drop_last() =~= orig.take(i as int));
            assert(t.last() == x);
            assert(src@ =~= orig.skip(i + 1));
        }
        out.insert(j, x);
        i = i + 1;
    }
    proof {
        assert(orig.skip(i as int).len() == 0);
        assert(orig.take(i as int) =~= orig);
    }
    out
}

// ---------------------------------------------------------------------
// The listing
// ---------------------------------------------------------------------

/// The message of a (trimmed) line: what follows a log prefix, or the line
/// itself.
pub open spec fn message_of(line: Seq<char>) -> Seq<char> {
    match log_message_of(line) {
        Some(m) => m,
        None => line,
    }
}

/// The messages of a listing, one per line.
pub open spec fn messages_of(stdout: Seq<char>) -> Seq<Seq<char>> {
    lines_of(stdout).map_values(|l: Seq<char>| message_of(trim(l)))
}

/// A message carries the tag.
pub open spec fn tagged(tag: Seq<char>) -> spec_fn(Seq<char>) -> bool {
    |m: Seq<char>| after_tag(m, tag) is Some
}

/// The description after the tag of a message that carries it.
pub open spec fn part_of(m: Seq<char>, tag: Seq<char>) -> Seq<char> {
    after_tag(m, tag)->0
}

/// The segment count a message announces ("N Segments"), zero for none.
pub open spec fn segments_of_message(m: Seq<char>) -> u32 {
    match segments_in(m) {
        Some(n) => n,
        None => 0,
    }
}

/// The larger of two numbers.
pub open spec fn max_u32(a: u32, b: u32) -> u32 {
    if a >= b {
        a
    } else {
        b
    }
}

/// The largest segment count seen in the messages (zero for none).
pub open spec fn max_segments(ms: Seq<Seq<char>>) -> u32
    decreases ms.len(),
{
    if ms.len() == 0 {
        0
    } else {
        max_u32(max_segments(ms.drop_last()), segments_of_message(ms.last()))
    }
}

/// Every video message of the listing has a bandwidth that fits.
pub open spec fn rates_fit(stdout: Seq<char>) -> bool {
    forall|i: int|
        0 <= i < messages_of(stdout).len() ==> video_line_kbps(#[trigger] messages_of(stdout)[i])
            * 1000 <= u32::MAX
}

/// The streams of a listing (the duration is read separately).
#[derive(Debug)]
pub struct ListedStreams {
    /// Video streams, highest bandwidth first.
    pub videos: Vec<VideoStream>,
    /// Audio streams, highest bandwidth first.
    pub audios: Vec<AudioStream>,
    /// Subtitle streams, in order.
    pub subtitles: Vec<SubtitleStream>,
    /// The number of segments: the largest "N Segments" count announced.
    pub segment_count: u32,
}

/// The streams read from the messages, before sorting: `vs[k]` is the video
/// stream of the `k`-th video message, and so on.
pub open spec fn read_in_order(
    ms: Seq<Seq<char>>,
    vs: Seq<VideoStream>,
    aus: Seq<AudioStream>,
    subs: Seq<SubtitleStream>,
) -> bool {
    let vm = ms.filter(tagged("Vid "@));
    let am = ms.filter(tagged("Aud "@));
    let sm = ms.filter(tagged("Sub "@));
    &&& vs.len() == vm.len()
    &&& forall|k: int| 0 <= k < vs.len() ==> video_from_part(part_of(vm[k], "Vid "@), #[trigger] vs[k])
    &&& aus.len() == am.len()
    &&& forall|k: int| 0 <= k < aus.len() ==> audio_from_part(part_of(am[k], "Aud "@), #[trigger] aus[k])
    &&& subs.len() == sm.len()
    &&& forall|k: int|
        0 <= k < subs.len() ==> subtitle_from_part(part_of(sm[k], "Sub "@), #[trigger] subs[k])
}

/// The message of one line: trimmed, and stripped of a log prefix.
fn line_message(line: &Vec<char>) -> (r: String)
    ensures
        r@ == message_of(trim(line@)),
{
    proof {
        assert(line@.subrange(0, line@.len() as int) =~= line@);
    }
    let t = string_of_chars(&trim_range(line, 0, line.len()));
    match log_line_message(t.as_str()) {
        Some(m) => m,
        None => t,
    }
}

/// The messages of a listing, one per line: each line trimmed and stripped
/// of its log prefix.
pub fn listing_messages(stdout: &str) -> (r: Vec<String>)
    ensures
        string_views(r@) == messages_of(stdout@),
{
    let ls = lines(stdout);
    let ghost ms = messages_of(stdout@);
    let mut out: Vec<String> = Vec::new();
    let mut i: usize = 0;
    while i < ls.len()
        invariant
            i <= ls.len(),
            piece_views(ls@) == lines_of(stdout@),
            ms == messages_of(stdout@),
            ms.len() == ls.len(),
            string_views(out@) == ms.take(i as int),
        decreases ls.len() - i,
    {
        let m = line_message(&ls[i]);
        proof {
            assert(ls@[i as int]@ == lines_of(stdout@)[i as int]);
            assert(m@ == ms[i as int]);
        }
        let ghost before = out@;
        out.push(m);
        proof {
            assert(string_views(out@) =~= string_views(before).push(m@));
            assert(ms.take(i + 1) =~= ms.take(i as int).push(ms[i as int]));
        }
        i = i + 1;
    }
    proof {
        assert(ms.take(ms.len() as int) =~= ms);
    }
    out
}

/// Whether every video line of a listing has a bandwidth that fits.
pub fn stdout_rates_fit(stdout: &str) -> (r: bool)
    ensures
        r == rates_fit(stdout@),
{
    let ls = lines(stdout);
    let ghost ms = messages_of(stdout@);
    let mut i: usize = 0;
    while i < ls.len()
        invariant
            i <= ls.len(),
            piece_views(ls@) == lines_of(stdout@),
            ms == messages_of(stdout@),
            ms.len() == ls.len(),
            forall|j: int| 0 <= j < i ==> video_line_kbps(#[trigger] ms[j]) * 1000 <= u32::MAX,
        decreases ls.len() - i,
    {
        let m = line_message(&ls[i]);
        proof {
            assert(ls@[i as int]@ == lines_of(stdout@)[i as int]);
            assert(m@ == ms[i as int]);
        }
        if !video_line_fits(m.as_str()) {
            return false;
        }
        i = i + 1;
    }
    true
}

/// Reads the streams of a listing: a video, audio or subtitle stream for
/// each line whose message carries the tag (`Vid `, `Aud `, `Sub `, at its
/// start or after `| `); videos and audios sorted by bandwidth, highest
/// first; and the largest segment count seen.
pub fn parse_stdout_streams(stdout: &str) -> (r: ListedStreams)
    requires
        rates_fit(stdout@),
    ensures
        exists|vs: Seq<VideoStream>, aus: Seq<AudioStream>|
            #[trigger] read_in_order(messages_of(stdout@), vs, aus, r.subtitles@) && r.videos@
                == sorted_by_bandwidth(vs) && r.audios@ == sorted_by_bandwidth(aus),
        r.segment_count == max_segments(messages_of(stdout@)),
{
    let ls = lines(stdout);
    let ghost ms = messages_of(stdout@);
    let mut videos: Vec<VideoStream> = Vec::new();
    let mut audios: Vec<AudioStream> = Vec::new();
    let mut subtitles: Vec<SubtitleStream> = Vec::new();
    let mut segments: u32 = 0;
    let mut i: usize = 0;
    while i < ls.len()
        invariant
            i <= ls.len(),
            piece_views(ls@) == lines_of(stdout@),
            ms == messages_of(stdout@),
            ms.len() == ls.len(),
            rates_fit(stdout@),
            read_in_order(ms.take(i as int), videos@, audios@, subtitles@),
            segments == max_segments(ms.take(i as int)),
        decreases ls.len() - i,
    {
        let m = line_message(&ls[i]);
        proof {
            assert(ls@[i as int]@ == lines_of(stdout@)[i as int]);
            assert(m@ == ms[i as int]);
            assert(video_line_kbps(ms[i as int]) * 1000 <= u32::MAX);
        }
        let ghost (v0, a0, s0) = (videos@, audios@, subtitles@);
        let mut seg = segments;
        match parse_video_line(m.as_str()) {
            Some(v) => {
                videos.push(v);
                proof {
                    assert(videos@.drop_last() =~= v0);
                }
            },
            None => {},
        }
        match parse_audio_line(m.as_str()) {
            Some(a) => {
                audios.push(a);
                proof {
                    assert(audios@.drop_last() =~= a0);
                }
            },
            None => {},
        }
        match parse_subtitle_line(m.as_str()) {
            Some(s) => {
                subtitles.push(s);
                proof {
                    assert(subtitles@.drop_last() =~= s0);
                }
            },
            None => {},
        }
        match parse_segments_from_line(m.as_str()) {
            Some(n) => {
                if n > seg {
                    seg = n;
                }
            },
            None => {},
        }
        proof {
            let prev = ms.take(i as int);
            let t = ms.take(i + 1);
            assert(t =~= prev.push(m@));
            assert(t.drop_last() =~= prev);
            prev.lemma_filter_push(m@, tagged("Vid "@));
            prev.lemma_filter_push(m@, tagged("Aud "@));
            prev.lemma_filter_push(m@, tagged("Sub "@));
            lemma_read_step(prev, m@, v0, a0, s0, videos@, audios@, subtitles@);
        }
        segments = seg;
        i = i + 1;
    }
    proof {
        assert(ms.take(ms.len() as int) =~= ms);
    }
    let ghost (vs, aus) = (videos@, audios@);
    let videos = sort_by_bandwidth(videos);
    let audios = sort_by_bandwidth(audios);
    let r = ListedStreams { videos, audios, subtitles, segment_count: segments };
    proof {
        assert(read_in_order(messages_of(stdout@), vs, aus, r.subtitles@) && r.videos@
            == sorted_by_bandwidth(vs) && r.audios@ == sorted_by_bandwidth(aus));
    }
    r
}

/// One more message keeps the streams read in order.
proof fn lemma_read_step(
    prev: Seq<Seq<char>>,
    m: Seq<char>,
    v0: Seq<VideoStream>,
    a0: Seq<AudioStream>,
    s0: Seq<SubtitleStream>,
    v1: Seq<VideoStream>,
    a1: Seq<AudioStream>,
    s1: Seq<SubtitleStream>,
)
    requires
        read_in_order(prev, v0, a0, s0),
        after_tag(m, "Vid "@) is Some ==> v1.len() == v0.len() + 1 && v1.drop_last() == v0
            && video_from_part(part_of(m, "Vid "@), v1.last()),
        after_tag(m, "Vid "@) is None ==> v1 == v0,
        after_tag(m, "Aud "@) is Some ==> a1.len() == a0.len() + 1 && a1.drop_last() == a0
            && audio_from_part(part_of(m, "Aud "@), a1.last()),
        after_tag(m, "Aud "@) is None ==> a1 == a0,
        after_tag(m, "Sub "@) is Some ==> s1.len() == s0.len() + 1 && s1.drop_last() == s0
            && subtitle_from_part(part_of(m, "Sub "@), s1.last()),
        after_tag(m, "Sub "@) is None ==> s1 == s0,
    ensures
        read_in_order(prev.push(m), v1, a1, s1),
{
    prev.lemma_filter_push(m, tagged("Vid "@));
    prev.lemma_filter_push(m, tagged("Aud "@));
    prev.lemma_filter_push(m, tagged("Sub "@));
    let vm = prev.push(m).filter(tagged("Vid "@));
    let am = prev.push(m).filter(tagged("Aud "@));
    let sm = prev.push(m).filter(tagged("Sub "@));
    assert forall|k: int| 0 <= k < v1.len() implies video_from_part(
        part_of(vm[k], "Vid "@),
        #[trigger] v1[k],
    ) by {
        if k < v0.len() {
            assert(v1[k] == v0[k]);
        }
    }
    assert forall|k: int| 0 <= k < a1.len() implies audio_from_part(
        part_of(am[k], "Aud "@),
        #[trigger] a1[k],
    ) by {
        if k < a0.len() {
            assert(a1[k] == a0[k]);
        }
    }
    assert forall|k: int| 0 <= k < s1.len() implies subtitle_from_part(
        part_of(sm[k], "Sub "@),
        #[trigger] s1[k],
    ) by {
        if k < s0.len() {
            assert(s1[k] == s0[k]);
        }
    }
}

} // verus!
