//! Media file information: streams, codecs, duration, metadata, and the container a
//! probed format name stands for. Durations are in microseconds and frame rates in
//! millionths of a frame per second.

use vstd::prelude::*;
use crate::container::Container;
use crate::format::opt_text;
use crate::text::{chars_of, eq_str, lemma_split_without_sep, split, split_char, trim, trim_ws};

verus! {

/// Type of media stream.
#[derive(Debug, Clone, Copy, PartialEq, Eq, Structural)]
pub enum StreamType {
    Video,
    Audio,
    Subtitle,
    Data,
    Attachment,
    Unknown,
}

/// The stream type ffprobe's `codec_type` names.
pub open spec fn stream_type_named(t: Option<Seq<char>>) -> StreamType {
    match t {
        Some(s) => if s == "video"@ {
            StreamType::Video
        } else if s == "audio"@ {
            StreamType::Audio
        } else if s == "subtitle"@ {
            StreamType::Subtitle
        } else if s == "data"@ {
            StreamType::Data
        } else if s == "attachment"@ {
            StreamType::Attachment
        } else {
            StreamType::Unknown
        },
        None => StreamType::Unknown,
    }
}

/// The stream type ffprobe's `codec_type` names (unknown when absent or unrecognized).
pub fn stream_type_of(codec_type: Option<&str>) -> (r: StreamType)
    ensures
        r == stream_type_named(
            match codec_type {
                Some(s) => Some(s@),
                None => None,
            },
        ),
{
    match codec_type {
        Some(s) => {
            let v = chars_of(s);
            if eq_str(&v, "video") {
                StreamType::Video
            } else if eq_str(&v, "audio") {
                StreamType::Audio
            } else if eq_str(&v, "subtitle") {
                StreamType::Subtitle
            } else if eq_str(&v, "data") {
                StreamType::Data
            } else if eq_str(&v, "attachment") {
                StreamType::Attachment
            } else {
                StreamType::Unknown
            }
        },
        None => StreamType::Unknown,
    }
}

/// Information about a single stream within a media file.
#[derive(Debug, Clone)]
pub struct StreamInfo {
    /// Stream index.
    pub index: usize,
    /// Stream type.
    pub stream_type: StreamType,
    /// Codec name (FFmpeg short name, e.g. "h264", "aac").
    pub codec_name: String,
    /// Human-readable codec description.
    pub codec_long_name: Option<String>,
    /// Bitrate in bits/second.
    pub bitrate: Option<u64>,
    /// Duration of this stream, in microseconds.
    pub duration_us: Option<u64>,
    /// Video: width in pixels.
    pub width: Option<u32>,
    /// Video: height in pixels.
    pub height: Option<u32>,
    /// Video: frame rate, in millionths of a frame per second.
    pub fps: Option<i64>,
    /// Video: pixel format name.
    pub pixel_format: Option<String>,
    /// Audio: sample rate in Hz.
    pub sample_rate: Option<u32>,
    /// Audio: number of channels.
    pub channels: Option<u16>,
    /// Audio: sample format name.
    pub sample_format: Option<String>,
    /// Stream-level metadata (tag, value).
    pub metadata: Vec<(String, String)>,
}

/// Complete information about a media file.
#[derive(Debug, Clone)]
pub struct MediaInfo {
    /// Detected container format.
    pub container: Option<Container>,
    /// Raw format name from FFmpeg (e.g. "matroska,webm").
    pub format_name: String,
    /// Total duration, in microseconds.
    pub duration_us: Option<u64>,
    /// Total bitrate in bits/second.
    pub bitrate: Option<u64>,
    /// Streams found in the file.
    pub streams: Vec<StreamInfo>,
    /// File-level metadata (title, artist, etc.), as (tag, value) pairs.
    pub metadata: Vec<(String, String)>,
}

/// The index of the first stream of type `t`, if any.
pub open spec fn first_of_type(s: Seq<StreamInfo>, t: StreamType) -> Option<int>
    decreases s.len(),
{
    if s.len() == 0 {
        None
    } else if s[0].stream_type == t {
        Some(0)
    } else {
        match first_of_type(s.drop_first(), t) {
            Some(i) => Some(i + 1),
            None => None,
        }
    }
}

/// The streams of type `t`, in order.
pub open spec fn streams_of_type(s: Seq<StreamInfo>, t: StreamType) -> Seq<StreamInfo>
    decreases s.len(),
{
    if s.len() == 0 {
        Seq::empty()
    } else {
        streams_of_type(s.drop_last(), t) + if s.last().stream_type == t {
            seq![s.last()]
        } else {
            Seq::empty()
        }
    }
}

/// The streams a list of references points at.
pub open spec fn derefs(v: Seq<&StreamInfo>) -> Seq<StreamInfo> {
    v.map_values(|r: &StreamInfo| *r)
}

proof fn lemma_first_of_type(s: Seq<StreamInfo>, t: StreamType, i: int)
    requires
        0 <= i < s.len(),
        s[i].stream_type == t,
        forall|j: int| 0 <= j < i ==> s[j].stream_type != t,
    ensures
        first_of_type(s, t) == Some(i),
    decreases i,
{
    if i > 0 {
        assert forall|j: int| 0 <= j < i - 1 implies s.drop_first()[j].stream_type != t by {
            assert(s.drop_first()[j] == s[j + 1]);
        }
        lemma_first_of_type(s.drop_first(), t, i - 1);
    }
}

proof fn lemma_no_type(s: Seq<StreamInfo>, t: StreamType)
    requires
        forall|j: int| 0 <= j < s.len() ==> s[j].stream_type != t,
    ensures
        first_of_type(s, t) is None,
    decreases s.len(),
{
    if s.len() > 0 {
        assert forall|j: int| 0 <= j < s.len() - 1 implies s.drop_first()[j].stream_type != t by {
            assert(s.drop_first()[j] == s[j + 1]);
        }
        lemma_no_type(s.drop_first(), t);
    }
}

impl MediaInfo {
    fn first_stream(&self, t: StreamType) -> (r: Option<&StreamInfo>)
        ensures
            match r {
                Some(st) => first_of_type(self.streams@, t) matches Some(i) && *st == self.streams@[i],
                None => first_of_type(self.streams@, t) is None,
            },
    {
        let mut i: usize = 0;
        while i < self.streams.len()
            invariant
                i <= self.streams.len(),
                forall|j: int| 0 <= j < i ==> self.streams@[j].stream_type != t,
            decreases self.streams.len() - i,
        {
            if self.streams[i].stream_type == t {
                proof {
                    lemma_first_of_type(self.streams@, t, i as int);
                }
                return Some(&self.streams[i]);
            }
            i = i + 1;
        }
        proof {
            lemma_no_type(self.streams@, t);
        }
        None
    }

    fn streams_of(&self, t: StreamType) -> (r: Vec<&StreamInfo>)
        ensures
            derefs(r@) == streams_of_type(self.streams@, t),
    {
        let mut out: Vec<&StreamInfo> = Vec::new();
        let mut i: usize = 0;
        while i < self.streams.len()
            invariant
                i <= self.streams.len(),
                derefs(out@) == streams_of_type(self.streams@.take(i as int), t),
            decreases self.streams.len() - i,
        {
            proof {
                assert(self.streams@.take(i + 1).drop_last() =~= self.streams@.take(i as int));
                assert(self.streams@.take(i + 1).last() == self.streams@[i as int]);
            }
            let ghost before = out@;
            if self.streams[i].stream_type == t {
                out.push(&self.streams[i]);
                assert(derefs(out@) =~= derefs(before).push(self.streams@[i as int]));
            }
            assert(derefs(out@) =~= streams_of_type(self.streams@.take(i + 1), t));
            i = i + 1;
        }
        assert(self.streams@.take(self.streams.len() as int) =~= self.streams@);
        out
    }

    /// First video stream, if any.
    pub fn video_stream(&self) -> (r: Option<&StreamInfo>)
        ensures
            match r {
                Some(st) => first_of_type(self.streams@, StreamType::Video) matches Some(i) && *st
                    == self.streams@[i],
                None => first_of_type(self.streams@, StreamType::Video) is None,
            },
    {
        self.first_stream(StreamType::Video)
    }

    /// First audio stream, if any.
    pub fn audio_stream(&self) -> (r: Option<&StreamInfo>)
        ensures
            match r {
                Some(st) => first_of_type(self.streams@, StreamType::Audio) matches Some(i) && *st
                    == self.streams@[i],
                None => first_of_type(self.streams@, StreamType::Audio) is None,
            },
    {
        self.first_stream(StreamType::Audio)
    }

    /// All video streams, in order.
    pub fn video_streams(&self) -> (r: Vec<&StreamInfo>)
        ensures
            derefs(r@) == streams_of_type(self.streams@, StreamType::Video),
    {
        self.streams_of(StreamType::Video)
    }

    /// All audio streams, in order.
    pub fn audio_streams(&self) -> (r: Vec<&StreamInfo>)
        ensures
            derefs(r@) == streams_of_type(self.streams@, StreamType::Audio),
    {
        self.streams_of(StreamType::Audio)
    }

    /// Whether this file contains any video streams.
    pub fn has_video(&self) -> (r: bool)
        ensures
            r == exists|i: int| 0 <= i < self.streams@.len() && self.streams@[i].stream_type == StreamType::Video,
    {
        let s = self.first_stream(StreamType::Video);
        proof {
            lemma_first_of_type_bounds(self.streams@, StreamType::Video);
        }
        s.is_some()
    }

    /// Whether this file contains any audio streams.
    pub fn has_audio(&self) -> (r: bool)
        ensures
            r == exists|i: int| 0 <= i < self.streams@.len() && self.streams@[i].stream_type == StreamType::Audio,
    {
        let s = self.first_stream(StreamType::Audio);
        proof {
            lemma_first_of_type_bounds(self.streams@, StreamType::Audio);
        }
        s.is_some()
    }
}

proof fn lemma_first_of_type_bounds(s: Seq<StreamInfo>, t: StreamType)
    ensures
        first_of_type(s, t) matches Some(i) ==> 0 <= i < s.len() && s[i].stream_type == t,
        first_of_type(s, t) is None ==> forall|j: int| 0 <= j < s.len() ==> s[j].stream_type != t,
    decreases s.len(),
{
    if s.len() > 0 && s[0].stream_type != t {
        lemma_first_of_type_bounds(s.drop_first(), t);
        assert forall|j: int| 0 < j < s.len() implies s[j] == s.drop_first()[j - 1] by {}
    }
}

/// The container one (trimmed) piece of an ffprobe `format_name` stands for.
pub open spec fn format_piece_container(p: Seq<char>) -> Option<Container> {
    if p == "matroska"@ || p == "webm"@ {
        Some(Container::Mkv)
    } else if p == "mov"@ || p == "mp4"@ || p == "m4a"@ || p == "3gp"@ {
        Some(Container::Mp4)
    } else if p == "avi"@ {
        Some(Container::Avi)
    } else if p == "flv"@ {
        Some(Container::Flv)
    } else if p == "ogg"@ {
        Some(Container::Ogg)
    } else if p == "flac"@ {
        Some(Container::Flac)
    } else if p == "wav"@ {
        Some(Container::Wav)
    } else if p == "mp3"@ {
        Some(Container::Mp3)
    } else if p == "mpegts"@ {
        Some(Container::Ts)
    } else if p == "gif"@ {
        Some(Container::Gif)
    } else {
        None
    }
}

/// The container of the first comma-separated piece that names a known one.
pub open spec fn first_known_container(pieces: Seq<Seq<char>>) -> Option<Container>
    decreases pieces.len(),
{
    if pieces.len() == 0 {
        None
    } else {
        match format_piece_container(trim(pieces[0])) {
            Some(c) => Some(c),
            None => first_known_container(pieces.drop_first()),
        }
    }
}

/// Every container's muxer name, as a format name ffprobe reports, is recognized as a
/// known container.
pub proof fn lemma_muxer_names_recognized(c: Container)
    ensures
        first_known_container(split(c.format_text(), ',')) is Some,
{
    reveal_strlit("3gp");
    reveal_strlit("avi");
    reveal_strlit("flac");
    reveal_strlit("flv");
    reveal_strlit("gif");
    reveal_strlit("m4a");
    reveal_strlit("matroska");
    reveal_strlit("mov");
    reveal_strlit("mp3");
    reveal_strlit("mp4");
    reveal_strlit("mpegts");
    reveal_strlit("ogg");
    reveal_strlit("wav");
    reveal_strlit("webm");
    let f = c.format_text();
    match c {
        Container::Mp4 => {
            assert(!"mp4"@.contains(','));
            assert(trim("mp4"@) == "mp4"@);
        },
        Container::M4a => {
            assert(!"mp4"@.contains(','));
            assert(trim("mp4"@) == "mp4"@);
        },
        Container::M4b => {
            assert(!"mp4"@.contains(','));
            assert(trim("mp4"@) == "mp4"@);
        },
        Container::Mkv => {
            assert(!"matroska"@.contains(','));
            assert(trim("matroska"@) == "matroska"@);
        },
        Container::WebM => {
            assert(!"webm"@.contains(','));
            assert(trim("webm"@) == "webm"@);
        },
        Container::Avi => {
            assert(!"avi"@.contains(','));
            assert(trim("avi"@) == "avi"@);
        },
        Container::Mov => {
            assert(!"mov"@.contains(','));
            assert(trim("mov"@) == "mov"@);
        },
        Container::Flv => {
            assert(!"flv"@.contains(','));
            assert(trim("flv"@) == "flv"@);
        },
        Container::Ogg => {
            assert(!"ogg"@.contains(','));
            assert(trim("ogg"@) == "ogg"@);
        },
        Container::Flac => {
            assert(!"flac"@.contains(','));
            assert(trim("flac"@) == "flac"@);
        },
        Container::Wav => {
            assert(!"wav"@.contains(','));
            assert(trim("wav"@) == "wav"@);
        },
        Container::Mp3 => {
            assert(!"mp3"@.contains(','));
            assert(trim("mp3"@) == "mp3"@);
        },
        Container::Ts => {
            assert(!"mpegts"@.contains(','));
            assert(trim("mpegts"@) == "mpegts"@);
        },
        Container::Gif => {
            assert(!"gif"@.contains(','));
            assert(trim("gif"@) == "gif"@);
        },
    }
    lemma_split_without_sep(f, ',');
    assert(split(f, ',')[0] == f);
}

fn piece_container(p: &Vec<char>) -> (r: Option<Container>)
    ensures
        r == format_piece_container(trim(p@)),
{
    let t = trim_ws(p);
    if eq_str(&t, "matroska") || eq_str(&t, "webm") {
        Some(Container::Mkv)
    } else if eq_str(&t, "mov") || eq_str(&t, "mp4") || eq_str(&t, "m4a") || eq_str(&t, "3gp") {
        Some(Container::Mp4)
    } else if eq_str(&t, "avi") {
        Some(Container::Avi)
    } else if eq_str(&t, "flv") {
        Some(Container::Flv)
    } else if eq_str(&t, "ogg") {
        Some(Container::Ogg)
    } else if eq_str(&t, "flac") {
        Some(Container::Flac)
    } else if eq_str(&t, "wav") {
        Some(Container::Wav)
    } else if eq_str(&t, "mp3") {
        Some(Container::Mp3)
    } else if eq_str(&t, "mpegts") {
        Some(Container::Ts)
    } else if eq_str(&t, "gif") {
        Some(Container::Gif)
    } else {
        None
    }
}

/// Best-effort mapping from an ffprobe `format_name` (e.g. `"matroska,webm"`) to a
/// known [`Container`]: the first comma-separated piece that names one.
pub fn guess_container_from_format(format_name: &str) -> (r: Option<Container>)
    ensures
        r == first_known_container(split(format_name@, ',')),
{
    let pieces = split_char(&chars_of(format_name), ',');
    let ghost all = split(format_name@, ',');
    let mut i: usize = 0;
    assert(all.skip(0) =~= all);
    while i < pieces.len()
        invariant
            i <= pieces.len(),
            pieces@.len() == all.len(),
            all == split(format_name@, ','),
            forall|j: int| 0 <= j < pieces@.len() ==> #[trigger] pieces@[j]@ == all[j],
            first_known_container(all) == first_known_container(all.skip(i as int)),
        decreases pieces.len() - i,
    {
        proof {
            assert(all.skip(i as int)[0] == pieces@[i as int]@);
            assert(all.skip(i as int).drop_first() =~= all.skip(i + 1));
        }
        let hit = piece_container(&pieces[i]);
        if hit.is_some() {
            return hit;
        }
        i = i + 1;
    }
    None
}

/// The container of a probed file: from its path's extension, else from the format
/// name ffprobe reports.
pub fn probed_container(path: &str, format_name: &str) -> (r: Option<Container>)
    ensures
        r == (match Container::from_path_spec(path@) {
            Some(c) => Some(c),
            None => first_known_container(split(format_name@, ',')),
        }),
{
    match Container::from_path(path) {
        Some(c) => Some(c),
        None => guess_container_from_format(format_name),
    }
}

// ───────────────────────── probe results ─────────────────────────

/// One stream as ffprobe's JSON reports it: each field as found (absent when missing or
/// not of the expected JSON type), its duration and frame rate already read as
/// millionths.
pub struct ProbedStream {
    pub index: Option<u64>,
    pub codec_type: Option<String>,
    pub codec_name: Option<String>,
    pub codec_long_name: Option<String>,
    pub bit_rate: Option<u64>,
    pub duration_us: Option<u64>,
    pub width: Option<u64>,
    pub height: Option<u64>,
    pub fps: Option<i64>,
    pub pix_fmt: Option<String>,
    pub sample_rate: Option<u64>,
    pub channels: Option<u64>,
    pub sample_fmt: Option<String>,
    /// The stream's string-valued tags.
    pub tags: Vec<(String, String)>,
}

/// The file-level part of ffprobe's JSON, as found.
pub struct ProbedFormat {
    pub format_name: Option<String>,
    pub duration_us: Option<u64>,
    pub bit_rate: Option<u64>,
    /// The file's string-valued tags.
    pub tags: Vec<(String, String)>,
}

/// An optional integer narrowed to 32 bits, as a cast narrows it.
pub open spec fn narrowed_u32(v: Option<u64>) -> Option<u32> {
    match v {
        Some(x) => Some(x as u32),
        None => None,
    }
}

/// Whether `r` is the stream information `p` reports: index 0 and codec name `unknown`
/// when absent, the stream type its `codec_type` names, widths, heights and sample rates
/// narrowed to 32 bits and channel counts to 16 bits (as casts do), everything else as
/// found.
pub open spec fn describes_stream(r: StreamInfo, p: ProbedStream) -> bool {
    &&& r.index == (match p.index {
        Some(i) => i as usize,
        None => 0usize,
    })
    &&& r.stream_type == stream_type_named(opt_text(p.codec_type))
    &&& r.codec_name@ == (match p.codec_name {
        Some(n) => n@,
        None => "unknown"@,
    })
    &&& opt_text(r.codec_long_name) == opt_text(p.codec_long_name)
    &&& r.bitrate == p.bit_rate
    &&& r.duration_us == p.duration_us
    &&& r.width == narrowed_u32(p.width)
    &&& r.height == narrowed_u32(p.height)
    &&& r.fps == p.fps
    &&& opt_text(r.pixel_format) == opt_text(p.pix_fmt)
    &&& r.sample_rate == narrowed_u32(p.sample_rate)
    &&& r.channels == (match p.channels {
        Some(c) => Some(c as u16),
        None => None,
    })
    &&& opt_text(r.sample_format) == opt_text(p.sample_fmt)
    &&& r.metadata@ == p.tags@
}

/// The stream information a probed stream reports.
pub fn stream_info_of(p: ProbedStream) -> (r: StreamInfo)
    ensures
        describes_stream(r, p),
{
    let stream_type = match &p.codec_type {
        Some(t) => stream_type_of(Some(t.as_str())),
        None => stream_type_of(None),
    };
    let codec_name = match p.codec_name {
        Some(n) => n,
        None => "unknown".to_owned(),
    };
    StreamInfo {
        index: match p.index {
            Some(i) => i as usize,
            None => 0,
        },
        stream_type,
        codec_name,
        codec_long_name: p.codec_long_name,
        bitrate: p.bit_rate,
        duration_us: p.duration_us,
        width: match p.width {
            Some(w) => Some(w as u32),
            None => None,
        },
        height: match p.height {
            Some(h) => Some(h as u32),
            None => None,
        },
        fps: p.fps,
        pixel_format: p.pix_fmt,
        sample_rate: match p.sample_rate {
            Some(v) => Some(v as u32),
            None => None,
        },
        channels: match p.channels {
            Some(c) => Some(c as u16),
            None => None,
        },
        sample_format: p.sample_fmt,
        metadata: p.tags,
    }
}

/// The information ffprobe reports of the file at `path`: its container by the path's
/// extension, else by the format name (empty when absent); the format's name, duration,
/// bitrate and tags as found; and each stream as [`stream_info_of`] reads it, in order.
pub fn media_info_of(path: &str, format: ProbedFormat, streams: Vec<ProbedStream>) -> (r: MediaInfo)
    ensures
        r.container == (match Container::from_path_spec(path@) {
            Some(c) => Some(c),
            None => first_known_container(split(
                match format.format_name {
                    Some(n) => n@,
                    None => Seq::empty(),
                },
                ',',
            )),
        }),
        r.format_name@ == (match format.format_name {
            Some(n) => n@,
            None => Seq::<char>::empty(),
        }),
        r.duration_us == format.duration_us,
        r.bitrate == format.bit_rate,
        r.metadata@ == format.tags@,
        r.streams@.len() == streams@.len(),
        forall|i: int| 0 <= i < streams@.len() ==> describes_stream(#[trigger] r.streams@[i], streams@[i]),
{
    let format_name = match format.format_name {
        Some(n) => n,
        None => String::new(),
    };
    let container = probed_container(path, format_name.as_str());
    let ghost all = streams@;
    let mut out: Vec<StreamInfo> = Vec::new();
    let mut rest = streams;
    assert(rest@ =~= all.subrange(0, all.len() as int));
    while rest.len() > 0
        invariant
            out@.len() + rest@.len() == all.len(),
            rest@ =~= all.subrange(out@.len() as int, all.len() as int),
            forall|i: int| 0 <= i < out@.len() ==> describes_stream(#[trigger] out@[i], all[i]),
        decreases rest.len(),
    {
        let ghost k = out@.len() as int;
        let p = rest.remove(0);
        assert(p == all[k]);
        let info = stream_info_of(p);
        out.push(info);
        assert(rest@ =~= all.subrange(k + 1, all.len() as int));
    }
    MediaInfo {
        container,
        format_name,
        duration_us: format.duration_us,
        bitrate: format.bit_rate,
        streams: out,
        metadata: format.tags,
    }
}

} // verus!
