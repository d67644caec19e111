//! Reading ffprobe's JSON report (`-print_format json -show_format -show_streams`) into a
//! [`MediaInfo`].

use vstd::prelude::*;
use crate::container::Container;
use crate::detect::{
    first_known_container, media_info_of, narrowed_u32, stream_type_named, MediaInfo,
    ProbedFormat, ProbedStream, StreamInfo,
};
use crate::error::{MediaError, ProbeError};
use crate::format::opt_text;
use crate::json::{
    child_path, item_at, json_document, json_nodes, keys_view, lenient_u64, member_keys, node_at,
    number_u64, object_keys, parse_decimal_micros, parse_json, parse_rational_micros,
    rational_micros, seconds_micros, text_of, ItemView, JsonItem,
};
use crate::text::{chars_of, decimal, decimal_u64, push_str, split, string_of};

verus! {

/// Tag pairs taken as text.
pub open spec fn pairs_view(v: Seq<(String, String)>) -> Seq<(Seq<char>, Seq<char>)> {
    v.map_values(|t: (String, String)| (t.0@, t.1@))
}

/// Among `keys`, those whose member of the node at `p` is a string, with that string.
pub open spec fn string_members(
    doc: Seq<(Seq<Seq<char>>, ItemView)>,
    p: Seq<Seq<char>>,
    keys: Seq<Seq<char>>,
) -> Seq<(Seq<char>, Seq<char>)>
    decreases keys.len(),
{
    if keys.len() == 0 {
        Seq::empty()
    } else {
        let rest = string_members(doc, p, keys.drop_last());
        match text_of(node_at(doc, p.push(keys.last()))) {
            Some(t) => rest.push((keys.last(), t)),
            None => rest,
        }
    }
}

/// The tags at `p`: the string-valued members of the object there, in order (none when
/// there is no object there).
pub open spec fn tags_at(doc: Seq<(Seq<Seq<char>>, ItemView)>, p: Seq<Seq<char>>) -> Seq<(Seq<char>, Seq<char>)> {
    string_members(doc, p, member_keys(doc, p))
}

/// The frame rate of the stream at `p`: its `avg_frame_rate` text when it has one, else
/// its `r_frame_rate` text, read as a rational.
pub open spec fn fps_at(doc: Seq<(Seq<Seq<char>>, ItemView)>, p: Seq<Seq<char>>) -> Option<i64> {
    let avg = text_of(node_at(doc, p.push("avg_frame_rate"@)));
    let t = if avg is Some {
        avg
    } else {
        text_of(node_at(doc, p.push("r_frame_rate"@)))
    };
    match t {
        Some(t) => rational_micros(t),
        None => None,
    }
}

/// The path of the `i`-th stream.
pub open spec fn stream_path(i: nat) -> Seq<Seq<char>> {
    seq!["streams"@, decimal(i)]
}

/// How many streams the report lists: the length of its `streams` array (none when
/// there is no such array).
pub open spec fn stream_count(doc: Seq<(Seq<Seq<char>>, ItemView)>) -> nat {
    match node_at(doc, seq!["streams"@]) {
        Some(ItemView::Array(n)) => n,
        _ => 0,
    }
}

/// Whether `s` is the stream at `p` as found: index, width, height and channels when
/// numbers; codec type and names, pixel and sample formats when strings; bit rate and
/// sample rate when numbers or strings of digits; duration in millionths of a second;
/// the frame rate; and the string tags.
pub open spec fn reads_stream(s: ProbedStream, doc: Seq<(Seq<Seq<char>>, ItemView)>, p: Seq<Seq<char>>) -> bool {
    &&& s.index == number_u64(node_at(doc, p.push("index"@)))
    &&& opt_text(s.codec_type) == text_of(node_at(doc, p.push("codec_type"@)))
    &&& opt_text(s.codec_name) == text_of(node_at(doc, p.push("codec_name"@)))
    &&& opt_text(s.codec_long_name) == text_of(node_at(doc, p.push("codec_long_name"@)))
    &&& s.bit_rate == lenient_u64(node_at(doc, p.push("bit_rate"@)))
    &&& s.duration_us == seconds_micros(node_at(doc, p.push("duration"@)))
    &&& s.width == number_u64(node_at(doc, p.push("width"@)))
    &&& s.height == number_u64(node_at(doc, p.push("height"@)))
    &&& s.fps == fps_at(doc, p)
    &&& opt_text(s.pix_fmt) == text_of(node_at(doc, p.push("pix_fmt"@)))
    &&& s.sample_rate == lenient_u64(node_at(doc, p.push("sample_rate"@)))
    &&& s.channels == number_u64(node_at(doc, p.push("channels"@)))
    &&& opt_text(s.sample_fmt) == text_of(node_at(doc, p.push("sample_fmt"@)))
    &&& pairs_view(s.tags@) == tags_at(doc, p.push("tags"@))
}

/// Whether `f` is the report's `format` object as found.
pub open spec fn reads_format(f: ProbedFormat, doc: Seq<(Seq<Seq<char>>, ItemView)>) -> bool {
    let p = seq!["format"@];
    &&& opt_text(f.format_name) == text_of(node_at(doc, p.push("format_name"@)))
    &&& f.duration_us == seconds_micros(node_at(doc, p.push("duration"@)))
    &&& f.bit_rate == lenient_u64(node_at(doc, p.push("bit_rate"@)))
    &&& pairs_view(f.tags@) == tags_at(doc, p.push("tags"@))
}

/// Whether `r` is the stream information the stream at `p` gives: index 0 and codec name
/// `unknown` when absent, the stream type its codec type names, widths, heights and
/// sample rates narrowed to 32 bits and channel counts to 16 (as casts narrow them).
pub open spec fn stream_read(r: StreamInfo, doc: Seq<(Seq<Seq<char>>, ItemView)>, p: Seq<Seq<char>>) -> bool {
    &&& r.index == (match number_u64(node_at(doc, p.push("index"@))) {
        Some(i) => i as usize,
        None => 0usize,
    })
    &&& r.stream_type == stream_type_named(text_of(node_at(doc, p.push("codec_type"@))))
    &&& r.codec_name@ == (match text_of(node_at(doc, p.push("codec_name"@))) {
        Some(n) => n,
        None => "unknown"@,
    })
    &&& opt_text(r.codec_long_name) == text_of(node_at(doc, p.push("codec_long_name"@)))
    &&& r.bitrate == lenient_u64(node_at(doc, p.push("bit_rate"@)))
    &&& r.duration_us == seconds_micros(node_at(doc, p.push("duration"@)))
    &&& r.width == narrowed_u32(number_u64(node_at(doc, p.push("width"@))))
    &&& r.height == narrowed_u32(number_u64(node_at(doc, p.push("height"@))))
    &&& r.fps == fps_at(doc, p)
    &&& opt_text(r.pixel_format) == text_of(node_at(doc, p.push("pix_fmt"@)))
    &&& r.sample_rate == narrowed_u32(lenient_u64(node_at(doc, p.push("sample_rate"@))))
    &&& r.channels == (match number_u64(node_at(doc, p.push("channels"@))) {
        Some(c) => Some(c as u16),
        None => None,
    })
    &&& opt_text(r.sample_format) == text_of(node_at(doc, p.push("sample_fmt"@)))
    &&& pairs_view(r.metadata@) == tags_at(doc, p.push("tags"@))
}

/// Whether `r` is what ffprobe's report `doc` says of the file at `path`: the container by
/// the path's extension, else by the format name (empty when absent); the format's name,
/// duration, bit rate and tags; and each listed stream, in order.
pub open spec fn media_read(r: MediaInfo, path: Seq<char>, doc: Seq<(Seq<Seq<char>>, ItemView)>) -> bool {
    let name = match text_of(node_at(doc, seq!["format"@, "format_name"@])) {
        Some(n) => n,
        None => Seq::<char>::empty(),
    };
    &&& r.container == (match Container::from_path_spec(path) {
        Some(c) => Some(c),
        None => first_known_container(split(name, ',')),
    })
    &&& r.format_name@ == name
    &&& r.duration_us == seconds_micros(node_at(doc, seq!["format"@, "duration"@]))
    &&& r.bitrate == lenient_u64(node_at(doc, seq!["format"@, "bit_rate"@]))
    &&& pairs_view(r.metadata@) == tags_at(doc, seq!["format"@, "tags"@])
    &&& r.streams@.len() == stream_count(doc)
    &&& forall|i: int| 0 <= i < r.streams@.len() ==> stream_read(#[trigger] r.streams@[i], doc, stream_path(i as nat))
}

fn key(p: &Vec<String>, k: &str) -> (r: Vec<String>)
    ensures
        keys_view(r@) == keys_view(p@).push(k@),
{
    child_path(p, k)
}

fn read_text(doc: &serde_json::Value, p: &Vec<String>, k: &str) -> (r: Option<String>)
    ensures
        opt_text(r) == text_of(node_at(json_nodes(*doc), keys_view(p@).push(k@))),
{
    match item_at(doc, &key(p, k)) {
        Some(JsonItem::Text(t)) => Some(t),
        _ => None,
    }
}

fn read_number(doc: &serde_json::Value, p: &Vec<String>, k: &str) -> (r: Option<u64>)
    ensures
        r == number_u64(node_at(json_nodes(*doc), keys_view(p@).push(k@))),
{
    match item_at(doc, &key(p, k)) {
        Some(JsonItem::Number(t)) => crate::text::parse_u64_max(&chars_of(&t), u64::MAX),
        _ => None,
    }
}

fn read_lenient(doc: &serde_json::Value, p: &Vec<String>, k: &str) -> (r: Option<u64>)
    ensures
        r == lenient_u64(node_at(json_nodes(*doc), keys_view(p@).push(k@))),
{
    match item_at(doc, &key(p, k)) {
        Some(JsonItem::Number(t)) => crate::text::parse_u64_max(&chars_of(&t), u64::MAX),
        Some(JsonItem::Text(t)) => crate::text::parse_u64_max(&chars_of(&t), u64::MAX),
        _ => None,
    }
}

fn read_seconds(doc: &serde_json::Value, p: &Vec<String>, k: &str) -> (r: Option<u64>)
    ensures
        r == seconds_micros(node_at(json_nodes(*doc), keys_view(p@).push(k@))),
{
    match item_at(doc, &key(p, k)) {
        Some(JsonItem::Number(t)) => parse_decimal_micros(t.as_str()),
        Some(JsonItem::Text(t)) => parse_decimal_micros(t.as_str()),
        _ => None,
    }
}

fn read_fps(doc: &serde_json::Value, p: &Vec<String>) -> (r: Option<i64>)
    ensures
        r == fps_at(json_nodes(*doc), keys_view(p@)),
{
    let avg = read_text(doc, p, "avg_frame_rate");
    let t = match avg {
        Some(a) => Some(a),
        None => read_text(doc, p, "r_frame_rate"),
    };
    match t {
        Some(t) => parse_rational_micros(t.as_str()),
        None => None,
    }
}

fn read_tags(doc: &serde_json::Value, p: &Vec<String>) -> (r: Vec<(String, String)>)
    ensures
        pairs_view(r@) == tags_at(json_nodes(*doc), keys_view(p@)),
{
    let keys = object_keys(doc, p);
    let ghost kv = keys_view(keys@);
    let ghost pv = keys_view(p@);
    let mut out: Vec<(String, String)> = Vec::new();
    let mut i: usize = 0;
    assert(kv.take(0) =~= Seq::<Seq<char>>::empty());
    assert(pairs_view(out@) =~= Seq::<(Seq<char>, Seq<char>)>::empty());
    while i < keys.len()
        invariant
            i <= keys@.len(),
            kv == keys_view(keys@),
            pv == keys_view(p@),
            pairs_view(out@) == string_members(json_nodes(*doc), pv, kv.take(i as int)),
        decreases keys.len() - i,
    {
        let k = &keys[i];
        assert(kv.take(i + 1).drop_last() =~= kv.take(i as int));
        assert(kv.take(i + 1).last() == k@);
        match item_at(doc, &key(p, k.as_str())) {
            Some(JsonItem::Text(t)) => {
                out.push((k.clone(), t));
                assert(pairs_view(out@) =~= string_members(json_nodes(*doc), pv, kv.take(i + 1)));
            },
            _ => {},
        }
        i = i + 1;
    }
    assert(kv.take(i as int) =~= kv);
    out
}

/// The stream at path `p` of ffprobe's report, its fields as found.
fn probed_stream_at(doc: &serde_json::Value, p: &Vec<String>) -> (r: ProbedStream)
    ensures
        reads_stream(r, json_nodes(*doc), keys_view(p@)),
{
    let tags_path = key(p, "tags");
    ProbedStream {
        index: read_number(doc, p, "index"),
        codec_type: read_text(doc, p, "codec_type"),
        codec_name: read_text(doc, p, "codec_name"),
        codec_long_name: read_text(doc, p, "codec_long_name"),
        bit_rate: read_lenient(doc, p, "bit_rate"),
        duration_us: read_seconds(doc, p, "duration"),
        width: read_number(doc, p, "width"),
        height: read_number(doc, p, "height"),
        fps: read_fps(doc, p),
        pix_fmt: read_text(doc, p, "pix_fmt"),
        sample_rate: read_lenient(doc, p, "sample_rate"),
        channels: read_number(doc, p, "channels"),
        sample_fmt: read_text(doc, p, "sample_fmt"),
        tags: read_tags(doc, &tags_path),
    }
}

/// The report's `format` object, its fields as found.
pub fn probed_format(doc: &serde_json::Value) -> (r: ProbedFormat)
    ensures
        reads_format(r, json_nodes(*doc)),
{
    let p = vec!["format".to_string()];
    assert(keys_view(p@) =~= seq!["format"@]);
    let tags_path = key(&p, "tags");
    ProbedFormat {
        format_name: read_text(doc, &p, "format_name"),
        duration_us: read_seconds(doc, &p, "duration"),
        bit_rate: read_lenient(doc, &p, "bit_rate"),
        tags: read_tags(doc, &tags_path),
    }
}

/// The report's streams, in order, their fields as found.
pub fn probed_streams(doc: &serde_json::Value) -> (r: Vec<ProbedStream>)
    ensures
        r@.len() == stream_count(json_nodes(*doc)),
        forall|i: int| 0 <= i < r@.len() ==> reads_stream(#[trigger] r@[i], json_nodes(*doc), stream_path(i as nat)),
{
    let top = vec!["streams".to_string()];
    assert(keys_view(top@) =~= seq!["streams"@]);
    let count: usize = match item_at(doc, &top) {
        Some(JsonItem::Array(n)) => n,
        _ => 0,
    };
    let mut out: Vec<ProbedStream> = Vec::new();
    let mut i: usize = 0;
    while i < count
        invariant
            i <= count,
            count == stream_count(json_nodes(*doc)),
            keys_view(top@) == seq!["streams"@],
            out@.len() == i,
            forall|k: int| 0 <= k < i ==> reads_stream(#[trigger] out@[k], json_nodes(*doc), stream_path(k as nat)),
        decreases count - i,
    {
        let p = key(&top, string_of(&decimal_u64(i as u64)).as_str());
        assert(keys_view(p@) =~= stream_path(i as nat));
        out.push(probed_stream_at(doc, &p));
        i = i + 1;
    }
    out
}

/// What ffprobe's report `doc` says of the file at `path`.
pub fn probe_result_of(path: &str, doc: &serde_json::Value) -> (r: MediaInfo)
    ensures
        media_read(r, path@, json_nodes(*doc)),
{
    let format = probed_format(doc);
    let streams = probed_streams(doc);
    let ghost ss = streams@;
    let ghost f = format;
    let r = media_info_of(path, format, streams);
    assert forall|i: int| 0 <= i < r.streams@.len() implies stream_read(#[trigger] r.streams@[i], json_nodes(*doc), stream_path(i as nat)) by {
        assert(reads_stream(ss[i], json_nodes(*doc), stream_path(i as nat)));
        assert(crate::detect::describes_stream(r.streams@[i], ss[i]));
    }
    assert(opt_text(f.format_name) == text_of(node_at(json_nodes(*doc), seq!["format"@].push("format_name"@))));
    assert(seq!["format"@].push("format_name"@) =~= seq!["format"@, "format_name"@]);
    assert(seq!["format"@].push("duration"@) =~= seq!["format"@, "duration"@]);
    assert(seq!["format"@].push("bit_rate"@) =~= seq!["format"@, "bit_rate"@]);
    assert(seq!["format"@].push("tags"@) =~= seq!["format"@, "tags"@]);
    r
}

/// The message of a report that is not JSON.
pub open spec fn invalid_report_message(e: Seq<char>) -> Seq<char> {
    "invalid ffprobe JSON: "@ + e
}

/// Read ffprobe's output for the file at `path`: the media information its JSON report
/// gives, or a probe error when the output is not JSON.
pub fn probe_output(path: &str, stdout: &[u8]) -> (r: Result<MediaInfo, MediaError>)
    ensures
        match json_document(stdout@) {
            Ok(doc) => r matches Ok(info) && media_read(info, path@, doc),
            Err(e) => r matches Err(MediaError::Probe(ProbeError::Ffmpeg(m))) && m@ == invalid_report_message(e),
        },
{
    match parse_json(stdout) {
        Ok(doc) => Ok(probe_result_of(path, &doc)),
        Err(e) => {
            let mut m = chars_of("invalid ffprobe JSON: ");
            push_str(&mut m, e.as_str());
            Err(MediaError::Probe(ProbeError::Ffmpeg(string_of(&m))))
        },
    }
}

} // verus!
