//! Build safe ffmpeg argument vectors from structured requests.
//!
//! These functions produce only the *operation-specific* arguments (`-i in … out`); the
//! engine prepends the global safety flags. Inputs and outputs are separate elements of
//! the vector — never interpolated into a shell string. Times are counts of millionths
//! of a second.

use vstd::prelude::*;
use crate::container::Container;
use crate::format::{MediaFormat, MediaFormatView, VideoSettings};
use crate::text::{
    chars_of, decimal, decimal_u64, join, join_strings, micros_text, micros_to_text, push_all,
    push_arg, push_arg_chars, push_arg_string, push_str, strings_view,
};

verus! {

/// Optional trim window applied to a transcode, in millionths of a second.
#[derive(Debug, Clone, Copy, PartialEq, Eq, Structural)]
pub struct Trim {
    pub start: Option<i64>,
    pub end: Option<i64>,
    pub duration: Option<i64>,
}

impl Default for Trim {
    fn default() -> (r: Trim)
        ensures
            r == (Trim { start: None, end: None, duration: None }),
    {
        Trim { start: None, end: None, duration: None }
    }
}

/// `flag` and the rendered time, when a time is given.
pub open spec fn time_flag(flag: Seq<char>, v: Option<i64>) -> Seq<Seq<char>> {
    match v {
        Some(x) => seq![flag, micros_text(x as int)],
        None => seq![],
    }
}

/// `flag` and the decimal number, when a number is given.
pub open spec fn number_flag(flag: Seq<char>, v: Option<nat>) -> Seq<Seq<char>> {
    match v {
        Some(x) => seq![flag, decimal(x)],
        None => seq![],
    }
}

/// `flag` and the text, when a text is given.
pub open spec fn text_flag(flag: Seq<char>, v: Option<Seq<char>>) -> Seq<Seq<char>> {
    match v {
        Some(x) => seq![flag, x],
        None => seq![],
    }
}

/// An optional `u8` as a natural number.
pub open spec fn nat_of_u8(v: Option<u8>) -> Option<nat> {
    match v {
        Some(x) => Some(x as nat),
        None => None,
    }
}

/// An optional `u16` as a natural number.
pub open spec fn nat_of_u16(v: Option<u16>) -> Option<nat> {
    match v {
        Some(x) => Some(x as nat),
        None => None,
    }
}

/// An optional `u32` as a natural number.
pub open spec fn nat_of_u32(v: Option<u32>) -> Option<nat> {
    match v {
        Some(x) => Some(x as nat),
        None => None,
    }
}

/// The output-side seek flags of a trim window: `-ss`, `-to`, `-t`, each when set.
pub open spec fn trim_args(t: Trim) -> Seq<Seq<char>> {
    time_flag("-ss"@, t.start) + time_flag("-to"@, t.end) + time_flag("-t"@, t.duration)
}

/// The `scale` filter for an optional target size (`-2` keeps the aspect ratio and an
/// even dimension).
pub open spec fn scale_part(w: Option<u32>, h: Option<u32>) -> Seq<Seq<char>> {
    match (w, h) {
        (Some(w), Some(h)) => seq!["scale="@ + decimal(w as nat) + ":"@ + decimal(h as nat)],
        (Some(w), None) => seq!["scale="@ + decimal(w as nat) + ":-2"@],
        (None, Some(h)) => seq!["scale=-2:"@ + decimal(h as nat)],
        (None, None) => seq![],
    }
}

/// The video filters a format asks for: its scale, and for GIF output its frame rate.
pub open spec fn filter_parts(f: MediaFormatView) -> Seq<Seq<char>> {
    let (w, h, fps) = match f.video {
        Some(v) => (v.width, v.height, v.fps),
        None => (None, None, None),
    };
    scale_part(w, h) + if f.container == Container::Gif && fps is Some {
        seq!["fps="@ + micros_text(fps->0 as int)]
    } else {
        seq![]
    }
}

/// The `-vf` chain of a format, when it asks for any filter.
pub open spec fn video_filter_chain(f: MediaFormatView) -> Option<Seq<char>> {
    if filter_parts(f).len() == 0 {
        None
    } else {
        Some(join(filter_parts(f), ","@))
    }
}

/// The video-stream arguments of a non-GIF transcode.
pub open spec fn video_args(f: MediaFormatView) -> Seq<Seq<char>> {
    if f.no_video {
        seq!["-vn"@]
    } else if f.copy_video {
        seq!["-c:v"@, "copy"@]
    } else {
        match f.video {
            Some(vs) => seq!["-c:v"@, vs.codec.encoder_name()] + number_flag(
                "-crf"@,
                nat_of_u8(vs.crf),
            ) + text_flag("-preset"@, vs.encoder_preset) + text_flag(
                "-pix_fmt"@,
                vs.pixel_format,
            ) + text_flag("-vf"@, video_filter_chain(f)) + time_flag("-r"@, vs.fps),
            None => seq![],
        }
    }
}

/// The audio-stream arguments of a non-GIF transcode.
pub open spec fn audio_args(f: MediaFormatView) -> Seq<Seq<char>> {
    if f.no_audio {
        seq!["-an"@]
    } else if f.copy_audio {
        seq!["-c:a"@, "copy"@]
    } else {
        match f.audio {
            Some(a) => seq!["-c:a"@, a.codec.encoder_name()] + number_flag(
                "-b:a"@,
                nat_of_u32(a.bitrate),
            ) + number_flag("-ar"@, nat_of_u32(a.sample_rate)) + number_flag(
                "-ac"@,
                nat_of_u16(a.channels),
            ),
            None => seq![],
        }
    }
}

/// The arguments of a full transcode: the input, the trim window, then for GIF output
/// only its filters and `-an` (GIF uses its own encoder and carries no audio), otherwise
/// the video and audio arguments; the output last.
pub open spec fn transcode_args_spec(
    input: Seq<char>,
    output: Seq<char>,
    f: MediaFormatView,
    t: Trim,
) -> Seq<Seq<char>> {
    seq!["-i"@, input] + trim_args(t) + if f.container == Container::Gif {
        text_flag("-vf"@, video_filter_chain(f)) + seq!["-an"@, output]
    } else {
        video_args(f) + audio_args(f) + seq![output]
    }
}

/// Appends every string of `w` to `v`.
fn append_args(v: &mut Vec<String>, w: &Vec<String>)
    ensures
        strings_view(final(v)@) == strings_view(old(v)@) + strings_view(w@),
{
    let ghost start = strings_view(v@);
    let mut i: usize = 0;
    while i < w.len()
        invariant
            i <= w.len(),
            strings_view(v@) == start + strings_view(w@).take(i as int),
        decreases w.len() - i,
    {
        let s = w[i].clone();
        push_arg_string(v, s);
        assert(strings_view(v@) =~= start + strings_view(w@).take(i + 1));
        i = i + 1;
    }
    assert(strings_view(w@).take(w.len() as int) =~= strings_view(w@));
}


/// An optional number widened to `u64`, with its value kept.
pub open spec fn nat_of_u64(v: Option<u64>) -> Option<nat> {
    match v {
        Some(x) => Some(x as nat),
        None => None,
    }
}

fn time_flag_args(flag: &str, v: Option<i64>) -> (r: Vec<String>)
    ensures
        strings_view(r@) == time_flag(flag@, v),
{
    let mut r: Vec<String> = Vec::new();
    if let Some(x) = v {
        push_arg(&mut r, flag);
        push_arg_chars(&mut r, &micros_to_text(x));
    }
    assert(strings_view(r@) =~= time_flag(flag@, v));
    r
}

fn number_flag_args(flag: &str, v: Option<u64>) -> (r: Vec<String>)
    ensures
        strings_view(r@) == number_flag(flag@, nat_of_u64(v)),
{
    let mut r: Vec<String> = Vec::new();
    if let Some(x) = v {
        push_arg(&mut r, flag);
        push_arg_chars(&mut r, &decimal_u64(x));
    }
    assert(strings_view(r@) =~= number_flag(flag@, nat_of_u64(v)));
    r
}

fn text_flag_args(flag: &str, v: &Option<String>) -> (r: Vec<String>)
    ensures
        strings_view(r@) == text_flag(flag@, crate::format::opt_text(*v)),
{
    let mut r: Vec<String> = Vec::new();
    if let Some(x) = v {
        push_arg(&mut r, flag);
        push_arg_string(&mut r, x.clone());
    }
    assert(strings_view(r@) =~= text_flag(flag@, crate::format::opt_text(*v)));
    r
}

fn widen_u8(v: Option<u8>) -> (r: Option<u64>)
    ensures
        nat_of_u64(r) == nat_of_u8(v),
{
    match v {
        Some(x) => Some(x as u64),
        None => None,
    }
}

fn widen_u16(v: Option<u16>) -> (r: Option<u64>)
    ensures
        nat_of_u64(r) == nat_of_u16(v),
{
    match v {
        Some(x) => Some(x as u64),
        None => None,
    }
}

fn widen_u32(v: Option<u32>) -> (r: Option<u64>)
    ensures
        nat_of_u64(r) == nat_of_u32(v),
{
    match v {
        Some(x) => Some(x as u64),
        None => None,
    }
}

/// The `scale` filter for an optional target size.
fn scale_part_args(w: Option<u32>, h: Option<u32>) -> (r: Vec<String>)
    ensures
        strings_view(r@) == scale_part(w, h),
{
    let mut r: Vec<String> = Vec::new();
    match (w, h) {
        (Some(w), Some(h)) => {
            let mut t = chars_of("scale=");
            push_all(&mut t, &decimal_u64(w as u64));
            push_str(&mut t, ":");
            push_all(&mut t, &decimal_u64(h as u64));
            push_arg_chars(&mut r, &t);
        },
        (Some(w), None) => {
            let mut t = chars_of("scale=");
            push_all(&mut t, &decimal_u64(w as u64));
            push_str(&mut t, ":-2");
            push_arg_chars(&mut r, &t);
        },
        (None, Some(h)) => {
            let mut t = chars_of("scale=-2:");
            push_all(&mut t, &decimal_u64(h as u64));
            push_arg_chars(&mut r, &t);
        },
        (None, None) => {},
    }
    assert(strings_view(r@) =~= scale_part(w, h));
    r
}

/// The video filters of a format.
fn filter_part_args(f: &MediaFormat) -> (r: Vec<String>)
    ensures
        strings_view(r@) == filter_parts(f@),
{
    let (w, h, fps) = match &f.video {
        Some(v) => (v.width, v.height, v.fps),
        None => (None, None, None),
    };
    let mut r = scale_part_args(w, h);
    let ghost head = strings_view(r@);
    if f.container == Container::Gif {
        if let Some(x) = fps {
            let mut t = chars_of("fps=");
            push_all(&mut t, &micros_to_text(x));
            push_arg_chars(&mut r, &t);
        }
    }
    assert(strings_view(r@) =~= filter_parts(f@));
    r
}

/// The `-vf` chain of a format (scale, and for GIF the frame rate), when it asks for any
/// filter.
pub fn video_filter_chain_of(f: &MediaFormat) -> (r: Option<String>)
    ensures
        match r {
            Some(s) => video_filter_chain(f@) == Some(s@),
            None => video_filter_chain(f@) is None,
        },
{
    let parts = filter_part_args(f);
    if parts.len() == 0 {
        None
    } else {
        Some(join_strings(&parts, ","))
    }
}

fn opt_chain_args(f: &MediaFormat) -> (r: Vec<String>)
    ensures
        strings_view(r@) == text_flag("-vf"@, video_filter_chain(f@)),
{
    let chain = video_filter_chain_of(f);
    let mut r: Vec<String> = Vec::new();
    if let Some(c) = chain {
        push_arg(&mut r, "-vf");
        push_arg_string(&mut r, c);
    }
    assert(strings_view(r@) =~= text_flag("-vf"@, video_filter_chain(f@)));
    r
}

fn video_arg_list(f: &MediaFormat) -> (r: Vec<String>)
    ensures
        strings_view(r@) == video_args(f@),
{
    let mut r: Vec<String> = Vec::new();
    if f.no_video {
        push_arg(&mut r, "-vn");
    } else if f.copy_video {
        push_arg(&mut r, "-c:v");
        push_arg(&mut r, "copy");
    } else if let Some(vs) = &f.video {
        push_arg(&mut r, "-c:v");
        push_arg(&mut r, vs.codec.ffmpeg_encoder());
        let ghost head = strings_view(r@);
        append_args(&mut r, &number_flag_args("-crf", widen_u8(vs.crf)));
        append_args(&mut r, &text_flag_args("-preset", &vs.encoder_preset));
        append_args(&mut r, &text_flag_args("-pix_fmt", &vs.pixel_format));
        append_args(&mut r, &opt_chain_args(f));
        append_args(&mut r, &time_flag_args("-r", vs.fps));
        assert(head =~= seq!["-c:v"@, vs.codec.encoder_name()]);
    }
    assert(strings_view(r@) =~= video_args(f@));
    r
}

fn audio_arg_list(f: &MediaFormat) -> (r: Vec<String>)
    ensures
        strings_view(r@) == audio_args(f@),
{
    let mut r: Vec<String> = Vec::new();
    if f.no_audio {
        push_arg(&mut r, "-an");
    } else if f.copy_audio {
        push_arg(&mut r, "-c:a");
        push_arg(&mut r, "copy");
    } else if let Some(a) = &f.audio {
        push_arg(&mut r, "-c:a");
        push_arg(&mut r, a.codec.ffmpeg_encoder());
        let ghost head = strings_view(r@);
        append_args(&mut r, &number_flag_args("-b:a", widen_u32(a.bitrate)));
        append_args(&mut r, &number_flag_args("-ar", widen_u32(a.sample_rate)));
        append_args(&mut r, &number_flag_args("-ac", widen_u16(a.channels)));
        assert(head =~= seq!["-c:a"@, a.codec.encoder_name()]);
    }
    assert(strings_view(r@) =~= audio_args(f@));
    r
}

/// Build the ffmpeg args for a full transcode described by a [`MediaFormat`].
pub fn transcode_args(input: &str, output: &str, fmt: &MediaFormat, trim: &Trim) -> (r: Vec<
    String,
>)
    ensures
        strings_view(r@) == transcode_args_spec(input@, output@, fmt@, *trim),
{
    let mut a: Vec<String> = Vec::new();
    push_arg(&mut a, "-i");
    push_arg(&mut a, input);
    let ghost head = strings_view(a@);
    append_args(&mut a, &time_flag_args("-ss", trim.start));
    append_args(&mut a, &time_flag_args("-to", trim.end));
    append_args(&mut a, &time_flag_args("-t", trim.duration));
    let ghost with_trim = strings_view(a@);
    assert(head =~= seq!["-i"@, input@]);
    assert(with_trim =~= seq!["-i"@, input@] + trim_args(*trim));
    if fmt.container == Container::Gif {
        append_args(&mut a, &opt_chain_args(fmt));
        push_arg(&mut a, "-an");
        push_arg(&mut a, output);
        assert(strings_view(a@) =~= transcode_args_spec(input@, output@, fmt@, *trim));
        return a;
    }
    append_args(&mut a, &video_arg_list(fmt));
    append_args(&mut a, &audio_arg_list(fmt));
    push_arg(&mut a, output);
    assert(strings_view(a@) =~= transcode_args_spec(input@, output@, fmt@, *trim));
    a
}


/// The arguments of a single-frame thumbnail: a fast input seek to `time`, one frame,
/// an optional width (height keeps the aspect ratio), the output.
pub open spec fn thumbnail_args_spec(
    input: Seq<char>,
    output: Seq<char>,
    time: i64,
    width: Option<u32>,
) -> Seq<Seq<char>> {
    seq!["-ss"@, micros_text(time as int), "-i"@, input, "-frames:v"@, "1"@] + match width {
        Some(w) => seq!["-vf"@, "scale="@ + decimal(w as nat) + ":-2"@],
        None => seq![],
    } + seq![output]
}

/// Build args for a single-frame thumbnail extraction at `time` (millionths of a second).
pub fn thumbnail_args(input: &str, output: &str, time: i64, width: Option<u32>) -> (r: Vec<String>)
    ensures
        strings_view(r@) == thumbnail_args_spec(input@, output@, time, width),
{
    let mut a: Vec<String> = Vec::new();
    push_arg(&mut a, "-ss");
    push_arg_chars(&mut a, &micros_to_text(time));
    push_arg(&mut a, "-i");
    push_arg(&mut a, input);
    push_arg(&mut a, "-frames:v");
    push_arg(&mut a, "1");
    if let Some(w) = width {
        push_arg(&mut a, "-vf");
        let mut t = chars_of("scale=");
        push_all(&mut t, &decimal_u64(w as u64));
        push_str(&mut t, ":-2");
        push_arg_chars(&mut a, &t);
    }
    push_arg(&mut a, output);
    assert(strings_view(a@) =~= thumbnail_args_spec(input@, output@, time, width));
    a
}

/// The arguments that extract the audio track: copied, or re-encoded with `codec`.
pub open spec fn extract_audio_args_spec(
    input: Seq<char>,
    output: Seq<char>,
    codec: Option<Seq<char>>,
) -> Seq<Seq<char>> {
    seq![
        "-i"@,
        input,
        "-vn"@,
        "-c:a"@,
        match codec {
            Some(c) => c,
            None => "copy"@,
        },
        output,
    ]
}

/// Build args for extracting the audio track. When `codec` is `None`, the stream is
/// copied; otherwise it is re-encoded with the named encoder.
pub fn extract_audio_args(input: &str, output: &str, codec: Option<&str>) -> (r: Vec<String>)
    ensures
        strings_view(r@) == extract_audio_args_spec(
            input@,
            output@,
            match codec {
                Some(c) => Some(c@),
                None => None,
            },
        ),
{
    let mut a: Vec<String> = Vec::new();
    push_arg(&mut a, "-i");
    push_arg(&mut a, input);
    push_arg(&mut a, "-vn");
    push_arg(&mut a, "-c:a");
    match codec {
        Some(c) => push_arg(&mut a, c),
        None => push_arg(&mut a, "copy"),
    }
    push_arg(&mut a, output);
    assert(strings_view(a@) =~= extract_audio_args_spec(
        input@,
        output@,
        match codec {
            Some(c) => Some(c@),
            None => None,
        },
    ));
    a
}

/// Build args for applying a single video filtergraph.
pub fn filter_args(input: &str, output: &str, graph: &str) -> (r: Vec<String>)
    ensures
        strings_view(r@) == seq!["-i"@, input@, "-vf"@, graph@, output@],
{
    let mut a: Vec<String> = Vec::new();
    push_arg(&mut a, "-i");
    push_arg(&mut a, input);
    push_arg(&mut a, "-vf");
    push_arg(&mut a, graph);
    push_arg(&mut a, output);
    assert(strings_view(a@) =~= seq!["-i"@, input@, "-vf"@, graph@, output@]);
    a
}

/// Build args for concatenating the inputs listed in a concat-demuxer list file.
pub fn concat_args(list_file: &str, output: &str) -> (r: Vec<String>)
    ensures
        strings_view(r@) == seq![
            "-f"@,
            "concat"@,
            "-safe"@,
            "0"@,
            "-i"@,
            list_file@,
            output@,
        ],
{
    let mut a: Vec<String> = Vec::new();
    push_arg(&mut a, "-f");
    push_arg(&mut a, "concat");
    push_arg(&mut a, "-safe");
    push_arg(&mut a, "0");
    push_arg(&mut a, "-i");
    push_arg(&mut a, list_file);
    push_arg(&mut a, output);
    assert(strings_view(a@) =~= seq!["-f"@, "concat"@, "-safe"@, "0"@, "-i"@, list_file@, output@]);
    a
}

} // verus!
