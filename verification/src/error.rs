//! Error types for media conversion operations, each with its display text.

use vstd::prelude::*;
use crate::codec::{AudioCodec, VideoCodec};
use crate::container::Container;
use crate::text::{chars_of, push_all, push_str, string_of, decimal, decimal_u64};

verus! {

/// Top-level error type for media conversion operations.
#[derive(Debug)]
pub enum MediaError {
    Probe(ProbeError),
    Transcode(TranscodeError),
    Codec(CodecError),
    Preset(PresetError),
    UnsupportedFormat(String),
    /// The ffmpeg/ffprobe binary could not be located.
    ToolNotFound(String),
    /// A security policy was violated (path escape, bad protocol, disallowed raw arg).
    Security(String),
    /// A job exceeded its allotted wall-clock time (in whole seconds) and was killed.
    Timeout(u64),
    /// The operation was cancelled.
    Cancelled,
    /// An I/O error, by its display text.
    Io(String),
    Ffmpeg(String),
    Other(String),
}

/// Failures while probing a file.
#[derive(Debug)]
pub enum ProbeError {
    OpenFailed(String),
    NoStreams,
    UnknownFormat,
    Ffmpeg(String),
}

/// Failures while transcoding.
#[derive(Debug)]
pub enum TranscodeError {
    Input(String),
    Output(String),
    NoStream(String),
    Cancelled,
    Ffmpeg(String),
}

/// Codec availability and compatibility failures.
#[derive(Debug)]
pub enum CodecError {
    UnsupportedAudio(AudioCodec),
    UnsupportedVideo(VideoCodec),
    NotAvailable(String),
    IncompatibleContainer { container: Container, codec: String },
}

/// Preset lookup failures.
#[derive(Debug)]
pub enum PresetError {
    Unknown(String),
    Incompatible(String),
}

/// Display text of a probe error.
pub open spec fn probe_error_text(e: ProbeError) -> Seq<char> {
    match e {
        ProbeError::OpenFailed(s) => "cannot open file: "@ + s@,
        ProbeError::NoStreams => "no streams found"@,
        ProbeError::UnknownFormat => "unknown container format"@,
        ProbeError::Ffmpeg(s) => "ffprobe: "@ + s@,
    }
}

/// Display text of a transcode error.
pub open spec fn transcode_error_text(e: TranscodeError) -> Seq<char> {
    match e {
        TranscodeError::Input(s) => "input error: "@ + s@,
        TranscodeError::Output(s) => "output error: "@ + s@,
        TranscodeError::NoStream(s) => "no suitable stream found for "@ + s@,
        TranscodeError::Cancelled => "cancelled"@,
        TranscodeError::Ffmpeg(s) => "ffmpeg: "@ + s@,
    }
}

/// Display text of a codec error.
pub open spec fn codec_error_text(e: CodecError) -> Seq<char> {
    match e {
        CodecError::UnsupportedAudio(c) => "unsupported audio codec: "@ + c.debug_text(),
        CodecError::UnsupportedVideo(c) => "unsupported video codec: "@ + c.debug_text(),
        CodecError::NotAvailable(s) => "codec "@ + s@ + " not available in this ffmpeg build"@,
        CodecError::IncompatibleContainer { container, codec } => "container "@
            + container.debug_text() + " does not support codec "@ + codec@,
    }
}

/// Display text of a preset error.
pub open spec fn preset_error_text(e: PresetError) -> Seq<char> {
    match e {
        PresetError::Unknown(s) => "unknown preset: "@ + s@,
        PresetError::Incompatible(s) => "preset incompatible with input: "@ + s@,
    }
}

/// Display text of a media error.
pub open spec fn media_error_text(e: MediaError) -> Seq<char> {
    match e {
        MediaError::Probe(p) => "probe failed: "@ + probe_error_text(p),
        MediaError::Transcode(t) => "transcode error: "@ + transcode_error_text(t),
        MediaError::Codec(c) => "codec error: "@ + codec_error_text(c),
        MediaError::Preset(p) => "preset error: "@ + preset_error_text(p),
        MediaError::UnsupportedFormat(s) => "unsupported format: "@ + s@,
        MediaError::ToolNotFound(s) => "ffmpeg tool not found: "@ + s@,
        MediaError::Security(s) => "security violation: "@ + s@,
        MediaError::Timeout(secs) => "operation timed out after "@ + decimal(secs as nat)
            + "s"@,
        MediaError::Cancelled => "operation cancelled"@,
        MediaError::Io(s) => "IO error: "@ + s@,
        MediaError::Ffmpeg(s) => "ffmpeg error: "@ + s@,
        MediaError::Other(s) => s@,
    }
}

/// Appends the characters of a `String`.
fn push_string(v: &mut Vec<char>, s: &String)
    ensures
        final(v)@ == old(v)@ + s@,
{
    push_str(v, s.as_str());
}

/// `lit` followed by `s`.
fn lit_then(lit: &str, s: &String) -> (r: Vec<char>)
    ensures
        r@ == lit@ + s@,
{
    let mut v = chars_of(lit);
    push_string(&mut v, s);
    v
}

impl ProbeError {
    /// The error's display text.
    pub fn message(&self) -> (r: String)
        ensures
            r@ == probe_error_text(*self),
    {
        let v = match self {
            ProbeError::OpenFailed(s) => lit_then("cannot open file: ", s),
            ProbeError::NoStreams => chars_of("no streams found"),
            ProbeError::UnknownFormat => chars_of("unknown container format"),
            ProbeError::Ffmpeg(s) => lit_then("ffprobe: ", s),
        };
        string_of(&v)
    }
}

impl TranscodeError {
    /// The error's display text.
    pub fn message(&self) -> (r: String)
        ensures
            r@ == transcode_error_text(*self),
    {
        let v = match self {
            TranscodeError::Input(s) => lit_then("input error: ", s),
            TranscodeError::Output(s) => lit_then("output error: ", s),
            TranscodeError::NoStream(s) => lit_then("no suitable stream found for ", s),
            TranscodeError::Cancelled => chars_of("cancelled"),
            TranscodeError::Ffmpeg(s) => lit_then("ffmpeg: ", s),
        };
        string_of(&v)
    }
}

impl CodecError {
    /// The error's display text.
    pub fn message(&self) -> (r: String)
        ensures
            r@ == codec_error_text(*self),
    {
        let v = match self {
            CodecError::UnsupportedAudio(c) => {
                let mut v = chars_of("unsupported audio codec: ");
                push_str(&mut v, c.debug_name());
                v
            },
            CodecError::UnsupportedVideo(c) => {
                let mut v = chars_of("unsupported video codec: ");
                push_str(&mut v, c.debug_name());
                v
            },
            CodecError::NotAvailable(s) => {
                let mut v = lit_then("codec ", s);
                push_str(&mut v, " not available in this ffmpeg build");
                v
            },
            CodecError::IncompatibleContainer { container, codec } => {
                let mut v = chars_of("container ");
                push_str(&mut v, container.debug_name());
                push_str(&mut v, " does not support codec ");
                push_string(&mut v, codec);
                v
            },
        };
        string_of(&v)
    }
}

impl PresetError {
    /// The error's display text.
    pub fn message(&self) -> (r: String)
        ensures
            r@ == preset_error_text(*self),
    {
        let v = match self {
            PresetError::Unknown(s) => lit_then("unknown preset: ", s),
            PresetError::Incompatible(s) => lit_then("preset incompatible with input: ", s),
        };
        string_of(&v)
    }
}

impl MediaError {
    /// Convenience constructor for ad-hoc messages.
    pub fn other(msg: &str) -> (r: MediaError)
        ensures
            r matches MediaError::Other(m) && m@ == msg@,
    {
        MediaError::Other(string_of(&chars_of(msg)))
    }

    /// Convenience constructor for security violations.
    pub fn security(msg: &str) -> (r: MediaError)
        ensures
            r matches MediaError::Security(m) && m@ == msg@,
    {
        MediaError::Security(string_of(&chars_of(msg)))
    }

    /// The error's display text.
    pub fn message(&self) -> (r: String)
        ensures
            r@ == media_error_text(*self),
    {
        let v = match self {
            MediaError::Probe(p) => {
                let m = p.message();
                lit_then("probe failed: ", &m)
            },
            MediaError::Transcode(t) => {
                let m = t.message();
                lit_then("transcode error: ", &m)
            },
            MediaError::Codec(c) => {
                let m = c.message();
                lit_then("codec error: ", &m)
            },
            MediaError::Preset(p) => {
                let m = p.message();
                lit_then("preset error: ", &m)
            },
            MediaError::UnsupportedFormat(s) => lit_then("unsupported format: ", s),
            MediaError::ToolNotFound(s) => lit_then("ffmpeg tool not found: ", s),
            MediaError::Security(s) => lit_then("security violation: ", s),
            MediaError::Timeout(secs) => {
                let mut v = chars_of("operation timed out after ");
                let d = decimal_u64(*secs);
                push_all(&mut v, &d);
                push_str(&mut v, "s");
                v
            },
            MediaError::Cancelled => chars_of("operation cancelled"),
            MediaError::Io(s) => lit_then("IO error: ", s),
            MediaError::Ffmpeg(s) => lit_then("ffmpeg error: ", s),
            MediaError::Other(s) => chars_of(s.as_str()),
        };
        string_of(&v)
    }
}

} // verus!
