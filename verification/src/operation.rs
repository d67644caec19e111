//! Structured FFmpeg operations and the request → operation router.
//!
//! Every front-end (CLI and HTTP API) expresses work as a [`UniversalRequest`].
//! [`Operation::from_request`] maps `(method, path, body)` onto a validated operation.
//! Times and frame rates are counts of millionths (of a second, of a frame per second).

use vstd::prelude::*;
use crate::api_queue::{
    body_micros_spec, body_str_spec, body_u64_spec, lookup, lookup_text, BodyValue, Method,
    UniversalRequest,
};
use crate::codec::{AudioCodec, VideoCodec};
use crate::container::Container;
use crate::error::{MediaError, PresetError};
use crate::ffmpeg::command::Trim;
use crate::format::{
    copy_opt_string, opt_text, AudioSettings, MediaFormat, MediaFormatView, VideoSettings,
    VideoSettingsView,
};
use crate::preset::{preset_named, Preset};
use crate::text::{
    ascii_lower, ascii_upper, chars_of, eq_str, parse_u64_max, parse_unsigned, push_all, push_str,
    starts_with, starts_with_str, slice_chars, string_of, strings_view, to_ascii_lowercase,
    trim, trim_char, trim_matches, trim_start_char, trim_start_matches, trim_ws,
    lowered,
};

verus! {

// ───────────────────────── bitrates ─────────────────────────

/// The value an audio bitrate text stands for: after trimming whitespace, a decimal
/// `u32` optionally followed by `k`/`K` (thousands) or `m`/`M` (millions). `None` when
/// the number does not parse.
pub open spec fn bitrate_value(s: Seq<char>) -> Option<nat> {
    let t = trim(s);
    if t.len() > 0 && (t.last() == 'k' || t.last() == 'K') {
        match parse_unsigned(t.drop_last(), u32::MAX as nat) {
            Some(n) => Some(n * 1000),
            None => None,
        }
    } else if t.len() > 0 && (t.last() == 'm' || t.last() == 'M') {
        match parse_unsigned(t.drop_last(), u32::MAX as nat) {
            Some(n) => Some(n * 1_000_000),
            None => None,
        }
    } else {
        parse_unsigned(t, u32::MAX as nat)
    }
}

/// Whether the value a bitrate text stands for fits in a `u32` (scaling by a suffix
/// can take a parsed number past it).
pub open spec fn bitrate_in_range(s: Seq<char>) -> bool {
    bitrate_value(s) matches Some(v) ==> v <= u32::MAX
}

/// The message of a bitrate that does not parse.
pub open spec fn invalid_bitrate_message(s: Seq<char>) -> Seq<char> {
    "invalid bitrate: "@ + trim(s)
}

/// Whether the value `s` stands for, if any, fits in a `u32`.
pub fn bitrate_fits(s: &str) -> (r: bool)
    ensures
        r == bitrate_in_range(s@),
{
    let t = trim_ws(&chars_of(s));
    let n = t.len();
    if n > 0 && (t[n - 1] == 'k' || t[n - 1] == 'K' || t[n - 1] == 'm' || t[n - 1] == 'M') {
        let scale: u64 = if t[n - 1] == 'k' || t[n - 1] == 'K' { 1000 } else { 1_000_000 };
        let num = slice_chars(&t, 0, n - 1);
        assert(num@ == t@.drop_last());
        match parse_u64_max(&num, u32::MAX as u64) {
            Some(v) => {
                assert(v <= u32::MAX);
                assert(v * scale <= u32::MAX * 1_000_000) by (nonlinear_arith)
                    requires
                        v <= u32::MAX,
                        scale <= 1_000_000,
                ;
                v * scale <= u32::MAX as u64
            },
            None => true,
        }
    } else {
        true
    }
}

/// Parse an audio bitrate string: `"128k"`, `"1m"`, or a raw number.
pub fn parse_bitrate(s: &str) -> (r: Result<u32, MediaError>)
    requires
        bitrate_in_range(s@),
    ensures
        match r {
            Ok(v) => bitrate_value(s@) == Some(v as nat),
            Err(e) => bitrate_value(s@) is None && (e matches MediaError::Other(m) && m@
                == invalid_bitrate_message(s@)),
        },
{
    let t = trim_ws(&chars_of(s));
    let n = t.len();
    let (num, scale): (Vec<char>, u32) = if n > 0 && (t[n - 1] == 'k' || t[n - 1] == 'K') {
        (slice_chars(&t, 0, n - 1), 1000)
    } else if n > 0 && (t[n - 1] == 'm' || t[n - 1] == 'M') {
        (slice_chars(&t, 0, n - 1), 1_000_000)
    } else {
        (slice_chars(&t, 0, n), 1)
    };
    assert(n > 0 ==> t@.drop_last() == t@.subrange(0, n - 1));
    assert(t@.subrange(0, n as int) == t@);
    match parse_u64_max(&num, u32::MAX as u64) {
        Some(v) => {
            assert(v * scale <= u32::MAX);
            Ok((v as u32) * scale)
        },
        None => {
            let mut m = chars_of("invalid bitrate: ");
            push_all(&mut m, &t);
            Err(MediaError::Other(string_of(&m)))
        },
    }
}

// ───────────────────────── capability kinds ─────────────────────────

/// Which slice of the capability set to report.
#[derive(Debug, Clone, Copy, PartialEq, Eq, Structural)]
pub enum CapKind {
    All,
    Encoders,
    Decoders,
    Filters,
    Muxers,
    Demuxers,
    PixFmts,
    Protocols,
}

/// The capability kind an ASCII-lowercased name stands for.
pub open spec fn cap_kind_named(n: Seq<char>) -> Option<CapKind> {
    if n == "all"@ || n.len() == 0 {
        Some(CapKind::All)
    } else if n == "encoders"@ {
        Some(CapKind::Encoders)
    } else if n == "decoders"@ {
        Some(CapKind::Decoders)
    } else if n == "filters"@ {
        Some(CapKind::Filters)
    } else if n == "muxers"@ {
        Some(CapKind::Muxers)
    } else if n == "demuxers"@ {
        Some(CapKind::Demuxers)
    } else if n == "pix_fmts"@ || n == "pixfmts"@ || n == "pixel_formats"@ {
        Some(CapKind::PixFmts)
    } else if n == "protocols"@ {
        Some(CapKind::Protocols)
    } else {
        None
    }
}

/// The name each capability kind is reported under.
pub open spec fn cap_kind_text(k: CapKind) -> Seq<char> {
    match k {
        CapKind::All => "all"@,
        CapKind::Encoders => "encoders"@,
        CapKind::Decoders => "decoders"@,
        CapKind::Filters => "filters"@,
        CapKind::Muxers => "muxers"@,
        CapKind::Demuxers => "demuxers"@,
        CapKind::PixFmts => "pix_fmts"@,
        CapKind::Protocols => "protocols"@,
    }
}

/// Each capability kind's name reads back as that kind, in any ASCII case, so distinct
/// names give distinct kinds.
pub proof fn lemma_cap_kind_names_round_trip(k: CapKind, j: CapKind)
    ensures
        cap_kind_named(cap_kind_text(k)) == Some(k),
        cap_kind_named(ascii_lower(ascii_upper(cap_kind_text(k)))) == Some(k),
        cap_kind_text(k) == cap_kind_text(j) ==> k == j,
{
    reveal_strlit("all");
    reveal_strlit("encoders");
    reveal_strlit("decoders");
    reveal_strlit("filters");
    reveal_strlit("muxers");
    reveal_strlit("demuxers");
    reveal_strlit("pix_fmts");
    reveal_strlit("pixfmts");
    reveal_strlit("pixel_formats");
    reveal_strlit("protocols");
    assert("all"@.len() != "encoders"@.len());
    assert("all"@.len() != "decoders"@.len());
    assert("all"@.len() != "filters"@.len());
    assert("all"@.len() != "muxers"@.len());
    assert("all"@.len() != "demuxers"@.len());
    assert("all"@.len() != "pix_fmts"@.len());
    assert("all"@.len() != "pixfmts"@.len());
    assert("all"@.len() != "pixel_formats"@.len());
    assert("all"@.len() != "protocols"@.len());
    assert("encoders"@[0] != "decoders"@[0]);
    assert("encoders"@.len() != "filters"@.len());
    assert("encoders"@.len() != "muxers"@.len());
    assert("encoders"@[0] != "demuxers"@[0]);
    assert("encoders"@[0] != "pix_fmts"@[0]);
    assert("encoders"@.len() != "pixfmts"@.len());
    assert("encoders"@.len() != "pixel_formats"@.len());
    assert("encoders"@.len() != "protocols"@.len());
    assert("decoders"@.len() != "filters"@.len());
    assert("decoders"@.len() != "muxers"@.len());
    assert("decoders"@[2] != "demuxers"@[2]);
    assert("decoders"@[0] != "pix_fmts"@[0]);
    assert("decoders"@.len() != "pixfmts"@.len());
    assert("decoders"@.len() != "pixel_formats"@.len());
    assert("decoders"@.len() != "protocols"@.len());
    assert("filters"@.len() != "muxers"@.len());
    assert("filters"@.len() != "demuxers"@.len());
    assert("filters"@.len() != "pix_fmts"@.len());
    assert("filters"@[0] != "pixfmts"@[0]);
    assert("filters"@.len() != "pixel_formats"@.len());
    assert("filters"@.len() != "protocols"@.len());
    assert("muxers"@.len() != "demuxers"@.len());
    assert("muxers"@.len() != "pix_fmts"@.len());
    assert("muxers"@.len() != "pixfmts"@.len());
    assert("muxers"@.len() != "pixel_formats"@.len());
    assert("muxers"@.len() != "protocols"@.len());
    assert("demuxers"@[0] != "pix_fmts"@[0]);
    assert("demuxers"@.len() != "pixfmts"@.len());
    assert("demuxers"@.len() != "pixel_formats"@.len());
    assert("demuxers"@.len() != "protocols"@.len());
    assert("pix_fmts"@.len() != "pixfmts"@.len());
    assert("pix_fmts"@.len() != "pixel_formats"@.len());
    assert("pix_fmts"@.len() != "protocols"@.len());
    assert("pixfmts"@.len() != "pixel_formats"@.len());
    assert("pixfmts"@.len() != "protocols"@.len());
    assert("pixel_formats"@.len() != "protocols"@.len());
    let t = cap_kind_text(k);
    assert forall|i: int| 0 <= i < t.len() implies ascii_lower(ascii_upper(t))[i] == t[i] by {
        assert(('a' <= t[i] && t[i] <= 'z') || t[i] == '_');
    }
    assert(ascii_lower(ascii_upper(t)) =~= t);
}

impl CapKind {
    /// Parse a capability kind, ignoring ASCII case; the empty name means all.
    pub fn parse(s: &str) -> (r: Option<CapKind>)
        ensures
            r == cap_kind_named(ascii_lower(s@)),
    {
        let n = to_ascii_lowercase(&chars_of(s));
        if eq_str(&n, "all") || n.len() == 0 {
            Some(CapKind::All)
        } else if eq_str(&n, "encoders") {
            Some(CapKind::Encoders)
        } else if eq_str(&n, "decoders") {
            Some(CapKind::Decoders)
        } else if eq_str(&n, "filters") {
            Some(CapKind::Filters)
        } else if eq_str(&n, "muxers") {
            Some(CapKind::Muxers)
        } else if eq_str(&n, "demuxers") {
            Some(CapKind::Demuxers)
        } else if eq_str(&n, "pix_fmts") || eq_str(&n, "pixfmts") || eq_str(&n, "pixel_formats") {
            Some(CapKind::PixFmts)
        } else if eq_str(&n, "protocols") {
            Some(CapKind::Protocols)
        } else {
            None
        }
    }
}


// ───────────────────────── conversion requests ─────────────────────────

/// The full set of conversion options — the single source of truth shared by the CLI
/// flags and the HTTP API body.
#[derive(Debug)]
pub struct ConvertRequest {
    pub preset: Option<String>,
    /// Target container name (e.g. `"mp4"`). Required unless `preset` is given.
    pub format: Option<String>,
    pub video_codec: Option<String>,
    pub audio_codec: Option<String>,
    pub crf: Option<u8>,
    /// Audio bitrate, accepting `"128k"`, `"192000"`, `"1m"`, etc.
    pub audio_bitrate: Option<String>,
    pub width: Option<u32>,
    pub height: Option<u32>,
    /// Frame rate in millionths of a frame per second.
    pub fps: Option<i64>,
    pub sample_rate: Option<u32>,
    pub channels: Option<u16>,
    pub no_video: bool,
    pub no_audio: bool,
    pub copy_video: bool,
    pub copy_audio: bool,
    pub encoder_preset: Option<String>,
    pub pixel_format: Option<String>,
    /// Trim start, in millionths of a second.
    pub start: Option<i64>,
    /// Trim end, in millionths of a second.
    pub end: Option<i64>,
    /// Trim duration, in millionths of a second.
    pub duration: Option<i64>,
}

impl Default for ConvertRequest {
    fn default() -> (r: ConvertRequest)
        ensures
            r.preset is None,
            r.format is None,
            r.video_codec is None,
            r.audio_codec is None,
            r.crf is None,
            r.audio_bitrate is None,
            r.width is None,
            r.height is None,
            r.fps is None,
            r.sample_rate is None,
            r.channels is None,
            !r.no_video,
            !r.no_audio,
            !r.copy_video,
            !r.copy_audio,
            r.encoder_preset is None,
            r.pixel_format is None,
            r.start is None,
            r.end is None,
            r.duration is None,
    {
        ConvertRequest {
            preset: None,
            format: None,
            video_codec: None,
            audio_codec: None,
            crf: None,
            audio_bitrate: None,
            width: None,
            height: None,
            fps: None,
            sample_rate: None,
            channels: None,
            no_video: false,
            no_audio: false,
            copy_video: false,
            copy_audio: false,
            encoder_preset: None,
            pixel_format: None,
            start: None,
            end: None,
            duration: None,
        }
    }
}

impl ConvertRequest {
    /// The trim window described by this request.
    pub fn trim(&self) -> (r: Trim)
        ensures
            r == (Trim { start: self.start, end: self.end, duration: self.duration }),
    {
        Trim { start: self.start, end: self.end, duration: self.duration }
    }
}


/// Why a conversion request does not describe a format.
pub enum FormatFault {
    UnknownPreset(Seq<char>),
    UnknownContainer(Seq<char>),
    NoContainer,
    UnknownVideoCodec(Seq<char>),
    UnknownAudioCodec(Seq<char>),
    InvalidBitrate(Seq<char>),
}

/// The error each fault is reported as.
pub open spec fn reports_fault(e: MediaError, f: FormatFault) -> bool {
    match f {
        FormatFault::UnknownPreset(n) => e matches MediaError::Preset(PresetError::Unknown(m))
            && m@ == n,
        FormatFault::UnknownContainer(n) => e matches MediaError::UnsupportedFormat(m) && m@
            == "unknown container: "@ + n,
        FormatFault::NoContainer => e matches MediaError::UnsupportedFormat(m) && m@
            == "no target container: specify `format` or a `preset`"@,
        FormatFault::UnknownVideoCodec(n) => e matches MediaError::UnsupportedFormat(m) && m@
            == "unknown video codec: "@ + n,
        FormatFault::UnknownAudioCodec(n) => e matches MediaError::UnsupportedFormat(m) && m@
            == "unknown audio codec: "@ + n,
        FormatFault::InvalidBitrate(s) => e matches MediaError::Other(m) && m@
            == invalid_bitrate_message(s),
    }
}

/// The output container of a request: its `format` when given, else its preset's
/// container, else `hint`.
pub open spec fn resolve_container_spec(cr: ConvertRequest, hint: Option<Container>) -> Result<
    Container,
    FormatFault,
> {
    match opt_text(cr.format) {
        Some(name) => match Container::from_name_spec(name) {
            Some(c) => Ok(c),
            None => Err(FormatFault::UnknownContainer(name)),
        },
        None => match opt_text(cr.preset) {
            Some(p) => match preset_named(p) {
                Some(pv) => Ok(pv.format.container),
                None => Err(FormatFault::UnknownPreset(p)),
            },
            None => match hint {
                Some(c) => Ok(c),
                None => Err(FormatFault::NoContainer),
            },
        },
    }
}

/// The video codec a request names, if any.
pub open spec fn video_codec_choice(cr: ConvertRequest) -> Result<Option<VideoCodec>, FormatFault> {
    match opt_text(cr.video_codec) {
        Some(s) => match VideoCodec::named(lowered(s)) {
            Some(c) => Ok(Some(c)),
            None => Err(FormatFault::UnknownVideoCodec(s)),
        },
        None => Ok(None),
    }
}

/// The audio codec a request names, if any.
pub open spec fn audio_codec_choice(cr: ConvertRequest) -> Result<Option<AudioCodec>, FormatFault> {
    match opt_text(cr.audio_codec) {
        Some(s) => match AudioCodec::named(lowered(s)) {
            Some(c) => Ok(Some(c)),
            None => Err(FormatFault::UnknownAudioCodec(s)),
        },
        None => Ok(None),
    }
}

/// The audio bitrate a request gives, if any.
pub open spec fn bitrate_choice(cr: ConvertRequest) -> Result<Option<u32>, FormatFault> {
    match opt_text(cr.audio_bitrate) {
        Some(s) => match bitrate_value(s) {
            Some(v) => Ok(Some(v as u32)),
            None => Err(FormatFault::InvalidBitrate(s)),
        },
        None => Ok(None),
    }
}

/// The format assembled from a request's flags once its container, codecs and bitrate
/// are known: streams that are neither stripped nor copied get settings when a codec
/// was named.
pub open spec fn assembled_format(
    cr: ConvertRequest,
    container: Container,
    vc: Option<VideoCodec>,
    ac: Option<AudioCodec>,
    bitrate: Option<u32>,
) -> MediaFormatView {
    MediaFormatView {
        container,
        audio: if !cr.no_audio && !cr.copy_audio && ac is Some {
            Some(
                AudioSettings {
                    codec: ac->0,
                    bitrate,
                    sample_rate: cr.sample_rate,
                    channels: cr.channels,
                },
            )
        } else {
            None
        },
        video: if !cr.no_video && !cr.copy_video && vc is Some {
            Some(
                VideoSettingsView {
                    codec: vc->0,
                    crf: cr.crf,
                    width: cr.width,
                    height: cr.height,
                    fps: cr.fps,
                    encoder_preset: opt_text(cr.encoder_preset),
                    pixel_format: opt_text(cr.pixel_format),
                },
            )
        } else {
            None
        },
        copy_audio: cr.copy_audio,
        copy_video: cr.copy_video,
        no_audio: cr.no_audio,
        no_video: cr.no_video,
    }
}

/// The format a request describes: its preset's format when it names one; otherwise
/// the container, the named codecs and the bitrate are resolved in that order (the
/// first failure is the answer) and the format assembled from the flags.
pub open spec fn build_format_spec(cr: ConvertRequest, hint: Option<Container>) -> Result<
    MediaFormatView,
    FormatFault,
> {
    match opt_text(cr.preset) {
        Some(p) => match preset_named(p) {
            Some(pv) => Ok(pv.format),
            None => Err(FormatFault::UnknownPreset(p)),
        },
        None => match resolve_container_spec(cr, hint) {
            Err(f) => Err(f),
            Ok(c) => match video_codec_choice(cr) {
                Err(f) => Err(f),
                Ok(vc) => match audio_codec_choice(cr) {
                    Err(f) => Err(f),
                    Ok(ac) => match bitrate_choice(cr) {
                        Err(f) => Err(f),
                        Ok(br) => Ok(assembled_format(cr, c, vc, ac, br)),
                    },
                },
            },
        },
    }
}

/// Whether building the format of `cr` reads its bitrate (no preset, and the container
/// and codecs resolve).
pub open spec fn reads_bitrate(cr: ConvertRequest, hint: Option<Container>) -> bool {
    &&& cr.preset is None
    &&& resolve_container_spec(cr, hint) is Ok
    &&& video_codec_choice(cr) is Ok
    &&& audio_codec_choice(cr) is Ok
}

/// Whether the bitrate of `cr`, when building its format reads it, fits in a `u32`.
pub open spec fn bitrate_fits_when_read(cr: ConvertRequest, hint: Option<Container>) -> bool {
    reads_bitrate(cr, hint) && cr.audio_bitrate is Some ==> bitrate_in_range(
        cr.audio_bitrate->0@,
    )
}

fn unknown_preset(p: &String) -> (e: MediaError)
    ensures
        reports_fault(e, FormatFault::UnknownPreset(p@)),
{
    MediaError::Preset(PresetError::Unknown(p.clone()))
}

fn unsupported(prefix: &str, name: &String) -> (e: MediaError)
    ensures
        e matches MediaError::UnsupportedFormat(m) && m@ == prefix@ + name@,
{
    let mut m = chars_of(prefix);
    push_str(&mut m, name.as_str());
    MediaError::UnsupportedFormat(string_of(&m))
}

impl ConvertRequest {
    /// Resolve the output container, preferring `format`, then the preset's container,
    /// then `hint` (e.g. derived from an output file extension).
    pub fn resolve_container(&self, hint: Option<Container>) -> (r: Result<Container, MediaError>)
        ensures
            match (r, resolve_container_spec(*self, hint)) {
                (Ok(c), Ok(d)) => c == d,
                (Err(e), Err(f)) => reports_fault(e, f),
                _ => false,
            },
    {
        if let Some(name) = &self.format {
            return match Container::from_name(name.as_str()) {
                Some(c) => Ok(c),
                None => Err(unsupported("unknown container: ", name)),
            };
        }
        if let Some(preset_name) = &self.preset {
            return match Preset::by_name(preset_name.as_str()) {
                Some(p) => Ok(p.format.container),
                None => Err(unknown_preset(preset_name)),
            };
        }
        match hint {
            Some(c) => Ok(c),
            None => Err(
                MediaError::UnsupportedFormat(
                    "no target container: specify `format` or a `preset`".to_owned(),
                ),
            ),
        }
    }

    /// Whether building this request's format (with `hint`) reads a bitrate that fits
    /// in a `u32`, or reads none.
    pub fn bitrate_fits_when_built(&self, hint: Option<Container>) -> (r: bool)
        ensures
            r == bitrate_fits_when_read(*self, hint),
    {
        if self.preset.is_some() {
            return true;
        }
        if self.resolve_container(hint).is_err() {
            return true;
        }
        let video_ok = match &self.video_codec {
            Some(v) => VideoCodec::from_name(v.as_str()).is_some(),
            None => true,
        };
        let audio_ok = match &self.audio_codec {
            Some(a) => AudioCodec::from_name(a.as_str()).is_some(),
            None => true,
        };
        if !video_ok || !audio_ok {
            return true;
        }
        match &self.audio_bitrate {
            Some(b) => bitrate_fits(b.as_str()),
            None => true,
        }
    }

    /// Build the [`MediaFormat`] this request describes.
    pub fn build_format(&self, hint: Option<Container>) -> (r: Result<MediaFormat, MediaError>)
        requires
            bitrate_fits_when_read(*self, hint),
        ensures
            match (r, build_format_spec(*self, hint)) {
                (Ok(f), Ok(g)) => f@ == g,
                (Err(e), Err(f)) => reports_fault(e, f),
                _ => false,
            },
    {
        if let Some(preset_name) = &self.preset {
            return match Preset::by_name(preset_name.as_str()) {
                Some(p) => Ok(p.format),
                None => Err(unknown_preset(preset_name)),
            };
        }
        let container = match self.resolve_container(hint) {
            Ok(c) => c,
            Err(e) => {
                return Err(e);
            },
        };
        let vc = match &self.video_codec {
            Some(s) => match VideoCodec::from_name(s.as_str()) {
                Some(c) => Some(c),
                None => {
                    return Err(unsupported("unknown video codec: ", s));
                },
            },
            None => None,
        };
        let ac = match &self.audio_codec {
            Some(s) => match AudioCodec::from_name(s.as_str()) {
                Some(c) => Some(c),
                None => {
                    return Err(unsupported("unknown audio codec: ", s));
                },
            },
            None => None,
        };
        let bitrate = match &self.audio_bitrate {
            Some(s) => match parse_bitrate(s.as_str()) {
                Ok(v) => Some(v),
                Err(e) => {
                    return Err(e);
                },
            },
            None => None,
        };
        let video = if !self.no_video && !self.copy_video {
            match vc {
                Some(codec) => Some(
                    VideoSettings {
                        codec,
                        crf: self.crf,
                        width: self.width,
                        height: self.height,
                        fps: self.fps,
                        encoder_preset: copy_opt_string(&self.encoder_preset),
                        pixel_format: copy_opt_string(&self.pixel_format),
                    },
                ),
                None => None,
            }
        } else {
            None
        };
        let audio = if !self.no_audio && !self.copy_audio {
            match ac {
                Some(codec) => Some(
                    AudioSettings {
                        codec,
                        bitrate,
                        sample_rate: self.sample_rate,
                        channels: self.channels,
                    },
                ),
                None => None,
            }
        } else {
            None
        };
        Ok(
            MediaFormat {
                container,
                audio,
                video,
                copy_audio: self.copy_audio,
                copy_video: self.copy_video,
                no_audio: self.no_audio,
                no_video: self.no_video,
            },
        )
    }
}


// ───────────────────────── operations ─────────────────────────

/// A validated, executable operation.
#[derive(Debug)]
pub enum Operation {
    /// Full transcode to a resolved [`MediaFormat`].
    Convert { format: MediaFormat, trim: Trim },
    /// Extract the audio track (copy unless `codec` is set).
    ExtractAudio { codec: Option<String>, container: Container },
    /// Single-frame thumbnail at `time` (millionths of a second).
    Thumbnail { time: i64, width: Option<u32> },
    /// Apply a single video filtergraph.
    Filter { graph: String, container: Option<Container> },
    /// Concatenate multiple inputs into one output.
    Concat { container: Container },
    /// Probe a single input → JSON (inline, no ffmpeg run).
    Probe,
    /// Report discovered capabilities → JSON (inline).
    Capabilities { kind: CapKind },
    /// List presets → JSON (inline).
    Presets,
    /// Gated raw passthrough: `args` with `INPUT`/`OUTPUT` placeholders.
    Raw { args: Vec<String>, output_ext: String },
}

/// The value of an [`Operation`], its strings taken as text.
pub enum OperationView {
    Convert { format: MediaFormatView, trim: Trim },
    ExtractAudio { codec: Option<Seq<char>>, container: Container },
    Thumbnail { time: i64, width: Option<u32> },
    Filter { graph: Seq<char>, container: Option<Container> },
    Concat { container: Container },
    Probe,
    Capabilities { kind: CapKind },
    Presets,
    Raw { args: Seq<Seq<char>>, output_ext: Seq<char> },
}

impl View for Operation {
    type V = OperationView;

    open spec fn view(&self) -> OperationView {
        match self {
            Operation::Convert { format, trim } => OperationView::Convert {
                format: format@,
                trim: *trim,
            },
            Operation::ExtractAudio { codec, container } => OperationView::ExtractAudio {
                codec: opt_text(*codec),
                container: *container,
            },
            Operation::Thumbnail { time, width } => OperationView::Thumbnail {
                time: *time,
                width: *width,
            },
            Operation::Filter { graph, container } => OperationView::Filter {
                graph: graph@,
                container: *container,
            },
            Operation::Concat { container } => OperationView::Concat { container: *container },
            Operation::Probe => OperationView::Probe,
            Operation::Capabilities { kind } => OperationView::Capabilities { kind: *kind },
            Operation::Presets => OperationView::Presets,
            Operation::Raw { args, output_ext } => OperationView::Raw {
                args: strings_view(args@),
                output_ext: output_ext@,
            },
        }
    }
}

/// The output file extension of a file-producing operation.
pub open spec fn output_extension_spec(op: OperationView, primary_input_ext: Option<Seq<char>>) -> Seq<
    char,
> {
    match op {
        OperationView::Convert { format, .. } => format.container.extension_text(),
        OperationView::ExtractAudio { container, .. } => container.extension_text(),
        OperationView::Thumbnail { .. } => "jpg"@,
        OperationView::Filter { container, .. } => match container {
            Some(c) => c.extension_text(),
            None => match primary_input_ext {
                Some(e) => e,
                None => "mkv"@,
            },
        },
        OperationView::Concat { container } => container.extension_text(),
        OperationView::Raw { output_ext, .. } => output_ext,
        _ => "json"@,
    }
}

impl Operation {
    /// Whether this operation produces an inline JSON result rather than an output file.
    pub fn is_inline(&self) -> (r: bool)
        ensures
            r == (self@ is Probe || self@ is Capabilities || self@ is Presets),
    {
        match self {
            Operation::Probe | Operation::Capabilities { .. } | Operation::Presets => true,
            _ => false,
        }
    }

    /// How many input files this operation consumes: 1, except concat (a variable
    /// number, validated at dispatch) and the presets and capabilities listings (none).
    pub fn input_count(&self) -> (r: usize)
        ensures
            r == (if self@ is Concat || self@ is Presets || self@ is Capabilities {
                0usize
            } else {
                1usize
            }),
    {
        match self {
            Operation::Concat { .. } => 0,
            Operation::Presets | Operation::Capabilities { .. } => 0,
            _ => 1,
        }
    }

    /// The output file extension for file-producing operations.
    pub fn output_extension(&self, primary_input_ext: Option<&str>) -> (r: String)
        ensures
            r@ == output_extension_spec(
                self@,
                match primary_input_ext {
                    Some(e) => Some(e@),
                    None => None,
                },
            ),
    {
        match self {
            Operation::Convert { format, .. } => format.container.extension().to_owned(),
            Operation::ExtractAudio { container, .. } => container.extension().to_owned(),
            Operation::Thumbnail { .. } => "jpg".to_owned(),
            Operation::Filter { container, .. } => match container {
                Some(c) => c.extension().to_owned(),
                None => match primary_input_ext {
                    Some(e) => e.to_owned(),
                    None => "mkv".to_owned(),
                },
            },
            Operation::Concat { container } => container.extension().to_owned(),
            Operation::Raw { output_ext, .. } => output_ext.clone(),
            _ => "json".to_owned(),
        }
    }
}


// ───────────────────────── routing ─────────────────────────

/// A request path with surrounding slashes and an `api/v1/` prefix removed.
pub open spec fn normalize_path_spec(path: Seq<char>) -> Seq<char> {
    let t = trim_char(path, '/');
    let u = if starts_with(t, "api/v1/"@) {
        t.skip(7)
    } else {
        t
    };
    trim_char(u, '/')
}

/// A request path with surrounding slashes and an `api/v1/` prefix removed.
pub fn normalize_path(path: &str) -> (r: String)
    ensures
        r@ == normalize_path_spec(path@),
{
    let t = trim_matches(&chars_of(path), '/');
    proof {
        reveal_strlit("api/v1/");
    }
    let u = if starts_with_str(&t, "api/v1/") {
        slice_chars(&t, 7, t.len())
    } else {
        t
    };
    string_of(&trim_matches(&u, '/'))
}

/// A method's name as `{:?}` prints it.
pub open spec fn method_debug_text(m: Method) -> Seq<char> {
    match m {
        Method::Get => "Get"@,
        Method::Post => "Post"@,
        Method::Put => "Put"@,
        Method::Delete => "Delete"@,
        Method::Patch => "Patch"@,
    }
}

fn method_debug_name(m: Method) -> (r: &'static str)
    ensures
        r@ == method_debug_text(m),
{
    match m {
        Method::Get => "Get",
        Method::Post => "Post",
        Method::Put => "Put",
        Method::Delete => "Delete",
        Method::Patch => "Patch",
    }
}

/// Why a request does not route to an operation.
pub enum RouteFault {
    /// The body does not read as a conversion request (serde's reason).
    BadBody(Seq<char>),
    Format(FormatFault),
    FilterNeedsGraph,
    RawNeedsArgs,
    NoOperation(Method, Seq<char>),
}

/// The error each routing fault is reported as.
pub open spec fn reports_route_fault(e: MediaError, f: RouteFault) -> bool {
    match f {
        RouteFault::BadBody(t) => e matches MediaError::Other(m) && m@ == "invalid request body: "@
            + t,
        RouteFault::Format(ff) => reports_fault(e, ff),
        RouteFault::FilterNeedsGraph => e matches MediaError::Other(m) && m@
            == "filter requires a `graph`"@,
        RouteFault::RawNeedsArgs => e matches MediaError::Other(m) && m@
            == "raw requires an `args` array"@,
        RouteFault::NoOperation(method, p) => e matches MediaError::Other(m) && m@
            == "no operation for "@ + method_debug_text(method) + " /"@ + p,
    }
}

/// The texts of the string elements of an array, in order.
pub open spec fn present_strings(items: Seq<Option<String>>) -> Seq<Seq<char>>
    decreases items.len(),
{
    if items.len() == 0 {
        Seq::empty()
    } else {
        present_strings(items.drop_last()) + match items.last() {
            Some(s) => seq![s@],
            None => Seq::empty(),
        }
    }
}

/// The container a body's `format` field names, if it names a known one.
pub open spec fn format_field_container(fields: Seq<(String, BodyValue)>) -> Option<Container> {
    match body_str_spec(fields, "format"@) {
        Some(f) => Container::from_name_spec(f),
        None => None,
    }
}

/// The operation a request routes to, by method and normalized path, or why none.
pub open spec fn route(req: UniversalRequest) -> Result<OperationView, RouteFault> {
    let p = normalize_path_spec(req.path@);
    let fields = req.body.fields@;
    let post = req.method == Method::Post;
    let get = req.method == Method::Get;
    if post && p == "convert"@ {
        match req.body.as_convert {
            Err(e) => Err(RouteFault::BadBody(e@)),
            Ok(cr) => match build_format_spec(cr, None) {
                Err(f) => Err(RouteFault::Format(f)),
                Ok(format) => Ok(
                    OperationView::Convert {
                        format,
                        trim: Trim { start: cr.start, end: cr.end, duration: cr.duration },
                    },
                ),
            },
        }
    } else if post && p == "extract-audio"@ {
        Ok(
            OperationView::ExtractAudio {
                codec: body_str_spec(fields, "codec"@),
                container: match format_field_container(fields) {
                    Some(c) => c,
                    None => Container::M4a,
                },
            },
        )
    } else if post && p == "thumbnail"@ {
        Ok(
            OperationView::Thumbnail {
                time: match body_micros_spec(fields, "time"@) {
                    Some(t) => t,
                    None => 0,
                },
                width: match body_u64_spec(fields, "width"@) {
                    Some(w) => Some(w as u32),
                    None => None,
                },
            },
        )
    } else if post && p == "filter"@ {
        match body_str_spec(fields, "graph"@) {
            Some(g) => Ok(OperationView::Filter { graph: g, container: format_field_container(fields) }),
            None => Err(RouteFault::FilterNeedsGraph),
        }
    } else if post && p == "concat"@ {
        Ok(
            OperationView::Concat {
                container: match format_field_container(fields) {
                    Some(c) => c,
                    None => Container::Mkv,
                },
            },
        )
    } else if post && p == "probe"@ {
        Ok(OperationView::Probe)
    } else if get && p == "capabilities"@ {
        Ok(
            OperationView::Capabilities {
                kind: match lookup_text(req.query@, "kind"@) {
                    Some(k) => match cap_kind_named(ascii_lower(k)) {
                        Some(c) => c,
                        None => CapKind::All,
                    },
                    None => CapKind::All,
                },
            },
        )
    } else if get && p == "presets"@ {
        Ok(OperationView::Presets)
    } else if post && p == "raw"@ {
        match lookup(fields, "args"@) {
            Some(BodyValue::Array(items)) => Ok(
                OperationView::Raw {
                    args: present_strings(items@),
                    output_ext: trim_start_char(
                        match body_str_spec(fields, "output_ext"@) {
                            Some(e) => e,
                            None => "mkv"@,
                        },
                        '.',
                    ),
                },
            ),
            _ => Err(RouteFault::RawNeedsArgs),
        }
    } else {
        Err(RouteFault::NoOperation(req.method, p))
    }
}

/// A POST extract-audio request routes to an extraction with the codec its `codec`
/// string names, into the container its `format` string names, else M4A.
pub proof fn lemma_extract_audio_routes_to_named_container(req: UniversalRequest)
    requires
        req.method == Method::Post,
        normalize_path_spec(req.path@) == "extract-audio"@,
    ensures
        route(req) == Ok::<OperationView, RouteFault>(
            OperationView::ExtractAudio {
                codec: body_str_spec(req.body.fields@, "codec"@),
                container: match body_str_spec(req.body.fields@, "format"@) {
                    Some(f) => match Container::from_name_spec(f) {
                        Some(c) => c,
                        None => Container::M4a,
                    },
                    None => Container::M4a,
                },
            },
        ),
{
    reveal_strlit("convert");
    reveal_strlit("extract-audio");
    assert("extract-audio"@.len() != "convert"@.len());
}

/// A POST concat request routes to a concatenation into the container its `format`
/// string names, else Matroska.
pub proof fn lemma_concat_routes_to_named_container(req: UniversalRequest)
    requires
        req.method == Method::Post,
        normalize_path_spec(req.path@) == "concat"@,
    ensures
        route(req) == Ok::<OperationView, RouteFault>(
            OperationView::Concat {
                container: match body_str_spec(req.body.fields@, "format"@) {
                    Some(f) => match Container::from_name_spec(f) {
                        Some(c) => c,
                        None => Container::Mkv,
                    },
                    None => Container::Mkv,
                },
            },
        ),
{
    reveal_strlit("convert");
    reveal_strlit("extract-audio");
    reveal_strlit("thumbnail");
    reveal_strlit("filter");
    reveal_strlit("concat");
    assert("concat"@.len() != "convert"@.len());
    assert("concat"@.len() != "extract-audio"@.len());
    assert("concat"@.len() != "thumbnail"@.len());
    assert("concat"@[0] != "filter"@[0]);
}

/// A POST filter request with a `graph` string routes to that filter, writing the
/// container its `format` string names (by [`Container::from_name_spec`], any case, a
/// leading dot allowed), or, with no such format, the input's own container.
pub proof fn lemma_filter_routes_to_named_container(req: UniversalRequest)
    requires
        req.method == Method::Post,
        normalize_path_spec(req.path@) == "filter"@,
        body_str_spec(req.body.fields@, "graph"@) is Some,
    ensures
        route(req) == Ok::<OperationView, RouteFault>(
            OperationView::Filter {
                graph: body_str_spec(req.body.fields@, "graph"@)->0,
                container: match body_str_spec(req.body.fields@, "format"@) {
                    Some(f) => Container::from_name_spec(f),
                    None => None,
                },
            },
        ),
{
    reveal_strlit("convert");
    reveal_strlit("extract-audio");
    reveal_strlit("thumbnail");
    reveal_strlit("filter");
    assert("filter"@.len() != "convert"@.len());
    assert("filter"@.len() != "extract-audio"@.len());
    assert("filter"@.len() != "thumbnail"@.len());
}

/// Whether routing `req` reads a bitrate that does not fit in a `u32`.
pub open spec fn route_bitrate_fits(req: UniversalRequest) -> bool {
    req.method == Method::Post && normalize_path_spec(req.path@) == "convert"@ ==> match req.body.as_convert {
        Ok(cr) => bitrate_fits_when_read(cr, None),
        Err(_) => true,
    }
}

/// Whether routing `req` reads only bitrates that fit in a `u32` (the condition
/// [`Operation::from_request`] and the handler's plan require).
pub fn route_bitrate_ok(req: &UniversalRequest) -> (r: bool)
    ensures
        r == route_bitrate_fits(*req),
{
    if req.method == Method::Post && eq_str(&chars_of(normalize_path(req.path.as_str()).as_str()), "convert") {
        match &req.body.as_convert {
            Ok(cr) => cr.bitrate_fits_when_built(None),
            Err(_) => true,
        }
    } else {
        true
    }
}

/// The strings of an array's string elements.
fn present_string_list(items: &Vec<Option<String>>) -> (r: Vec<String>)
    ensures
        strings_view(r@) == present_strings(items@),
{
    let mut r: Vec<String> = Vec::new();
    let mut i: usize = 0;
    while i < items.len()
        invariant
            i <= items.len(),
            strings_view(r@) == present_strings(items@.take(i as int)),
        decreases items.len() - i,
    {
        proof {
            assert(items@.take(i + 1).drop_last() =~= items@.take(i as int));
            assert(items@.take(i + 1).last() == items@[i as int]);
        }
        if let Some(s) = &items[i] {
            crate::text::push_arg_string(&mut r, s.clone());
        }
        assert(strings_view(r@) =~= present_strings(items@.take(i + 1)));
        i = i + 1;
    }
    assert(items@.take(items.len() as int) =~= items@);
    r
}

fn other_error(msg: &str) -> (e: MediaError)
    ensures
        e matches MediaError::Other(m) && m@ == msg@,
{
    MediaError::Other(msg.to_owned())
}

fn field_container(req: &UniversalRequest) -> (r: Option<Container>)
    ensures
        r == format_field_container(req.body.fields@),
{
    match req.body_str("format") {
        Some(f) => Container::from_name(f.as_str()),
        None => None,
    }
}

impl Operation {
    /// Route a universal request to an operation. Pure parsing and validation.
    pub fn from_request(req: &UniversalRequest) -> (r: Result<Operation, MediaError>)
        requires
            route_bitrate_fits(*req),
        ensures
            match (r, route(*req)) {
                (Ok(op), Ok(v)) => op@ == v,
                (Err(e), Err(f)) => reports_route_fault(e, f),
                _ => false,
            },
    {
        let path = normalize_path(req.path.as_str());
        let p = chars_of(path.as_str());
        let post = req.method == Method::Post;
        let get = req.method == Method::Get;
        if post && eq_str(&p, "convert") {
            match &req.body.as_convert {
                Err(e) => {
                    let mut m = chars_of("invalid request body: ");
                    push_str(&mut m, e.as_str());
                    Err(MediaError::Other(string_of(&m)))
                },
                Ok(cr) => match cr.build_format(None) {
                    Err(e) => Err(e),
                    Ok(format) => Ok(Operation::Convert { format, trim: cr.trim() }),
                },
            }
        } else if post && eq_str(&p, "extract-audio") {
            let codec = req.body_str("codec");
            let container = match field_container(req) {
                Some(c) => c,
                None => Container::M4a,
            };
            Ok(Operation::ExtractAudio { codec, container })
        } else if post && eq_str(&p, "thumbnail") {
            let time = match req.body_micros("time") {
                Some(t) => t,
                None => 0,
            };
            let width = match req.body_u64("width") {
                Some(w) => Some(w as u32),
                None => None,
            };
            Ok(Operation::Thumbnail { time, width })
        } else if post && eq_str(&p, "filter") {
            match req.body_str("graph") {
                Some(graph) => Ok(Operation::Filter { graph, container: field_container(req) }),
                None => Err(other_error("filter requires a `graph`")),
            }
        } else if post && eq_str(&p, "concat") {
            let container = match field_container(req) {
                Some(c) => c,
                None => Container::Mkv,
            };
            Ok(Operation::Concat { container })
        } else if post && eq_str(&p, "probe") {
            Ok(Operation::Probe)
        } else if get && eq_str(&p, "capabilities") {
            let kind = match req.query_value("kind") {
                Some(k) => match CapKind::parse(k.as_str()) {
                    Some(c) => c,
                    None => CapKind::All,
                },
                None => CapKind::All,
            };
            Ok(Operation::Capabilities { kind })
        } else if get && eq_str(&p, "presets") {
            Ok(Operation::Presets)
        } else if post && eq_str(&p, "raw") {
            let args = match crate::api_queue::body_field(req, "args") {
                Some(BodyValue::Array(items)) => Some(present_string_list(items)),
                _ => None,
            };
            match args {
                Some(args) => {
                    let ext = match req.body_str("output_ext") {
                        Some(e) => chars_of(e.as_str()),
                        None => chars_of("mkv"),
                    };
                    let output_ext = string_of(&trim_start_matches(&ext, '.'));
                    Ok(Operation::Raw { args, output_ext })
                },
                None => Err(other_error("raw requires an `args` array")),
            }
        } else {
            let mut m = chars_of("no operation for ");
            push_str(&mut m, method_debug_name(req.method));
            push_str(&mut m, " /");
            push_all(&mut m, &p);
            Err(MediaError::Other(string_of(&m)))
        }
    }
}

} // verus!
