//! Container (muxer) formats with extension/MIME mappings and codec compatibility.

use vstd::prelude::*;
use crate::codec::{AudioCodec, VideoCodec};
use crate::path::{extension, extension_of};
use crate::text::{
    chars_of, eq_str, lowercase_chars, string_of, trim_start_char, trim_start_matches,
    lowered, ascii_lower, ascii_upper, starts_with, trim_start_by,
};

verus! {

/// Supported container/muxer formats.
#[derive(Debug, Clone, Copy, PartialEq, Eq, Structural, Hash)]
pub enum Container {
    Mp4,
    Mkv,
    WebM,
    Avi,
    Mov,
    Flv,
    Ogg,
    Flac,
    Wav,
    Mp3,
    M4a,
    M4b,
    Ts,
    Gif,
}

impl Container {
    /// File extension of each container (without dot).
    pub open spec fn extension_text(self) -> Seq<char> {
        match self {
            Container::Mp4 => "mp4"@,
            Container::Mkv => "mkv"@,
            Container::WebM => "webm"@,
            Container::Avi => "avi"@,
            Container::Mov => "mov"@,
            Container::Flv => "flv"@,
            Container::Ogg => "ogg"@,
            Container::Flac => "flac"@,
            Container::Wav => "wav"@,
            Container::Mp3 => "mp3"@,
            Container::M4a => "m4a"@,
            Container::M4b => "m4b"@,
            Container::Ts => "ts"@,
            Container::Gif => "gif"@,
        }
    }

    /// MIME type of each container.
    pub open spec fn mime_text(self) -> Seq<char> {
        match self {
            Container::Mp4 => "video/mp4"@,
            Container::Mkv => "video/x-matroska"@,
            Container::WebM => "video/webm"@,
            Container::Avi => "video/x-msvideo"@,
            Container::Mov => "video/quicktime"@,
            Container::Flv => "video/x-flv"@,
            Container::Ogg => "audio/ogg"@,
            Container::Flac => "audio/flac"@,
            Container::Wav => "audio/wav"@,
            Container::Mp3 => "audio/mpeg"@,
            Container::M4a => "audio/x-m4a"@,
            Container::M4b => "audio/x-m4b"@,
            Container::Ts => "video/mp2t"@,
            Container::Gif => "image/gif"@,
        }
    }

    /// FFmpeg muxer name of each container.
    pub open spec fn format_text(self) -> Seq<char> {
        match self {
            Container::Mp4 | Container::M4a | Container::M4b => "mp4"@,
            Container::Mkv => "matroska"@,
            Container::WebM => "webm"@,
            Container::Avi => "avi"@,
            Container::Mov => "mov"@,
            Container::Flv => "flv"@,
            Container::Ogg => "ogg"@,
            Container::Flac => "flac"@,
            Container::Wav => "wav"@,
            Container::Mp3 => "mp3"@,
            Container::Ts => "mpegts"@,
            Container::Gif => "gif"@,
        }
    }

    /// The variant's name as `{:?}` prints it.
    pub open spec fn debug_text(self) -> Seq<char> {
        match self {
            Container::Mp4 => "Mp4"@,
            Container::Mkv => "Mkv"@,
            Container::WebM => "WebM"@,
            Container::Avi => "Avi"@,
            Container::Mov => "Mov"@,
            Container::Flv => "Flv"@,
            Container::Ogg => "Ogg"@,
            Container::Flac => "Flac"@,
            Container::Wav => "Wav"@,
            Container::Mp3 => "Mp3"@,
            Container::M4a => "M4a"@,
            Container::M4b => "M4b"@,
            Container::Ts => "Ts"@,
            Container::Gif => "Gif"@,
        }
    }

    /// Which containers hold video.
    pub open spec fn video_capable(self) -> bool {
        match self {
            Container::Mp4 | Container::Mkv | Container::WebM | Container::Avi | Container::Mov
            | Container::Flv | Container::Ts | Container::Gif => true,
            _ => false,
        }
    }

    /// Which audio codecs each container accepts.
    pub open spec fn accepts_audio(self, codec: AudioCodec) -> bool {
        match self {
            Container::Mp4 | Container::M4a | Container::M4b | Container::Mov => match codec {
                AudioCodec::Aac | AudioCodec::Alac | AudioCodec::Ac3 | AudioCodec::Flac
                | AudioCodec::Mp3 | AudioCodec::Opus | AudioCodec::Pcm16Le | AudioCodec::Pcm24Le
                | AudioCodec::PcmF32Le => true,
                _ => false,
            },
            Container::Mkv => true,
            Container::WebM => codec == AudioCodec::Vorbis || codec == AudioCodec::Opus,
            Container::Avi => match codec {
                AudioCodec::Mp3 | AudioCodec::Ac3 | AudioCodec::Pcm16Le | AudioCodec::Pcm24Le
                | AudioCodec::PcmF32Le => true,
                _ => false,
            },
            Container::Flv => codec == AudioCodec::Aac || codec == AudioCodec::Mp3,
            Container::Ogg => codec == AudioCodec::Vorbis || codec == AudioCodec::Opus || codec
                == AudioCodec::Flac,
            Container::Flac => codec == AudioCodec::Flac,
            Container::Wav => match codec {
                AudioCodec::Wav | AudioCodec::Pcm16Le | AudioCodec::Pcm24Le
                | AudioCodec::PcmF32Le => true,
                _ => false,
            },
            Container::Mp3 => codec == AudioCodec::Mp3,
            Container::Ts => codec == AudioCodec::Aac || codec == AudioCodec::Mp3 || codec
                == AudioCodec::Ac3,
            Container::Gif => false,
        }
    }

    /// Which video codecs each container accepts.
    pub open spec fn accepts_video(self, codec: VideoCodec) -> bool {
        match self {
            Container::Mp4 | Container::Mov => match codec {
                VideoCodec::H264 | VideoCodec::H265 | VideoCodec::Av1 | VideoCodec::Mpeg4
                | VideoCodec::ProRes | VideoCodec::Vp9 => true,
                _ => false,
            },
            Container::Mkv => true,
            Container::WebM => codec == VideoCodec::Vp8 || codec == VideoCodec::Vp9 || codec
                == VideoCodec::Av1,
            Container::Avi => codec == VideoCodec::H264 || codec == VideoCodec::Mpeg4,
            Container::Flv => codec == VideoCodec::H264,
            Container::Ts => codec == VideoCodec::H264 || codec == VideoCodec::H265 || codec
                == VideoCodec::Mpeg4,
            _ => false,
        }
    }

    /// Every container, in declaration order.
    pub open spec fn all_spec() -> Seq<Container> {
        seq![
            Container::Mp4, Container::Mkv, Container::WebM, Container::Avi, Container::Mov,
            Container::Flv, Container::Ogg, Container::Flac, Container::Wav, Container::Mp3,
            Container::M4a, Container::M4b, Container::Ts, Container::Gif,
        ]
    }

    /// The container a lowercased, dot-stripped name stands for.
    pub open spec fn named(n: Seq<char>) -> Option<Container> {
        if n == "mp4"@ {
            Some(Container::Mp4)
        } else if n == "mkv"@ || n == "matroska"@ {
            Some(Container::Mkv)
        } else if n == "webm"@ {
            Some(Container::WebM)
        } else if n == "avi"@ {
            Some(Container::Avi)
        } else if n == "mov"@ {
            Some(Container::Mov)
        } else if n == "flv"@ {
            Some(Container::Flv)
        } else if n == "ogg"@ || n == "oga"@ {
            Some(Container::Ogg)
        } else if n == "flac"@ {
            Some(Container::Flac)
        } else if n == "wav"@ {
            Some(Container::Wav)
        } else if n == "mp3"@ {
            Some(Container::Mp3)
        } else if n == "m4a"@ {
            Some(Container::M4a)
        } else if n == "m4b"@ {
            Some(Container::M4b)
        } else if n == "ts"@ || n == "mts"@ || n == "m2ts"@ {
            Some(Container::Ts)
        } else if n == "gif"@ {
            Some(Container::Gif)
        } else {
            None
        }
    }

    /// What [`Container::from_name`] returns for `s`.
    pub open spec fn from_name_spec(s: Seq<char>) -> Option<Container> {
        Self::named(trim_start_char(lowered(s), '.'))
    }

    /// What [`Container::from_path`] returns for the path `p`.
    pub open spec fn from_path_spec(p: Seq<char>) -> Option<Container> {
        match extension(p) {
            Some(e) => Self::from_name_spec(e),
            None => None,
        }
    }

    /// File extension (without dot).
    pub fn extension(&self) -> (r: &'static str)
        ensures
            r@ == self.extension_text(),
    {
        match self {
            Container::Mp4 => "mp4",
            Container::Mkv => "mkv",
            Container::WebM => "webm",
            Container::Avi => "avi",
            Container::Mov => "mov",
            Container::Flv => "flv",
            Container::Ogg => "ogg",
            Container::Flac => "flac",
            Container::Wav => "wav",
            Container::Mp3 => "mp3",
            Container::M4a => "m4a",
            Container::M4b => "m4b",
            Container::Ts => "ts",
            Container::Gif => "gif",
        }
    }

    /// MIME type.
    pub fn mime_type(&self) -> (r: &'static str)
        ensures
            r@ == self.mime_text(),
    {
        match self {
            Container::Mp4 => "video/mp4",
            Container::Mkv => "video/x-matroska",
            Container::WebM => "video/webm",
            Container::Avi => "video/x-msvideo",
            Container::Mov => "video/quicktime",
            Container::Flv => "video/x-flv",
            Container::Ogg => "audio/ogg",
            Container::Flac => "audio/flac",
            Container::Wav => "audio/wav",
            Container::Mp3 => "audio/mpeg",
            Container::M4a => "audio/x-m4a",
            Container::M4b => "audio/x-m4b",
            Container::Ts => "video/mp2t",
            Container::Gif => "image/gif",
        }
    }

    /// FFmpeg muxer/format name.
    pub fn ffmpeg_format(&self) -> (r: &'static str)
        ensures
            r@ == self.format_text(),
    {
        match self {
            Container::Mp4 | Container::M4a | Container::M4b => "mp4",
            Container::Mkv => "matroska",
            Container::WebM => "webm",
            Container::Avi => "avi",
            Container::Mov => "mov",
            Container::Flv => "flv",
            Container::Ogg => "ogg",
            Container::Flac => "flac",
            Container::Wav => "wav",
            Container::Mp3 => "mp3",
            Container::Ts => "mpegts",
            Container::Gif => "gif",
        }
    }

    /// The variant's name as `{:?}` prints it.
    pub fn debug_name(&self) -> (r: &'static str)
        ensures
            r@ == self.debug_text(),
    {
        match self {
            Container::Mp4 => "Mp4",
            Container::Mkv => "Mkv",
            Container::WebM => "WebM",
            Container::Avi => "Avi",
            Container::Mov => "Mov",
            Container::Flv => "Flv",
            Container::Ogg => "Ogg",
            Container::Flac => "Flac",
            Container::Wav => "Wav",
            Container::Mp3 => "Mp3",
            Container::M4a => "M4a",
            Container::M4b => "M4b",
            Container::Ts => "Ts",
            Container::Gif => "Gif",
        }
    }

    /// Whether this container can hold video streams.
    pub fn supports_video(&self) -> (r: bool)
        ensures
            r == self.video_capable(),
    {
        match self {
            Container::Mp4 | Container::Mkv | Container::WebM | Container::Avi | Container::Mov
            | Container::Flv | Container::Ts | Container::Gif => true,
            _ => false,
        }
    }

    /// Whether this container can hold audio streams (all but GIF).
    pub fn supports_audio(&self) -> (r: bool)
        ensures
            r == (*self != Container::Gif),
    {
        match self {
            Container::Gif => false,
            _ => true,
        }
    }

    /// Whether the given audio codec is compatible with this container.
    pub fn supports_audio_codec(&self, codec: AudioCodec) -> (r: bool)
        ensures
            r == self.accepts_audio(codec),
    {
        match self {
            Container::Mp4 | Container::M4a | Container::M4b | Container::Mov => match codec {
                AudioCodec::Aac | AudioCodec::Alac | AudioCodec::Ac3 | AudioCodec::Flac
                | AudioCodec::Mp3 | AudioCodec::Opus | AudioCodec::Pcm16Le | AudioCodec::Pcm24Le
                | AudioCodec::PcmF32Le => true,
                _ => false,
            },
            Container::Mkv => true,
            Container::WebM => codec == AudioCodec::Vorbis || codec == AudioCodec::Opus,
            Container::Avi => match codec {
                AudioCodec::Mp3 | AudioCodec::Ac3 | AudioCodec::Pcm16Le | AudioCodec::Pcm24Le
                | AudioCodec::PcmF32Le => true,
                _ => false,
            },
            Container::Flv => codec == AudioCodec::Aac || codec == AudioCodec::Mp3,
            Container::Ogg => codec == AudioCodec::Vorbis || codec == AudioCodec::Opus || codec
                == AudioCodec::Flac,
            Container::Flac => codec == AudioCodec::Flac,
            Container::Wav => match codec {
                AudioCodec::Wav | AudioCodec::Pcm16Le | AudioCodec::Pcm24Le
                | AudioCodec::PcmF32Le => true,
                _ => false,
            },
            Container::Mp3 => codec == AudioCodec::Mp3,
            Container::Ts => codec == AudioCodec::Aac || codec == AudioCodec::Mp3 || codec
                == AudioCodec::Ac3,
            Container::Gif => false,
        }
    }

    /// Whether the given video codec is compatible with this container.
    pub fn supports_video_codec(&self, codec: VideoCodec) -> (r: bool)
        ensures
            r == self.accepts_video(codec),
    {
        match self {
            Container::Mp4 | Container::Mov => match codec {
                VideoCodec::H264 | VideoCodec::H265 | VideoCodec::Av1 | VideoCodec::Mpeg4
                | VideoCodec::ProRes | VideoCodec::Vp9 => true,
                _ => false,
            },
            Container::Mkv => true,
            Container::WebM => codec == VideoCodec::Vp8 || codec == VideoCodec::Vp9 || codec
                == VideoCodec::Av1,
            Container::Avi => codec == VideoCodec::H264 || codec == VideoCodec::Mpeg4,
            Container::Flv => codec == VideoCodec::H264,
            Container::Ts => codec == VideoCodec::H264 || codec == VideoCodec::H265 || codec
                == VideoCodec::Mpeg4,
            _ => false,
        }
    }

    /// Whether this container requires seekable output (for the moov atom, etc.).
    pub fn requires_seekable_output(&self) -> (r: bool)
        ensures
            r == (*self == Container::Mp4 || *self == Container::M4a || *self == Container::M4b
                || *self == Container::Mov),
    {
        match self {
            Container::Mp4 | Container::M4a | Container::M4b | Container::Mov => true,
            _ => false,
        }
    }

    /// All known containers.
    pub fn all() -> (r: Vec<Container>)
        ensures
            r@ == Self::all_spec(),
    {
        let r = vec![
            Container::Mp4, Container::Mkv, Container::WebM, Container::Avi, Container::Mov,
            Container::Flv, Container::Ogg, Container::Flac, Container::Wav, Container::Mp3,
            Container::M4a, Container::M4b, Container::Ts, Container::Gif,
        ];
        assert(r@ =~= Self::all_spec());
        r
    }

    /// Parse from a file extension or name: Unicode-lowercased, leading dots removed.
    pub fn from_name(s: &str) -> (r: Option<Container>)
        ensures
            r == Self::from_name_spec(s@),
    {
        let l = lowercase_chars(s);
        let n = trim_start_matches(&l, '.');
        if eq_str(&n, "mp4") {
            Some(Container::Mp4)
        } else if eq_str(&n, "mkv") || eq_str(&n, "matroska") {
            Some(Container::Mkv)
        } else if eq_str(&n, "webm") {
            Some(Container::WebM)
        } else if eq_str(&n, "avi") {
            Some(Container::Avi)
        } else if eq_str(&n, "mov") {
            Some(Container::Mov)
        } else if eq_str(&n, "flv") {
            Some(Container::Flv)
        } else if eq_str(&n, "ogg") || eq_str(&n, "oga") {
            Some(Container::Ogg)
        } else if eq_str(&n, "flac") {
            Some(Container::Flac)
        } else if eq_str(&n, "wav") {
            Some(Container::Wav)
        } else if eq_str(&n, "mp3") {
            Some(Container::Mp3)
        } else if eq_str(&n, "m4a") {
            Some(Container::M4a)
        } else if eq_str(&n, "m4b") {
            Some(Container::M4b)
        } else if eq_str(&n, "ts") || eq_str(&n, "mts") || eq_str(&n, "m2ts") {
            Some(Container::Ts)
        } else if eq_str(&n, "gif") {
            Some(Container::Gif)
        } else {
            None
        }
    }

    /// Infer the container from a path's extension.
    pub fn from_path(path: &str) -> (r: Option<Container>)
        ensures
            r == Self::from_path_spec(path@),
    {
        let p = chars_of(path);
        match extension_of(&p) {
            Some(e) => {
                let es = string_of(&e);
                Self::from_name(es.as_str())
            },
            None => None,
        }
    }
}


// ───────────────────────── laws ─────────────────────────

/// Every container's extension names it back: as written, in ASCII upper case, and with a
/// leading dot.
pub proof fn lemma_extension_round_trip(c: Container)
    ensures
        Container::from_name_spec(c.extension_text()) == Some(c),
        Container::from_name_spec(ascii_upper(c.extension_text())) == Some(c),
        Container::from_name_spec("."@ + c.extension_text()) == Some(c),
{
    reveal_strlit(".");
    reveal_with_fuel(trim_start_by, 3);
    reveal_strlit("avi");
    reveal_strlit("flac");
    reveal_strlit("flv");
    reveal_strlit("gif");
    reveal_strlit("m2ts");
    reveal_strlit("m4a");
    reveal_strlit("m4b");
    reveal_strlit("matroska");
    reveal_strlit("mkv");
    reveal_strlit("mov");
    reveal_strlit("mp3");
    reveal_strlit("mp4");
    reveal_strlit("mts");
    reveal_strlit("oga");
    reveal_strlit("ogg");
    reveal_strlit("ts");
    reveal_strlit("wav");
    reveal_strlit("webm");
    assert("avi"@.len() != "flac"@.len());
    assert("avi"@[0] != "flv"@[0]);
    assert("avi"@[0] != "gif"@[0]);
    assert("avi"@.len() != "m2ts"@.len());
    assert("avi"@[0] != "m4a"@[0]);
    assert("avi"@[0] != "m4b"@[0]);
    assert("avi"@.len() != "matroska"@.len());
    assert("avi"@[0] != "mkv"@[0]);
    assert("avi"@[0] != "mov"@[0]);
    assert("avi"@[0] != "mp3"@[0]);
    assert("avi"@[0] != "mp4"@[0]);
    assert("avi"@[0] != "mts"@[0]);
    assert("avi"@[0] != "oga"@[0]);
    assert("avi"@[0] != "ogg"@[0]);
    assert("avi"@.len() != "ts"@.len());
    assert("avi"@[0] != "wav"@[0]);
    assert("avi"@.len() != "webm"@.len());
    assert("flac"@.len() != "flv"@.len());
    assert("flac"@.len() != "gif"@.len());
    assert("flac"@[0] != "m2ts"@[0]);
    assert("flac"@.len() != "m4a"@.len());
    assert("flac"@.len() != "m4b"@.len());
    assert("flac"@.len() != "matroska"@.len());
    assert("flac"@.len() != "mkv"@.len());
    assert("flac"@.len() != "mov"@.len());
    assert("flac"@.len() != "mp3"@.len());
    assert("flac"@.len() != "mp4"@.len());
    assert("flac"@.len() != "mts"@.len());
    assert("flac"@.len() != "oga"@.len());
    assert("flac"@.len() != "ogg"@.len());
    assert("flac"@.len() != "ts"@.len());
    assert("flac"@.len() != "wav"@.len());
    assert("flac"@[0] != "webm"@[0]);
    assert("flv"@[0] != "gif"@[0]);
    assert("flv"@.len() != "m2ts"@.len());
    assert("flv"@[0] != "m4a"@[0]);
    assert("flv"@[0] != "m4b"@[0]);
    assert("flv"@.len() != "matroska"@.len());
    assert("flv"@[0] != "mkv"@[0]);
    assert("flv"@[0] != "mov"@[0]);
    assert("flv"@[0] != "mp3"@[0]);
    assert("flv"@[0] != "mp4"@[0]);
    assert("flv"@[0] != "mts"@[0]);
    assert("flv"@[0] != "oga"@[0]);
    assert("flv"@[0] != "ogg"@[0]);
    assert("flv"@.len() != "ts"@.len());
    assert("flv"@[0] != "wav"@[0]);
    assert("flv"@.len() != "webm"@.len());
    assert("gif"@.len() != "m2ts"@.len());
    assert("gif"@[0] != "m4a"@[0]);
    assert("gif"@[0] != "m4b"@[0]);
    assert("gif"@.len() != "matroska"@.len());
    assert("gif"@[0] != "mkv"@[0]);
    assert("gif"@[0] != "mov"@[0]);
    assert("gif"@[0] != "mp3"@[0]);
    assert("gif"@[0] != "mp4"@[0]);
    assert("gif"@[0] != "mts"@[0]);
    assert("gif"@[0] != "oga"@[0]);
    assert("gif"@[0] != "ogg"@[0]);
    assert("gif"@.len() != "ts"@.len());
    assert("gif"@[0] != "wav"@[0]);
    assert("gif"@.len() != "webm"@.len());
    assert("m2ts"@.len() != "m4a"@.len());
    assert("m2ts"@.len() != "m4b"@.len());
    assert("m2ts"@.len() != "matroska"@.len());
    assert("m2ts"@.len() != "mkv"@.len());
    assert("m2ts"@.len() != "mov"@.len());
    assert("m2ts"@.len() != "mp3"@.len());
    assert("m2ts"@.len() != "mp4"@.len());
    assert("m2ts"@.len() != "mts"@.len());
    assert("m2ts"@.len() != "oga"@.len());
    assert("m2ts"@.len() != "ogg"@.len());
    assert("m2ts"@.len() != "ts"@.len());
    assert("m2ts"@.len() != "wav"@.len());
    assert("m2ts"@[0] != "webm"@[0]);
    assert("m4a"@[2] != "m4b"@[2]);
    assert("m4a"@.len() != "matroska"@.len());
    assert("m4a"@[1] != "mkv"@[1]);
    assert("m4a"@[1] != "mov"@[1]);
    assert("m4a"@[1] != "mp3"@[1]);
    assert("m4a"@[1] != "mp4"@[1]);
    assert("m4a"@[1] != "mts"@[1]);
    assert("m4a"@[0] != "oga"@[0]);
    assert("m4a"@[0] != "ogg"@[0]);
    assert("m4a"@.len() != "ts"@.len());
    assert("m4a"@[0] != "wav"@[0]);
    assert("m4a"@.len() != "webm"@.len());
    assert("m4b"@.len() != "matroska"@.len());
    assert("m4b"@[1] != "mkv"@[1]);
    assert("m4b"@[1] != "mov"@[1]);
    assert("m4b"@[1] != "mp3"@[1]);
    assert("m4b"@[1] != "mp4"@[1]);
    assert("m4b"@[1] != "mts"@[1]);
    assert("m4b"@[0] != "oga"@[0]);
    assert("m4b"@[0] != "ogg"@[0]);
    assert("m4b"@.len() != "ts"@.len());
    assert("m4b"@[0] != "wav"@[0]);
    assert("m4b"@.len() != "webm"@.len());
    assert("matroska"@.len() != "mkv"@.len());
    assert("matroska"@.len() != "mov"@.len());
    assert("matroska"@.len() != "mp3"@.len());
    assert("matroska"@.len() != "mp4"@.len());
    assert("matroska"@.len() != "mts"@.len());
    assert("matroska"@.len() != "oga"@.len());
    assert("matroska"@.len() != "ogg"@.len());
    assert("matroska"@.len() != "ts"@.len());
    assert("matroska"@.len() != "wav"@.len());
    assert("matroska"@.len() != "webm"@.len());
    assert("mkv"@[1] != "mov"@[1]);
    assert("mkv"@[1] != "mp3"@[1]);
    assert("mkv"@[1] != "mp4"@[1]);
    assert("mkv"@[1] != "mts"@[1]);
    assert("mkv"@[0] != "oga"@[0]);
    assert("mkv"@[0] != "ogg"@[0]);
    assert("mkv"@.len() != "ts"@.len());
    assert("mkv"@[0] != "wav"@[0]);
    assert("mkv"@.len() != "webm"@.len());
    assert("mov"@[1] != "mp3"@[1]);
    assert("mov"@[1] != "mp4"@[1]);
    assert("mov"@[1] != "mts"@[1]);
    assert("mov"@[0] != "oga"@[0]);
    assert("mov"@[0] != "ogg"@[0]);
    assert("mov"@.len() != "ts"@.len());
    assert("mov"@[0] != "wav"@[0]);
    assert("mov"@.len() != "webm"@.len());
    assert("mp3"@[2] != "mp4"@[2]);
    assert("mp3"@[1] != "mts"@[1]);
    assert("mp3"@[0] != "oga"@[0]);
    assert("mp3"@[0] != "ogg"@[0]);
    assert("mp3"@.len() != "ts"@.len());
    assert("mp3"@[0] != "wav"@[0]);
    assert("mp3"@.len() != "webm"@.len());
    assert("mp4"@[1] != "mts"@[1]);
    assert("mp4"@[0] != "oga"@[0]);
    assert("mp4"@[0] != "ogg"@[0]);
    assert("mp4"@.len() != "ts"@.len());
    assert("mp4"@[0] != "wav"@[0]);
    assert("mp4"@.len() != "webm"@.len());
    assert("mts"@[0] != "oga"@[0]);
    assert("mts"@[0] != "ogg"@[0]);
    assert("mts"@.len() != "ts"@.len());
    assert("mts"@[0] != "wav"@[0]);
    assert("mts"@.len() != "webm"@.len());
    assert("oga"@[2] != "ogg"@[2]);
    assert("oga"@.len() != "ts"@.len());
    assert("oga"@[0] != "wav"@[0]);
    assert("oga"@.len() != "webm"@.len());
    assert("ogg"@.len() != "ts"@.len());
    assert("ogg"@[0] != "wav"@[0]);
    assert("ogg"@.len() != "webm"@.len());
    assert("ts"@.len() != "wav"@.len());
    assert("ts"@.len() != "webm"@.len());
    assert("wav"@.len() != "webm"@.len());
    match c {
        Container::Mp4 => {
            assert(ascii_lower("mp4"@) =~= "mp4"@);
            assert(trim_start_char("mp4"@, '.') == "mp4"@);
            assert(Container::from_name_spec("mp4"@) == Container::named("mp4"@));
            assert(ascii_lower(ascii_upper("mp4"@)) =~= "mp4"@);
            assert(ascii_lower("."@ + "mp4"@) =~= "."@ + "mp4"@);
            assert(("."@ + "mp4"@).drop_first() =~= "mp4"@);
        },
        Container::Mkv => {
            assert(ascii_lower("mkv"@) =~= "mkv"@);
            assert(trim_start_char("mkv"@, '.') == "mkv"@);
            assert(Container::from_name_spec("mkv"@) == Container::named("mkv"@));
            assert(ascii_lower(ascii_upper("mkv"@)) =~= "mkv"@);
            assert(ascii_lower("."@ + "mkv"@) =~= "."@ + "mkv"@);
            assert(("."@ + "mkv"@).drop_first() =~= "mkv"@);
        },
        Container::WebM => {
            assert(ascii_lower("webm"@) =~= "webm"@);
            assert(trim_start_char("webm"@, '.') == "webm"@);
            assert(Container::from_name_spec("webm"@) == Container::named("webm"@));
            assert(ascii_lower(ascii_upper("webm"@)) =~= "webm"@);
            assert(ascii_lower("."@ + "webm"@) =~= "."@ + "webm"@);
            assert(("."@ + "webm"@).drop_first() =~= "webm"@);
        },
        Container::Avi => {
            assert(ascii_lower("avi"@) =~= "avi"@);
            assert(trim_start_char("avi"@, '.') == "avi"@);
            assert(Container::from_name_spec("avi"@) == Container::named("avi"@));
            assert(ascii_lower(ascii_upper("avi"@)) =~= "avi"@);
            assert(ascii_lower("."@ + "avi"@) =~= "."@ + "avi"@);
            assert(("."@ + "avi"@).drop_first() =~= "avi"@);
        },
        Container::Mov => {
            assert(ascii_lower("mov"@) =~= "mov"@);
            assert(trim_start_char("mov"@, '.') == "mov"@);
            assert(Container::from_name_spec("mov"@) == Container::named("mov"@));
            assert(ascii_lower(ascii_upper("mov"@)) =~= "mov"@);
            assert(ascii_lower("."@ + "mov"@) =~= "."@ + "mov"@);
            assert(("."@ + "mov"@).drop_first() =~= "mov"@);
        },
        Container::Flv => {
            assert(ascii_lower("flv"@) =~= "flv"@);
            assert(trim_start_char("flv"@, '.') == "flv"@);
            assert(Container::from_name_spec("flv"@) == Container::named("flv"@));
            assert(ascii_lower(ascii_upper("flv"@)) =~= "flv"@);
            assert(ascii_lower("."@ + "flv"@) =~= "."@ + "flv"@);
            assert(("."@ + "flv"@).drop_first() =~= "flv"@);
        },
        Container::Ogg => {
            assert(ascii_lower("ogg"@) =~= "ogg"@);
            assert(trim_start_char("ogg"@, '.') == "ogg"@);
            assert(Container::from_name_spec("ogg"@) == Container::named("ogg"@));
            assert(ascii_lower(ascii_upper("ogg"@)) =~= "ogg"@);
            assert(ascii_lower("."@ + "ogg"@) =~= "."@ + "ogg"@);
            assert(("."@ + "ogg"@).drop_first() =~= "ogg"@);
        },
        Container::Flac => {
            assert(ascii_lower("flac"@) =~= "flac"@);
            assert(trim_start_char("flac"@, '.') == "flac"@);
            assert(Container::from_name_spec("flac"@) == Container::named("flac"@));
            assert(ascii_lower(ascii_upper("flac"@)) =~= "flac"@);
            assert(ascii_lower("."@ + "flac"@) =~= "."@ + "flac"@);
            assert(("."@ + "flac"@).drop_first() =~= "flac"@);
        },
        Container::Wav => {
            assert(ascii_lower("wav"@) =~= "wav"@);
            assert(trim_start_char("wav"@, '.') == "wav"@);
            assert(Container::from_name_spec("wav"@) == Container::named("wav"@));
            assert(ascii_lower(ascii_upper("wav"@)) =~= "wav"@);
            assert(ascii_lower("."@ + "wav"@) =~= "."@ + "wav"@);
            assert(("."@ + "wav"@).drop_first() =~= "wav"@);
        },
        Container::Mp3 => {
            assert(ascii_lower("mp3"@) =~= "mp3"@);
            assert(trim_start_char("mp3"@, '.') == "mp3"@);
            assert(Container::from_name_spec("mp3"@) == Container::named("mp3"@));
            assert(ascii_lower(ascii_upper("mp3"@)) =~= "mp3"@);
            assert(ascii_lower("."@ + "mp3"@) =~= "."@ + "mp3"@);
            assert(("."@ + "mp3"@).drop_first() =~= "mp3"@);
        },
        Container::M4a => {
            assert(ascii_lower("m4a"@) =~= "m4a"@);
            assert(trim_start_char("m4a"@, '.') == "m4a"@);
            assert(Container::from_name_spec("m4a"@) == Container::named("m4a"@));
            assert(ascii_lower(ascii_upper("m4a"@)) =~= "m4a"@);
            assert(ascii_lower("."@ + "m4a"@) =~= "."@ + "m4a"@);
            assert(("."@ + "m4a"@).drop_first() =~= "m4a"@);
        },
        Container::M4b => {
            assert(ascii_lower("m4b"@) =~= "m4b"@);
            assert(trim_start_char("m4b"@, '.') == "m4b"@);
            assert(Container::from_name_spec("m4b"@) == Container::named("m4b"@));
            assert(ascii_lower(ascii_upper("m4b"@)) =~= "m4b"@);
            assert(ascii_lower("."@ + "m4b"@) =~= "."@ + "m4b"@);
            assert(("."@ + "m4b"@).drop_first() =~= "m4b"@);
        },
        Container::Ts => {
            assert(ascii_lower("ts"@) =~= "ts"@);
            assert(trim_start_char("ts"@, '.') == "ts"@);
            assert(Container::from_name_spec("ts"@) == Container::named("ts"@));
            assert(ascii_lower(ascii_upper("ts"@)) =~= "ts"@);
            assert(ascii_lower("."@ + "ts"@) =~= "."@ + "ts"@);
            assert(("."@ + "ts"@).drop_first() =~= "ts"@);
        },
        Container::Gif => {
            assert(ascii_lower("gif"@) =~= "gif"@);
            assert(trim_start_char("gif"@, '.') == "gif"@);
            assert(Container::from_name_spec("gif"@) == Container::named("gif"@));
            assert(ascii_lower(ascii_upper("gif"@)) =~= "gif"@);
            assert(ascii_lower("."@ + "gif"@) =~= "."@ + "gif"@);
            assert(("."@ + "gif"@).drop_first() =~= "gif"@);
        },
    }
}

/// Every MIME type has a `/`; it is an `audio/` type exactly for the containers that
/// cannot hold video, and `image/gif` exactly for GIF.
pub proof fn lemma_mime_types(c: Container)
    ensures
        c.mime_text().contains('/'),
        starts_with(c.mime_text(), "audio/"@) <==> !c.video_capable(),
        c.mime_text() == "image/gif"@ <==> c == Container::Gif,
{
    reveal_strlit("audio/");
    reveal_strlit("image/gif");
    reveal_strlit("audio/flac");
    reveal_strlit("audio/mpeg");
    reveal_strlit("audio/ogg");
    reveal_strlit("audio/wav");
    reveal_strlit("audio/x-m4a");
    reveal_strlit("audio/x-m4b");
    reveal_strlit("image/gif");
    reveal_strlit("video/mp2t");
    reveal_strlit("video/mp4");
    reveal_strlit("video/quicktime");
    reveal_strlit("video/webm");
    reveal_strlit("video/x-flv");
    reveal_strlit("video/x-matroska");
    reveal_strlit("video/x-msvideo");
    assert("video/mp4"@[0] != "image/gif"@[0]);
    assert("video/x-matroska"@.len() != "image/gif"@.len());
    assert("video/webm"@.len() != "image/gif"@.len());
    assert("video/x-msvideo"@.len() != "image/gif"@.len());
    assert("video/quicktime"@.len() != "image/gif"@.len());
    assert("video/x-flv"@.len() != "image/gif"@.len());
    assert("audio/ogg"@[0] != "image/gif"@[0]);
    assert("audio/flac"@.len() != "image/gif"@.len());
    assert("audio/wav"@[0] != "image/gif"@[0]);
    assert("audio/mpeg"@.len() != "image/gif"@.len());
    assert("audio/x-m4a"@.len() != "image/gif"@.len());
    assert("audio/x-m4b"@.len() != "image/gif"@.len());
    assert("video/mp2t"@.len() != "image/gif"@.len());
    match c {
        Container::Mp4 => {
            assert("video/mp4"@[5] == '/');
            assert("video/mp4"@.take(6)[0] != "audio/"@[0]);
        },
        Container::Mkv => {
            assert("video/x-matroska"@[5] == '/');
            assert("video/x-matroska"@.take(6)[0] != "audio/"@[0]);
        },
        Container::WebM => {
            assert("video/webm"@[5] == '/');
            assert("video/webm"@.take(6)[0] != "audio/"@[0]);
        },
        Container::Avi => {
            assert("video/x-msvideo"@[5] == '/');
            assert("video/x-msvideo"@.take(6)[0] != "audio/"@[0]);
        },
        Container::Mov => {
            assert("video/quicktime"@[5] == '/');
            assert("video/quicktime"@.take(6)[0] != "audio/"@[0]);
        },
        Container::Flv => {
            assert("video/x-flv"@[5] == '/');
            assert("video/x-flv"@.take(6)[0] != "audio/"@[0]);
        },
        Container::Ogg => {
            assert("audio/ogg"@[5] == '/');
            assert("audio/ogg"@.take(6) =~= "audio/"@);
        },
        Container::Flac => {
            assert("audio/flac"@[5] == '/');
            assert("audio/flac"@.take(6) =~= "audio/"@);
        },
        Container::Wav => {
            assert("audio/wav"@[5] == '/');
            assert("audio/wav"@.take(6) =~= "audio/"@);
        },
        Container::Mp3 => {
            assert("audio/mpeg"@[5] == '/');
            assert("audio/mpeg"@.take(6) =~= "audio/"@);
        },
        Container::M4a => {
            assert("audio/x-m4a"@[5] == '/');
            assert("audio/x-m4a"@.take(6) =~= "audio/"@);
        },
        Container::M4b => {
            assert("audio/x-m4b"@[5] == '/');
            assert("audio/x-m4b"@.take(6) =~= "audio/"@);
        },
        Container::Ts => {
            assert("video/mp2t"@[5] == '/');
            assert("video/mp2t"@.take(6)[0] != "audio/"@[0]);
        },
        Container::Gif => {
            assert("image/gif"@[5] == '/');
            assert("image/gif"@.take(6)[0] != "audio/"@[0]);
        },
    }
}

/// Every container has a muxer name; it is `mp4` exactly for MP4, M4A and M4B, and
/// Matroska and MPEG-TS go by `matroska` and `mpegts`.
pub proof fn lemma_muxer_names(c: Container)
    ensures
        c.format_text().len() > 0,
        c.format_text() == "mp4"@ <==> (c == Container::Mp4 || c == Container::M4a || c
            == Container::M4b),
        Container::Mkv.format_text() == "matroska"@,
        Container::Ts.format_text() == "mpegts"@,
{
    reveal_strlit("avi");
    reveal_strlit("flac");
    reveal_strlit("flv");
    reveal_strlit("gif");
    reveal_strlit("matroska");
    reveal_strlit("mov");
    reveal_strlit("mp3");
    reveal_strlit("mp4");
    reveal_strlit("mpegts");
    reveal_strlit("ogg");
    reveal_strlit("wav");
    reveal_strlit("webm");
    assert("avi"@[0] != "mp4"@[0]);
    assert("flac"@.len() != "mp4"@.len());
    assert("flv"@[0] != "mp4"@[0]);
    assert("gif"@[0] != "mp4"@[0]);
    assert("matroska"@.len() != "mp4"@.len());
    assert("mov"@[1] != "mp4"@[1]);
    assert("mp3"@[2] != "mp4"@[2]);
    assert("mpegts"@.len() != "mp4"@.len());
    assert("ogg"@[0] != "mp4"@[0]);
    assert("wav"@[0] != "mp4"@[0]);
    assert("webm"@.len() != "mp4"@.len());
}

} // verus!
