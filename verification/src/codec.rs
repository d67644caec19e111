//! Audio and video codec enums with their FFmpeg encoder/decoder names.

use vstd::prelude::*;
use crate::text::{all_ascii, ascii_lower, eq_str, lowercase_chars, lowered};

verus! {

/// Supported audio codecs.
#[derive(Debug, Clone, Copy, PartialEq, Eq, Structural, Hash)]
pub enum AudioCodec {
    Mp3,
    Aac,
    Flac,
    Vorbis,
    Opus,
    Wav,
    Alac,
    Wma,
    Ac3,
    Pcm16Le,
    Pcm24Le,
    PcmF32Le,
}

impl AudioCodec {
    /// FFmpeg encoder name of each codec.
    pub open spec fn encoder_name(self) -> Seq<char> {
        match self {
            AudioCodec::Mp3 => "libmp3lame"@,
            AudioCodec::Aac => "aac"@,
            AudioCodec::Flac => "flac"@,
            AudioCodec::Vorbis => "libvorbis"@,
            AudioCodec::Opus => "libopus"@,
            AudioCodec::Wav | AudioCodec::Pcm16Le => "pcm_s16le"@,
            AudioCodec::Pcm24Le => "pcm_s24le"@,
            AudioCodec::PcmF32Le => "pcm_f32le"@,
            AudioCodec::Alac => "alac"@,
            AudioCodec::Wma => "wmav2"@,
            AudioCodec::Ac3 => "ac3"@,
        }
    }

    /// FFmpeg decoder name of each codec.
    pub open spec fn decoder_name(self) -> Seq<char> {
        match self {
            AudioCodec::Mp3 => "mp3"@,
            AudioCodec::Aac => "aac"@,
            AudioCodec::Flac => "flac"@,
            AudioCodec::Vorbis => "vorbis"@,
            AudioCodec::Opus => "opus"@,
            AudioCodec::Wav | AudioCodec::Pcm16Le => "pcm_s16le"@,
            AudioCodec::Pcm24Le => "pcm_s24le"@,
            AudioCodec::PcmF32Le => "pcm_f32le"@,
            AudioCodec::Alac => "alac"@,
            AudioCodec::Wma => "wmav2"@,
            AudioCodec::Ac3 => "ac3"@,
        }
    }

    /// Human-readable name of each codec.
    pub open spec fn display_text(self) -> Seq<char> {
        match self {
            AudioCodec::Mp3 => "MP3"@,
            AudioCodec::Aac => "AAC"@,
            AudioCodec::Flac => "FLAC"@,
            AudioCodec::Vorbis => "Vorbis"@,
            AudioCodec::Opus => "Opus"@,
            AudioCodec::Wav => "WAV (PCM 16-bit)"@,
            AudioCodec::Alac => "ALAC"@,
            AudioCodec::Wma => "WMA"@,
            AudioCodec::Ac3 => "AC-3"@,
            AudioCodec::Pcm16Le => "PCM 16-bit LE"@,
            AudioCodec::Pcm24Le => "PCM 24-bit LE"@,
            AudioCodec::PcmF32Le => "PCM Float 32-bit LE"@,
        }
    }

    /// The variant's name as `{:?}` prints it.
    pub open spec fn debug_text(self) -> Seq<char> {
        match self {
            AudioCodec::Mp3 => "Mp3"@,
            AudioCodec::Aac => "Aac"@,
            AudioCodec::Flac => "Flac"@,
            AudioCodec::Vorbis => "Vorbis"@,
            AudioCodec::Opus => "Opus"@,
            AudioCodec::Wav => "Wav"@,
            AudioCodec::Alac => "Alac"@,
            AudioCodec::Wma => "Wma"@,
            AudioCodec::Ac3 => "Ac3"@,
            AudioCodec::Pcm16Le => "Pcm16Le"@,
            AudioCodec::Pcm24Le => "Pcm24Le"@,
            AudioCodec::PcmF32Le => "PcmF32Le"@,
        }
    }

    /// Every audio codec, in declaration order.
    pub open spec fn all_spec() -> Seq<AudioCodec> {
        seq![
            AudioCodec::Mp3, AudioCodec::Aac, AudioCodec::Flac, AudioCodec::Vorbis,
            AudioCodec::Opus, AudioCodec::Wav, AudioCodec::Alac, AudioCodec::Wma,
            AudioCodec::Ac3, AudioCodec::Pcm16Le, AudioCodec::Pcm24Le, AudioCodec::PcmF32Le,
        ]
    }

    /// The codec a lowercased name stands for.
    pub open spec fn named(n: Seq<char>) -> Option<AudioCodec> {
        if n == "mp3"@ {
            Some(AudioCodec::Mp3)
        } else if n == "aac"@ || n == "m4a"@ {
            Some(AudioCodec::Aac)
        } else if n == "flac"@ {
            Some(AudioCodec::Flac)
        } else if n == "vorbis"@ || n == "ogg"@ {
            Some(AudioCodec::Vorbis)
        } else if n == "opus"@ {
            Some(AudioCodec::Opus)
        } else if n == "wav"@ || n == "pcm"@ {
            Some(AudioCodec::Wav)
        } else if n == "alac"@ {
            Some(AudioCodec::Alac)
        } else if n == "wma"@ {
            Some(AudioCodec::Wma)
        } else if n == "ac3"@ {
            Some(AudioCodec::Ac3)
        } else if n == "pcm16le"@ || n == "pcm_s16le"@ {
            Some(AudioCodec::Pcm16Le)
        } else if n == "pcm24le"@ || n == "pcm_s24le"@ {
            Some(AudioCodec::Pcm24Le)
        } else if n == "pcmf32le"@ || n == "pcm_f32le"@ {
            Some(AudioCodec::PcmF32Le)
        } else {
            None
        }
    }

    /// FFmpeg encoder name for this codec.
    pub fn ffmpeg_encoder(&self) -> (r: &'static str)
        ensures
            r@ == self.encoder_name(),
    {
        match self {
            AudioCodec::Mp3 => "libmp3lame",
            AudioCodec::Aac => "aac",
            AudioCodec::Flac => "flac",
            AudioCodec::Vorbis => "libvorbis",
            AudioCodec::Opus => "libopus",
            AudioCodec::Wav | AudioCodec::Pcm16Le => "pcm_s16le",
            AudioCodec::Pcm24Le => "pcm_s24le",
            AudioCodec::PcmF32Le => "pcm_f32le",
            AudioCodec::Alac => "alac",
            AudioCodec::Wma => "wmav2",
            AudioCodec::Ac3 => "ac3",
        }
    }

    /// FFmpeg decoder name for this codec.
    pub fn ffmpeg_decoder(&self) -> (r: &'static str)
        ensures
            r@ == self.decoder_name(),
    {
        match self {
            AudioCodec::Mp3 => "mp3",
            AudioCodec::Aac => "aac",
            AudioCodec::Flac => "flac",
            AudioCodec::Vorbis => "vorbis",
            AudioCodec::Opus => "opus",
            AudioCodec::Wav | AudioCodec::Pcm16Le => "pcm_s16le",
            AudioCodec::Pcm24Le => "pcm_s24le",
            AudioCodec::PcmF32Le => "pcm_f32le",
            AudioCodec::Alac => "alac",
            AudioCodec::Wma => "wmav2",
            AudioCodec::Ac3 => "ac3",
        }
    }

    /// Human-readable display name.
    pub fn display_name(&self) -> (r: &'static str)
        ensures
            r@ == self.display_text(),
    {
        match self {
            AudioCodec::Mp3 => "MP3",
            AudioCodec::Aac => "AAC",
            AudioCodec::Flac => "FLAC",
            AudioCodec::Vorbis => "Vorbis",
            AudioCodec::Opus => "Opus",
            AudioCodec::Wav => "WAV (PCM 16-bit)",
            AudioCodec::Alac => "ALAC",
            AudioCodec::Wma => "WMA",
            AudioCodec::Ac3 => "AC-3",
            AudioCodec::Pcm16Le => "PCM 16-bit LE",
            AudioCodec::Pcm24Le => "PCM 24-bit LE",
            AudioCodec::PcmF32Le => "PCM Float 32-bit LE",
        }
    }

    /// The variant's name as `{:?}` prints it.
    pub fn debug_name(&self) -> (r: &'static str)
        ensures
            r@ == self.debug_text(),
    {
        match self {
            AudioCodec::Mp3 => "Mp3",
            AudioCodec::Aac => "Aac",
            AudioCodec::Flac => "Flac",
            AudioCodec::Vorbis => "Vorbis",
            AudioCodec::Opus => "Opus",
            AudioCodec::Wav => "Wav",
            AudioCodec::Alac => "Alac",
            AudioCodec::Wma => "Wma",
            AudioCodec::Ac3 => "Ac3",
            AudioCodec::Pcm16Le => "Pcm16Le",
            AudioCodec::Pcm24Le => "Pcm24Le",
            AudioCodec::PcmF32Le => "PcmF32Le",
        }
    }

    /// All known audio codecs.
    pub fn all() -> (r: Vec<AudioCodec>)
        ensures
            r@ == Self::all_spec(),
    {
        let r = vec![
            AudioCodec::Mp3, AudioCodec::Aac, AudioCodec::Flac, AudioCodec::Vorbis,
            AudioCodec::Opus, AudioCodec::Wav, AudioCodec::Alac, AudioCodec::Wma,
            AudioCodec::Ac3, AudioCodec::Pcm16Le, AudioCodec::Pcm24Le, AudioCodec::PcmF32Le,
        ];
        assert(r@ =~= Self::all_spec());
        r
    }

    /// Parse from a string name (case-insensitive, Unicode lowercase).
    pub fn from_name(s: &str) -> (r: Option<AudioCodec>)
        ensures
            r == Self::named(lowered(s@)),
    {
        let n = lowercase_chars(s);
        if eq_str(&n, "mp3") {
            Some(AudioCodec::Mp3)
        } else if eq_str(&n, "aac") || eq_str(&n, "m4a") {
            Some(AudioCodec::Aac)
        } else if eq_str(&n, "flac") {
            Some(AudioCodec::Flac)
        } else if eq_str(&n, "vorbis") || eq_str(&n, "ogg") {
            Some(AudioCodec::Vorbis)
        } else if eq_str(&n, "opus") {
            Some(AudioCodec::Opus)
        } else if eq_str(&n, "wav") || eq_str(&n, "pcm") {
            Some(AudioCodec::Wav)
        } else if eq_str(&n, "alac") {
            Some(AudioCodec::Alac)
        } else if eq_str(&n, "wma") {
            Some(AudioCodec::Wma)
        } else if eq_str(&n, "ac3") {
            Some(AudioCodec::Ac3)
        } else if eq_str(&n, "pcm16le") || eq_str(&n, "pcm_s16le") {
            Some(AudioCodec::Pcm16Le)
        } else if eq_str(&n, "pcm24le") || eq_str(&n, "pcm_s24le") {
            Some(AudioCodec::Pcm24Le)
        } else if eq_str(&n, "pcmf32le") || eq_str(&n, "pcm_f32le") {
            Some(AudioCodec::PcmF32Le)
        } else {
            None
        }
    }
}

/// Supported video codecs.
#[derive(Debug, Clone, Copy, PartialEq, Eq, Structural, Hash)]
pub enum VideoCodec {
    H264,
    H265,
    Vp8,
    Vp9,
    Av1,
    Mpeg4,
    ProRes,
}

impl VideoCodec {
    /// FFmpeg encoder name of each codec.
    pub open spec fn encoder_name(self) -> Seq<char> {
        match self {
            VideoCodec::H264 => "libx264"@,
            VideoCodec::H265 => "libx265"@,
            VideoCodec::Vp8 => "libvpx"@,
            VideoCodec::Vp9 => "libvpx-vp9"@,
            VideoCodec::Av1 => "libaom-av1"@,
            VideoCodec::Mpeg4 => "mpeg4"@,
            VideoCodec::ProRes => "prores_ks"@,
        }
    }

    /// FFmpeg decoder name of each codec.
    pub open spec fn decoder_name(self) -> Seq<char> {
        match self {
            VideoCodec::H264 => "h264"@,
            VideoCodec::H265 => "hevc"@,
            VideoCodec::Vp8 => "vp8"@,
            VideoCodec::Vp9 => "vp9"@,
            VideoCodec::Av1 => "libdav1d"@,
            VideoCodec::Mpeg4 => "mpeg4"@,
            VideoCodec::ProRes => "prores"@,
        }
    }

    /// Human-readable name of each codec.
    pub open spec fn display_text(self) -> Seq<char> {
        match self {
            VideoCodec::H264 => "H.264 / AVC"@,
            VideoCodec::H265 => "H.265 / HEVC"@,
            VideoCodec::Vp8 => "VP8"@,
            VideoCodec::Vp9 => "VP9"@,
            VideoCodec::Av1 => "AV1"@,
            VideoCodec::Mpeg4 => "MPEG-4"@,
            VideoCodec::ProRes => "Apple ProRes"@,
        }
    }

    /// The variant's name as `{:?}` prints it.
    pub open spec fn debug_text(self) -> Seq<char> {
        match self {
            VideoCodec::H264 => "H264"@,
            VideoCodec::H265 => "H265"@,
            VideoCodec::Vp8 => "Vp8"@,
            VideoCodec::Vp9 => "Vp9"@,
            VideoCodec::Av1 => "Av1"@,
            VideoCodec::Mpeg4 => "Mpeg4"@,
            VideoCodec::ProRes => "ProRes"@,
        }
    }

    /// Every video codec, in declaration order.
    pub open spec fn all_spec() -> Seq<VideoCodec> {
        seq![
            VideoCodec::H264, VideoCodec::H265, VideoCodec::Vp8, VideoCodec::Vp9,
            VideoCodec::Av1, VideoCodec::Mpeg4, VideoCodec::ProRes,
        ]
    }

    /// The codec a lowercased name stands for.
    pub open spec fn named(n: Seq<char>) -> Option<VideoCodec> {
        if n == "h264"@ || n == "x264"@ || n == "avc"@ {
            Some(VideoCodec::H264)
        } else if n == "h265"@ || n == "x265"@ || n == "hevc"@ {
            Some(VideoCodec::H265)
        } else if n == "vp8"@ {
            Some(VideoCodec::Vp8)
        } else if n == "vp9"@ {
            Some(VideoCodec::Vp9)
        } else if n == "av1"@ {
            Some(VideoCodec::Av1)
        } else if n == "mpeg4"@ {
            Some(VideoCodec::Mpeg4)
        } else if n == "prores"@ {
            Some(VideoCodec::ProRes)
        } else {
            None
        }
    }

    /// FFmpeg encoder name for this codec.
    pub fn ffmpeg_encoder(&self) -> (r: &'static str)
        ensures
            r@ == self.encoder_name(),
    {
        match self {
            VideoCodec::H264 => "libx264",
            VideoCodec::H265 => "libx265",
            VideoCodec::Vp8 => "libvpx",
            VideoCodec::Vp9 => "libvpx-vp9",
            VideoCodec::Av1 => "libaom-av1",
            VideoCodec::Mpeg4 => "mpeg4",
            VideoCodec::ProRes => "prores_ks",
        }
    }

    /// FFmpeg decoder name for this codec.
    pub fn ffmpeg_decoder(&self) -> (r: &'static str)
        ensures
            r@ == self.decoder_name(),
    {
        match self {
            VideoCodec::H264 => "h264",
            VideoCodec::H265 => "hevc",
            VideoCodec::Vp8 => "vp8",
            VideoCodec::Vp9 => "vp9",
            VideoCodec::Av1 => "libdav1d",
            VideoCodec::Mpeg4 => "mpeg4",
            VideoCodec::ProRes => "prores",
        }
    }

    /// Human-readable display name.
    pub fn display_name(&self) -> (r: &'static str)
        ensures
            r@ == self.display_text(),
    {
        match self {
            VideoCodec::H264 => "H.264 / AVC",
            VideoCodec::H265 => "H.265 / HEVC",
            VideoCodec::Vp8 => "VP8",
            VideoCodec::Vp9 => "VP9",
            VideoCodec::Av1 => "AV1",
            VideoCodec::Mpeg4 => "MPEG-4",
            VideoCodec::ProRes => "Apple ProRes",
        }
    }

    /// The variant's name as `{:?}` prints it.
    pub fn debug_name(&self) -> (r: &'static str)
        ensures
            r@ == self.debug_text(),
    {
        match self {
            VideoCodec::H264 => "H264",
            VideoCodec::H265 => "H265",
            VideoCodec::Vp8 => "Vp8",
            VideoCodec::Vp9 => "Vp9",
            VideoCodec::Av1 => "Av1",
            VideoCodec::Mpeg4 => "Mpeg4",
            VideoCodec::ProRes => "ProRes",
        }
    }

    /// All known video codecs.
    pub fn all() -> (r: Vec<VideoCodec>)
        ensures
            r@ == Self::all_spec(),
    {
        let r = vec![
            VideoCodec::H264, VideoCodec::H265, VideoCodec::Vp8, VideoCodec::Vp9,
            VideoCodec::Av1, VideoCodec::Mpeg4, VideoCodec::ProRes,
        ];
        assert(r@ =~= Self::all_spec());
        r
    }

    /// Parse from a string name (case-insensitive, Unicode lowercase).
    pub fn from_name(s: &str) -> (r: Option<VideoCodec>)
        ensures
            r == Self::named(lowered(s@)),
    {
        let n = lowercase_chars(s);
        if eq_str(&n, "h264") || eq_str(&n, "x264") || eq_str(&n, "avc") {
            Some(VideoCodec::H264)
        } else if eq_str(&n, "h265") || eq_str(&n, "x265") || eq_str(&n, "hevc") {
            Some(VideoCodec::H265)
        } else if eq_str(&n, "vp8") {
            Some(VideoCodec::Vp8)
        } else if eq_str(&n, "vp9") {
            Some(VideoCodec::Vp9)
        } else if eq_str(&n, "av1") {
            Some(VideoCodec::Av1)
        } else if eq_str(&n, "mpeg4") {
            Some(VideoCodec::Mpeg4)
        } else if eq_str(&n, "prores") {
            Some(VideoCodec::ProRes)
        } else {
            None
        }
    }
}


// ───────────────────────── laws ─────────────────────────

/// Every audio codec has an encoder name, and two codecs share one only when they are
/// WAV and 16-bit little-endian PCM, which both write `pcm_s16le`.
pub proof fn lemma_audio_encoders_distinct(a: AudioCodec, b: AudioCodec)
    ensures
        a.encoder_name().len() > 0,
        a.encoder_name() == b.encoder_name() <==> (a == b || (a == AudioCodec::Wav && b
            == AudioCodec::Pcm16Le) || (a == AudioCodec::Pcm16Le && b == AudioCodec::Wav)),
        AudioCodec::Mp3.encoder_name() == "libmp3lame"@,
{
    reveal_strlit("aac");
    reveal_strlit("ac3");
    reveal_strlit("alac");
    reveal_strlit("flac");
    reveal_strlit("libmp3lame");
    reveal_strlit("libopus");
    reveal_strlit("libvorbis");
    reveal_strlit("pcm_f32le");
    reveal_strlit("pcm_s16le");
    reveal_strlit("pcm_s24le");
    reveal_strlit("wmav2");
    assert("aac"@[1] != "ac3"@[1]);
    assert("aac"@.len() != "alac"@.len());
    assert("aac"@.len() != "flac"@.len());
    assert("aac"@.len() != "libmp3lame"@.len());
    assert("aac"@.len() != "libopus"@.len());
    assert("aac"@.len() != "libvorbis"@.len());
    assert("aac"@.len() != "pcm_f32le"@.len());
    assert("aac"@.len() != "pcm_s16le"@.len());
    assert("aac"@.len() != "pcm_s24le"@.len());
    assert("aac"@.len() != "wmav2"@.len());
    assert("ac3"@.len() != "alac"@.len());
    assert("ac3"@.len() != "flac"@.len());
    assert("ac3"@.len() != "libmp3lame"@.len());
    assert("ac3"@.len() != "libopus"@.len());
    assert("ac3"@.len() != "libvorbis"@.len());
    assert("ac3"@.len() != "pcm_f32le"@.len());
    assert("ac3"@.len() != "pcm_s16le"@.len());
    assert("ac3"@.len() != "pcm_s24le"@.len());
    assert("ac3"@.len() != "wmav2"@.len());
    assert("alac"@[0] != "flac"@[0]);
    assert("alac"@.len() != "libmp3lame"@.len());
    assert("alac"@.len() != "libopus"@.len());
    assert("alac"@.len() != "libvorbis"@.len());
    assert("alac"@.len() != "pcm_f32le"@.len());
    assert("alac"@.len() != "pcm_s16le"@.len());
    assert("alac"@.len() != "pcm_s24le"@.len());
    assert("alac"@.len() != "wmav2"@.len());
    assert("flac"@.len() != "libmp3lame"@.len());
    assert("flac"@.len() != "libopus"@.len());
    assert("flac"@.len() != "libvorbis"@.len());
    assert("flac"@.len() != "pcm_f32le"@.len());
    assert("flac"@.len() != "pcm_s16le"@.len());
    assert("flac"@.len() != "pcm_s24le"@.len());
    assert("flac"@.len() != "wmav2"@.len());
    assert("libmp3lame"@.len() != "libopus"@.len());
    assert("libmp3lame"@.len() != "libvorbis"@.len());
    assert("libmp3lame"@.len() != "pcm_f32le"@.len());
    assert("libmp3lame"@.len() != "pcm_s16le"@.len());
    assert("libmp3lame"@.len() != "pcm_s24le"@.len());
    assert("libmp3lame"@.len() != "wmav2"@.len());
    assert("libopus"@.len() != "libvorbis"@.len());
    assert("libopus"@.len() != "pcm_f32le"@.len());
    assert("libopus"@.len() != "pcm_s16le"@.len());
    assert("libopus"@.len() != "pcm_s24le"@.len());
    assert("libopus"@.len() != "wmav2"@.len());
    assert("libvorbis"@[0] != "pcm_f32le"@[0]);
    assert("libvorbis"@[0] != "pcm_s16le"@[0]);
    assert("libvorbis"@[0] != "pcm_s24le"@[0]);
    assert("libvorbis"@.len() != "wmav2"@.len());
    assert("pcm_f32le"@[4] != "pcm_s16le"@[4]);
    assert("pcm_f32le"@[4] != "pcm_s24le"@[4]);
    assert("pcm_f32le"@.len() != "wmav2"@.len());
    assert("pcm_s16le"@[5] != "pcm_s24le"@[5]);
    assert("pcm_s16le"@.len() != "wmav2"@.len());
    assert("pcm_s24le"@.len() != "wmav2"@.len());
}

/// Every video codec has an encoder name of its own.
pub proof fn lemma_video_encoders_distinct(a: VideoCodec, b: VideoCodec)
    ensures
        a.encoder_name().len() > 0,
        a.encoder_name() == b.encoder_name() <==> a == b,
        VideoCodec::H264.encoder_name() == "libx264"@,
        VideoCodec::H265.encoder_name() == "libx265"@,
{
    reveal_strlit("libaom-av1");
    reveal_strlit("libvpx");
    reveal_strlit("libvpx-vp9");
    reveal_strlit("libx264");
    reveal_strlit("libx265");
    reveal_strlit("mpeg4");
    reveal_strlit("prores_ks");
    assert("libaom-av1"@.len() != "libvpx"@.len());
    assert("libaom-av1"@[3] != "libvpx-vp9"@[3]);
    assert("libaom-av1"@.len() != "libx264"@.len());
    assert("libaom-av1"@.len() != "libx265"@.len());
    assert("libaom-av1"@.len() != "mpeg4"@.len());
    assert("libaom-av1"@.len() != "prores_ks"@.len());
    assert("libvpx"@.len() != "libvpx-vp9"@.len());
    assert("libvpx"@.len() != "libx264"@.len());
    assert("libvpx"@.len() != "libx265"@.len());
    assert("libvpx"@.len() != "mpeg4"@.len());
    assert("libvpx"@.len() != "prores_ks"@.len());
    assert("libvpx-vp9"@.len() != "libx264"@.len());
    assert("libvpx-vp9"@.len() != "libx265"@.len());
    assert("libvpx-vp9"@.len() != "mpeg4"@.len());
    assert("libvpx-vp9"@.len() != "prores_ks"@.len());
    assert("libx264"@[6] != "libx265"@[6]);
    assert("libx264"@.len() != "mpeg4"@.len());
    assert("libx264"@.len() != "prores_ks"@.len());
    assert("libx265"@.len() != "mpeg4"@.len());
    assert("libx265"@.len() != "prores_ks"@.len());
    assert("mpeg4"@.len() != "prores_ks"@.len());
}

/// The ffmpeg encoder each video codec is written with: x264 for H.264, x265 for H.265,
/// libvpx for VP8 and libvpx-vp9 for VP9, libaom for AV1, the native MPEG-4 encoder, and
/// prores_ks for ProRes.
pub proof fn lemma_video_encoder_names()
    ensures
        VideoCodec::H264.encoder_name() == "libx264"@,
        VideoCodec::H265.encoder_name() == "libx265"@,
        VideoCodec::Vp8.encoder_name() == "libvpx"@,
        VideoCodec::Vp9.encoder_name() == "libvpx-vp9"@,
        VideoCodec::Av1.encoder_name() == "libaom-av1"@,
        VideoCodec::Mpeg4.encoder_name() == "mpeg4"@,
        VideoCodec::ProRes.encoder_name() == "prores_ks"@,
{
}

/// The ffmpeg encoder each audio codec is written with.
pub proof fn lemma_audio_encoder_names()
    ensures
        AudioCodec::Mp3.encoder_name() == "libmp3lame"@,
        AudioCodec::Aac.encoder_name() == "aac"@,
        AudioCodec::Flac.encoder_name() == "flac"@,
        AudioCodec::Vorbis.encoder_name() == "libvorbis"@,
        AudioCodec::Opus.encoder_name() == "libopus"@,
        AudioCodec::Wav.encoder_name() == "pcm_s16le"@,
        AudioCodec::Pcm16Le.encoder_name() == "pcm_s16le"@,
        AudioCodec::Pcm24Le.encoder_name() == "pcm_s24le"@,
        AudioCodec::PcmF32Le.encoder_name() == "pcm_f32le"@,
        AudioCodec::Alac.encoder_name() == "alac"@,
        AudioCodec::Wma.encoder_name() == "wmav2"@,
        AudioCodec::Ac3.encoder_name() == "ac3"@,
{
}

/// Every audio codec's name, in any case, parses back to that codec.
pub proof fn lemma_audio_debug_names_parse(c: AudioCodec)
    ensures
        AudioCodec::named(lowered(c.debug_text())) == Some(c),
{
    reveal_strlit("mp3");
    reveal_strlit("aac");
    reveal_strlit("m4a");
    reveal_strlit("flac");
    reveal_strlit("vorbis");
    reveal_strlit("ogg");
    reveal_strlit("opus");
    reveal_strlit("wav");
    reveal_strlit("pcm");
    reveal_strlit("alac");
    reveal_strlit("wma");
    reveal_strlit("ac3");
    reveal_strlit("pcm16le");
    reveal_strlit("pcm_s16le");
    reveal_strlit("pcm24le");
    reveal_strlit("pcm_s24le");
    reveal_strlit("pcmf32le");
    reveal_strlit("pcm_f32le");
    {
        assert("mp3"@[0] != "aac"@[0]);
        assert("mp3"@[1] != "m4a"@[1]);
        assert("mp3"@.len() != "flac"@.len());
        assert("mp3"@.len() != "vorbis"@.len());
        assert("mp3"@[0] != "ogg"@[0]);
        assert("mp3"@.len() != "opus"@.len());
        assert("mp3"@[0] != "wav"@[0]);
        assert("mp3"@[0] != "pcm"@[0]);
        assert("mp3"@.len() != "alac"@.len());
        assert("mp3"@[0] != "wma"@[0]);
        assert("mp3"@[0] != "ac3"@[0]);
        assert("mp3"@.len() != "pcm16le"@.len());
        assert("mp3"@.len() != "pcm_s16le"@.len());
        assert("mp3"@.len() != "pcm24le"@.len());
        assert("mp3"@.len() != "pcm_s24le"@.len());
        assert("mp3"@.len() != "pcmf32le"@.len());
        assert("mp3"@.len() != "pcm_f32le"@.len());
        assert("aac"@[0] != "m4a"@[0]);
        assert("aac"@.len() != "flac"@.len());
        assert("aac"@.len() != "vorbis"@.len());
        assert("aac"@[0] != "ogg"@[0]);
        assert("aac"@.len() != "opus"@.len());
        assert("aac"@[0] != "wav"@[0]);
        assert("aac"@[0] != "pcm"@[0]);
        assert("aac"@.len() != "alac"@.len());
        assert("aac"@[0] != "wma"@[0]);
        assert("aac"@[1] != "ac3"@[1]);
        assert("aac"@.len() != "pcm16le"@.len());
        assert("aac"@.len() != "pcm_s16le"@.len());
        assert("aac"@.len() != "pcm24le"@.len());
        assert("aac"@.len() != "pcm_s24le"@.len());
        assert("aac"@.len() != "pcmf32le"@.len());
        assert("aac"@.len() != "pcm_f32le"@.len());
        assert("m4a"@.len() != "flac"@.len());
        assert("m4a"@.len() != "vorbis"@.len());
        assert("m4a"@[0] != "ogg"@[0]);
        assert("m4a"@.len() != "opus"@.len());
        assert("m4a"@[0] != "wav"@[0]);
        assert("m4a"@[0] != "pcm"@[0]);
        assert("m4a"@.len() != "alac"@.len());
        assert("m4a"@[0] != "wma"@[0]);
        assert("m4a"@[0] != "ac3"@[0]);
        assert("m4a"@.len() != "pcm16le"@.len());
        assert("m4a"@.len() != "pcm_s16le"@.len());
        assert("m4a"@.len() != "pcm24le"@.len());
        assert("m4a"@.len() != "pcm_s24le"@.len());
        assert("m4a"@.len() != "pcmf32le"@.len());
        assert("m4a"@.len() != "pcm_f32le"@.len());
        assert("flac"@.len() != "vorbis"@.len());
        assert("flac"@.len() != "ogg"@.len());
        assert("flac"@[0] != "opus"@[0]);
        assert("flac"@.len() != "wav"@.len());
        assert("flac"@.len() != "pcm"@.len());
        assert("flac"@[0] != "alac"@[0]);
        assert("flac"@.len() != "wma"@.len());
        assert("flac"@.len() != "ac3"@.len());
        assert("flac"@.len() != "pcm16le"@.len());
        assert("flac"@.len() != "pcm_s16le"@.len());
        assert("flac"@.len() != "pcm24le"@.len());
        assert("flac"@.len() != "pcm_s24le"@.len());
        assert("flac"@.len() != "pcmf32le"@.len());
        assert("flac"@.len() != "pcm_f32le"@.len());
        assert("vorbis"@.len() != "ogg"@.len());
        assert("vorbis"@.len() != "opus"@.len());
        assert("vorbis"@.len() != "wav"@.len());
        assert("vorbis"@.len() != "pcm"@.len());
        assert("vorbis"@.len() != "alac"@.len());
        assert("vorbis"@.len() != "wma"@.len());
        assert("vorbis"@.len() != "ac3"@.len());
        assert("vorbis"@.len() != "pcm16le"@.len());
        assert("vorbis"@.len() != "pcm_s16le"@.len());
        assert("vorbis"@.len() != "pcm24le"@.len());
        assert("vorbis"@.len() != "pcm_s24le"@.len());
        assert("vorbis"@.len() != "pcmf32le"@.len());
        assert("vorbis"@.len() != "pcm_f32le"@.len());
        assert("ogg"@.len() != "opus"@.len());
        assert("ogg"@[0] != "wav"@[0]);
        assert("ogg"@[0] != "pcm"@[0]);
        assert("ogg"@.len() != "alac"@.len());
        assert("ogg"@[0] != "wma"@[0]);
        assert("ogg"@[0] != "ac3"@[0]);
        assert("ogg"@.len() != "pcm16le"@.len());
        assert("ogg"@.len() != "pcm_s16le"@.len());
        assert("ogg"@.len() != "pcm24le"@.len());
        assert("ogg"@.len() != "pcm_s24le"@.len());
        assert("ogg"@.len() != "pcmf32le"@.len());
        assert("ogg"@.len() != "pcm_f32le"@.len());
        assert("opus"@.len() != "wav"@.len());
        assert("opus"@.len() != "pcm"@.len());
        assert("opus"@[0] != "alac"@[0]);
        assert("opus"@.len() != "wma"@.len());
        assert("opus"@.len() != "ac3"@.len());
        assert("opus"@.len() != "pcm16le"@.len());
        assert("opus"@.len() != "pcm_s16le"@.len());
        assert("opus"@.len() != "pcm24le"@.len());
        assert("opus"@.len() != "pcm_s24le"@.len());
        assert("opus"@.len() != "pcmf32le"@.len());
        assert("opus"@.len() != "pcm_f32le"@.len());
        assert("wav"@[0] != "pcm"@[0]);
        assert("wav"@.len() != "alac"@.len());
        assert("wav"@[1] != "wma"@[1]);
        assert("wav"@[0] != "ac3"@[0]);
        assert("wav"@.len() != "pcm16le"@.len());
        assert("wav"@.len() != "pcm_s16le"@.len());
        assert("wav"@.len() != "pcm24le"@.len());
        assert("wav"@.len() != "pcm_s24le"@.len());
        assert("wav"@.len() != "pcmf32le"@.len());
        assert("wav"@.len() != "pcm_f32le"@.len());
        assert("pcm"@.len() != "alac"@.len());
        assert("pcm"@[0] != "wma"@[0]);
        assert("pcm"@[0] != "ac3"@[0]);
        assert("pcm"@.len() != "pcm16le"@.len());
        assert("pcm"@.len() != "pcm_s16le"@.len());
        assert("pcm"@.len() != "pcm24le"@.len());
        assert("pcm"@.len() != "pcm_s24le"@.len());
        assert("pcm"@.len() != "pcmf32le"@.len());
        assert("pcm"@.len() != "pcm_f32le"@.len());
        assert("alac"@.len() != "wma"@.len());
        assert("alac"@.len() != "ac3"@.len());
        assert("alac"@.len() != "pcm16le"@.len());
        assert("alac"@.len() != "pcm_s16le"@.len());
        assert("alac"@.len() != "pcm24le"@.len());
        assert("alac"@.len() != "pcm_s24le"@.len());
        assert("alac"@.len() != "pcmf32le"@.len());
        assert("alac"@.len() != "pcm_f32le"@.len());
        assert("wma"@[0] != "ac3"@[0]);
        assert("wma"@.len() != "pcm16le"@.len());
        assert("wma"@.len() != "pcm_s16le"@.len());
        assert("wma"@.len() != "pcm24le"@.len());
        assert("wma"@.len() != "pcm_s24le"@.len());
        assert("wma"@.len() != "pcmf32le"@.len());
        assert("wma"@.len() != "pcm_f32le"@.len());
        assert("ac3"@.len() != "pcm16le"@.len());
        assert("ac3"@.len() != "pcm_s16le"@.len());
        assert("ac3"@.len() != "pcm24le"@.len());
        assert("ac3"@.len() != "pcm_s24le"@.len());
        assert("ac3"@.len() != "pcmf32le"@.len());
        assert("ac3"@.len() != "pcm_f32le"@.len());
        assert("pcm16le"@.len() != "pcm_s16le"@.len());
        assert("pcm16le"@[3] != "pcm24le"@[3]);
        assert("pcm16le"@.len() != "pcm_s24le"@.len());
        assert("pcm16le"@.len() != "pcmf32le"@.len());
        assert("pcm16le"@.len() != "pcm_f32le"@.len());
        assert("pcm_s16le"@.len() != "pcm24le"@.len());
        assert("pcm_s16le"@[5] != "pcm_s24le"@[5]);
        assert("pcm_s16le"@.len() != "pcmf32le"@.len());
        assert("pcm_s16le"@[4] != "pcm_f32le"@[4]);
        assert("pcm24le"@.len() != "pcm_s24le"@.len());
        assert("pcm24le"@.len() != "pcmf32le"@.len());
        assert("pcm24le"@.len() != "pcm_f32le"@.len());
        assert("pcm_s24le"@.len() != "pcmf32le"@.len());
        assert("pcm_s24le"@[4] != "pcm_f32le"@[4]);
        assert("pcmf32le"@.len() != "pcm_f32le"@.len());
    }
    match c {
        AudioCodec::Mp3 => {
            reveal_strlit("Mp3");
            assert(all_ascii("Mp3"@));
            assert(ascii_lower("Mp3"@) =~= "mp3"@);
        },
        AudioCodec::Aac => {
            reveal_strlit("Aac");
            assert(all_ascii("Aac"@));
            assert(ascii_lower("Aac"@) =~= "aac"@);
        },
        AudioCodec::Flac => {
            reveal_strlit("Flac");
            assert(all_ascii("Flac"@));
            assert(ascii_lower("Flac"@) =~= "flac"@);
        },
        AudioCodec::Vorbis => {
            reveal_strlit("Vorbis");
            assert(all_ascii("Vorbis"@));
            assert(ascii_lower("Vorbis"@) =~= "vorbis"@);
        },
        AudioCodec::Opus => {
            reveal_strlit("Opus");
            assert(all_ascii("Opus"@));
            assert(ascii_lower("Opus"@) =~= "opus"@);
        },
        AudioCodec::Wav => {
            reveal_strlit("Wav");
            assert(all_ascii("Wav"@));
            assert(ascii_lower("Wav"@) =~= "wav"@);
        },
        AudioCodec::Alac => {
            reveal_strlit("Alac");
            assert(all_ascii("Alac"@));
            assert(ascii_lower("Alac"@) =~= "alac"@);
        },
        AudioCodec::Wma => {
            reveal_strlit("Wma");
            assert(all_ascii("Wma"@));
            assert(ascii_lower("Wma"@) =~= "wma"@);
        },
        AudioCodec::Ac3 => {
            reveal_strlit("Ac3");
            assert(all_ascii("Ac3"@));
            assert(ascii_lower("Ac3"@) =~= "ac3"@);
        },
        AudioCodec::Pcm16Le => {
            reveal_strlit("Pcm16Le");
            assert(all_ascii("Pcm16Le"@));
            assert(ascii_lower("Pcm16Le"@) =~= "pcm16le"@);
        },
        AudioCodec::Pcm24Le => {
            reveal_strlit("Pcm24Le");
            assert(all_ascii("Pcm24Le"@));
            assert(ascii_lower("Pcm24Le"@) =~= "pcm24le"@);
        },
        AudioCodec::PcmF32Le => {
            reveal_strlit("PcmF32Le");
            assert(all_ascii("PcmF32Le"@));
            assert(ascii_lower("PcmF32Le"@) =~= "pcmf32le"@);
        },
    }
}

/// Every video codec's name, in any case, parses back to that codec.
pub proof fn lemma_video_debug_names_parse(c: VideoCodec)
    ensures
        VideoCodec::named(lowered(c.debug_text())) == Some(c),
{
    reveal_strlit("h264");
    reveal_strlit("x264");
    reveal_strlit("avc");
    reveal_strlit("h265");
    reveal_strlit("x265");
    reveal_strlit("hevc");
    reveal_strlit("vp8");
    reveal_strlit("vp9");
    reveal_strlit("av1");
    reveal_strlit("mpeg4");
    reveal_strlit("prores");
    {
        assert("h264"@[0] != "x264"@[0]);
        assert("h264"@.len() != "avc"@.len());
        assert("h264"@[3] != "h265"@[3]);
        assert("h264"@[0] != "x265"@[0]);
        assert("h264"@[1] != "hevc"@[1]);
        assert("h264"@.len() != "vp8"@.len());
        assert("h264"@.len() != "vp9"@.len());
        assert("h264"@.len() != "av1"@.len());
        assert("h264"@.len() != "mpeg4"@.len());
        assert("h264"@.len() != "prores"@.len());
        assert("x264"@.len() != "avc"@.len());
        assert("x264"@[0] != "h265"@[0]);
        assert("x264"@[3] != "x265"@[3]);
        assert("x264"@[0] != "hevc"@[0]);
        assert("x264"@.len() != "vp8"@.len());
        assert("x264"@.len() != "vp9"@.len());
        assert("x264"@.len() != "av1"@.len());
        assert("x264"@.len() != "mpeg4"@.len());
        assert("x264"@.len() != "prores"@.len());
        assert("avc"@.len() != "h265"@.len());
        assert("avc"@.len() != "x265"@.len());
        assert("avc"@.len() != "hevc"@.len());
        assert("avc"@[0] != "vp8"@[0]);
        assert("avc"@[0] != "vp9"@[0]);
        assert("avc"@[2] != "av1"@[2]);
        assert("avc"@.len() != "mpeg4"@.len());
        assert("avc"@.len() != "prores"@.len());
        assert("h265"@[0] != "x265"@[0]);
        assert("h265"@[1] != "hevc"@[1]);
        assert("h265"@.len() != "vp8"@.len());
        assert("h265"@.len() != "vp9"@.len());
        assert("h265"@.len() != "av1"@.len());
        assert("h265"@.len() != "mpeg4"@.len());
        assert("h265"@.len() != "prores"@.len());
        assert("x265"@[0] != "hevc"@[0]);
        assert("x265"@.len() != "vp8"@.len());
        assert("x265"@.len() != "vp9"@.len());
        assert("x265"@.len() != "av1"@.len());
        assert("x265"@.len() != "mpeg4"@.len());
        assert("x265"@.len() != "prores"@.len());
        assert("hevc"@.len() != "vp8"@.len());
        assert("hevc"@.len() != "vp9"@.len());
        assert("hevc"@.len() != "av1"@.len());
        assert("hevc"@.len() != "mpeg4"@.len());
        assert("hevc"@.len() != "prores"@.len());
        assert("vp8"@[2] != "vp9"@[2]);
        assert("vp8"@[0] != "av1"@[0]);
        assert("vp8"@.len() != "mpeg4"@.len());
        assert("vp8"@.len() != "prores"@.len());
        assert("vp9"@[0] != "av1"@[0]);
        assert("vp9"@.len() != "mpeg4"@.len());
        assert("vp9"@.len() != "prores"@.len());
        assert("av1"@.len() != "mpeg4"@.len());
        assert("av1"@.len() != "prores"@.len());
        assert("mpeg4"@.len() != "prores"@.len());
    }
    match c {
        VideoCodec::H264 => {
            reveal_strlit("H264");
            assert(all_ascii("H264"@));
            assert(ascii_lower("H264"@) =~= "h264"@);
        },
        VideoCodec::H265 => {
            reveal_strlit("H265");
            assert(all_ascii("H265"@));
            assert(ascii_lower("H265"@) =~= "h265"@);
        },
        VideoCodec::Vp8 => {
            reveal_strlit("Vp8");
            assert(all_ascii("Vp8"@));
            assert(ascii_lower("Vp8"@) =~= "vp8"@);
        },
        VideoCodec::Vp9 => {
            reveal_strlit("Vp9");
            assert(all_ascii("Vp9"@));
            assert(ascii_lower("Vp9"@) =~= "vp9"@);
        },
        VideoCodec::Av1 => {
            reveal_strlit("Av1");
            assert(all_ascii("Av1"@));
            assert(ascii_lower("Av1"@) =~= "av1"@);
        },
        VideoCodec::Mpeg4 => {
            reveal_strlit("Mpeg4");
            assert(all_ascii("Mpeg4"@));
            assert(ascii_lower("Mpeg4"@) =~= "mpeg4"@);
        },
        VideoCodec::ProRes => {
            reveal_strlit("ProRes");
            assert(all_ascii("ProRes"@));
            assert(ascii_lower("ProRes"@) =~= "prores"@);
        },
    }
}

/// Every audio codec has a display name of its own.
pub proof fn lemma_audio_display_names_distinct(a: AudioCodec, b: AudioCodec)
    ensures
        a.display_text().len() > 0,
        a.display_text() == b.display_text() <==> a == b,
{
    reveal_strlit("AAC");
    reveal_strlit("AC-3");
    reveal_strlit("ALAC");
    reveal_strlit("FLAC");
    reveal_strlit("MP3");
    reveal_strlit("Opus");
    reveal_strlit("PCM 16-bit LE");
    reveal_strlit("PCM 24-bit LE");
    reveal_strlit("PCM Float 32-bit LE");
    reveal_strlit("Vorbis");
    reveal_strlit("WAV (PCM 16-bit)");
    reveal_strlit("WMA");
    assert("AAC"@.len() != "AC-3"@.len());
    assert("AAC"@.len() != "ALAC"@.len());
    assert("AAC"@.len() != "FLAC"@.len());
    assert("AAC"@[0] != "MP3"@[0]);
    assert("AAC"@.len() != "Opus"@.len());
    assert("AAC"@.len() != "PCM 16-bit LE"@.len());
    assert("AAC"@.len() != "PCM 24-bit LE"@.len());
    assert("AAC"@.len() != "PCM Float 32-bit LE"@.len());
    assert("AAC"@.len() != "Vorbis"@.len());
    assert("AAC"@.len() != "WAV (PCM 16-bit)"@.len());
    assert("AAC"@[0] != "WMA"@[0]);
    assert("AC-3"@[1] != "ALAC"@[1]);
    assert("AC-3"@[0] != "FLAC"@[0]);
    assert("AC-3"@.len() != "MP3"@.len());
    assert("AC-3"@[0] != "Opus"@[0]);
    assert("AC-3"@.len() != "PCM 16-bit LE"@.len());
    assert("AC-3"@.len() != "PCM 24-bit LE"@.len());
    assert("AC-3"@.len() != "PCM Float 32-bit LE"@.len());
    assert("AC-3"@.len() != "Vorbis"@.len());
    assert("AC-3"@.len() != "WAV (PCM 16-bit)"@.len());
    assert("AC-3"@.len() != "WMA"@.len());
    assert("ALAC"@[0] != "FLAC"@[0]);
    assert("ALAC"@.len() != "MP3"@.len());
    assert("ALAC"@[0] != "Opus"@[0]);
    assert("ALAC"@.len() != "PCM 16-bit LE"@.len());
    assert("ALAC"@.len() != "PCM 24-bit LE"@.len());
    assert("ALAC"@.len() != "PCM Float 32-bit LE"@.len());
    assert("ALAC"@.len() != "Vorbis"@.len());
    assert("ALAC"@.len() != "WAV (PCM 16-bit)"@.len());
    assert("ALAC"@.len() != "WMA"@.len());
    assert("FLAC"@.len() != "MP3"@.len());
    assert("FLAC"@[0] != "Opus"@[0]);
    assert("FLAC"@.len() != "PCM 16-bit LE"@.len());
    assert("FLAC"@.len() != "PCM 24-bit LE"@.len());
    assert("FLAC"@.len() != "PCM Float 32-bit LE"@.len());
    assert("FLAC"@.len() != "Vorbis"@.len());
    assert("FLAC"@.len() != "WAV (PCM 16-bit)"@.len());
    assert("FLAC"@.len() != "WMA"@.len());
    assert("MP3"@.len() != "Opus"@.len());
    assert("MP3"@.len() != "PCM 16-bit LE"@.len());
    assert("MP3"@.len() != "PCM 24-bit LE"@.len());
    assert("MP3"@.len() != "PCM Float 32-bit LE"@.len());
    assert("MP3"@.len() != "Vorbis"@.len());
    assert("MP3"@.len() != "WAV (PCM 16-bit)"@.len());
    assert("MP3"@[0] != "WMA"@[0]);
    assert("Opus"@.len() != "PCM 16-bit LE"@.len());
    assert("Opus"@.len() != "PCM 24-bit LE"@.len());
    assert("Opus"@.len() != "PCM Float 32-bit LE"@.len());
    assert("Opus"@.len() != "Vorbis"@.len());
    assert("Opus"@.len() != "WAV (PCM 16-bit)"@.len());
    assert("Opus"@.len() != "WMA"@.len());
    assert("PCM 16-bit LE"@[4] != "PCM 24-bit LE"@[4]);
    assert("PCM 16-bit LE"@.len() != "PCM Float 32-bit LE"@.len());
    assert("PCM 16-bit LE"@.len() != "Vorbis"@.len());
    assert("PCM 16-bit LE"@.len() != "WAV (PCM 16-bit)"@.len());
    assert("PCM 16-bit LE"@.len() != "WMA"@.len());
    assert("PCM 24-bit LE"@.len() != "PCM Float 32-bit LE"@.len());
    assert("PCM 24-bit LE"@.len() != "Vorbis"@.len());
    assert("PCM 24-bit LE"@.len() != "WAV (PCM 16-bit)"@.len());
    assert("PCM 24-bit LE"@.len() != "WMA"@.len());
    assert("PCM Float 32-bit LE"@.len() != "Vorbis"@.len());
    assert("PCM Float 32-bit LE"@.len() != "WAV (PCM 16-bit)"@.len());
    assert("PCM Float 32-bit LE"@.len() != "WMA"@.len());
    assert("Vorbis"@.len() != "WAV (PCM 16-bit)"@.len());
    assert("Vorbis"@.len() != "WMA"@.len());
    assert("WAV (PCM 16-bit)"@.len() != "WMA"@.len());
}

} // verus!
