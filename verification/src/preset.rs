//! Built-in conversion presets for common use cases.

use vstd::prelude::*;
use crate::codec::{AudioCodec, VideoCodec};
use crate::container::Container;
use crate::format::{
    audio_only_view, both_streams_view, extract_audio_view, AudioSettings, MediaFormat,
    MediaFormatView, VideoSettings, VideoSettingsView,
};
use crate::text::{ascii_lower, chars_of, decimal, eq_chars, to_ascii_lowercase};

verus! {

/// Category for grouping presets in UIs.
#[derive(Debug, Clone, Copy, PartialEq, Eq, Structural)]
pub enum PresetCategory {
    Audio,
    Video,
    Extract,
}

/// A named, pre-configured conversion preset.
#[derive(Debug, Clone)]
pub struct Preset {
    /// Machine-readable identifier (e.g. "podcast-mp3").
    pub name: &'static str,
    /// Human-readable description.
    pub description: &'static str,
    /// Category for grouping in UIs.
    pub category: PresetCategory,
    /// The output format this preset produces.
    pub format: MediaFormat,
}

/// The value of a [`Preset`], its strings taken as text.
pub struct PresetView {
    pub name: Seq<char>,
    pub description: Seq<char>,
    pub category: PresetCategory,
    pub format: MediaFormatView,
}

impl View for Preset {
    type V = PresetView;

    open spec fn view(&self) -> PresetView {
        PresetView {
            name: self.name@,
            description: self.description@,
            category: self.category,
            format: self.format@,
        }
    }
}

/// Number of built-in presets.
pub const PRESET_COUNT: usize = 14;

/// An audio preset: re-encode the audio, strip the video.
pub open spec fn audio_preset(
    name: Seq<char>,
    description: Seq<char>,
    container: Container,
    audio: AudioSettings,
) -> PresetView {
    PresetView {
        name,
        description,
        category: PresetCategory::Audio,
        format: audio_only_view(container, audio),
    }
}

/// A video preset that re-encodes both streams.
pub open spec fn video_preset(
    name: Seq<char>,
    description: Seq<char>,
    container: Container,
    video: VideoSettingsView,
    audio: AudioSettings,
) -> PresetView {
    PresetView {
        name,
        description,
        category: PresetCategory::Video,
        format: both_streams_view(container, video, audio),
    }
}

/// Audio settings with every field given.
pub open spec fn audio_of(
    codec: AudioCodec,
    bitrate: Option<u32>,
    sample_rate: Option<u32>,
    channels: Option<u16>,
) -> AudioSettings {
    AudioSettings { codec, bitrate, sample_rate, channels }
}

/// Video settings of a codec with an optional CRF and size, the rest left unset.
pub open spec fn video_of(
    codec: VideoCodec,
    crf: Option<u8>,
    width: Option<u32>,
    height: Option<u32>,
) -> VideoSettingsView {
    VideoSettingsView {
        codec,
        crf,
        width,
        height,
        fps: None,
        encoder_preset: None,
        pixel_format: None,
    }
}

/// The built-in presets, in order.
pub open spec fn preset_table() -> Seq<PresetView> {
    seq![
        audio_preset(
            "podcast-mp3"@,
            "Podcast-ready MP3: 128 kbps, 44.1 kHz, mono"@,
            Container::Mp3,
            audio_of(AudioCodec::Mp3, Some(128_000), Some(44100), Some(1)),
        ),
        audio_preset(
            "audiobook-m4b"@,
            "Audiobook M4B: AAC 64 kbps, 44.1 kHz, mono"@,
            Container::M4b,
            audio_of(AudioCodec::Aac, Some(64_000), Some(44100), Some(1)),
        ),
        audio_preset(
            "hq-flac"@,
            "High-quality lossless FLAC: 48 kHz, stereo"@,
            Container::Flac,
            audio_of(AudioCodec::Flac, None, Some(48000), Some(2)),
        ),
        audio_preset(
            "opus-voice"@,
            "Opus voice: 32 kbps, 48 kHz, mono"@,
            Container::Ogg,
            audio_of(AudioCodec::Opus, Some(32_000), Some(48000), Some(1)),
        ),
        audio_preset(
            "cd-wav"@,
            "CD-quality WAV: PCM 16-bit, 44.1 kHz, stereo"@,
            Container::Wav,
            audio_of(AudioCodec::Pcm16Le, None, Some(44100), Some(2)),
        ),
        video_preset(
            "web-mp4"@,
            "Web-optimized MP4: H.264 CRF 23, AAC 128 kbps"@,
            Container::Mp4,
            video_of(VideoCodec::H264, Some(23), None, None),
            audio_of(AudioCodec::Aac, Some(128_000), None, None),
        ),
        video_preset(
            "hq-h265"@,
            "High-quality H.265/MKV: CRF 20, Opus 192 kbps"@,
            Container::Mkv,
            video_of(VideoCodec::H265, Some(20), None, None),
            audio_of(AudioCodec::Opus, Some(192_000), None, None),
        ),
        video_preset(
            "social-720p"@,
            "Social media 720p: H.264 CRF 23, AAC 128 kbps"@,
            Container::Mp4,
            video_of(VideoCodec::H264, Some(23), Some(1280), Some(720)),
            audio_of(AudioCodec::Aac, Some(128_000), None, None),
        ),
        video_preset(
            "4k-h265"@,
            "4K H.265: 3840x2160 CRF 18, Opus 256 kbps"@,
            Container::Mkv,
            video_of(VideoCodec::H265, Some(18), Some(3840), Some(2160)),
            audio_of(AudioCodec::Opus, Some(256_000), None, None),
        ),
        video_preset(
            "webm-vp9"@,
            "WebM VP9: CRF 30, Opus 128 kbps"@,
            Container::WebM,
            video_of(VideoCodec::Vp9, Some(30), None, None),
            audio_of(AudioCodec::Opus, Some(128_000), None, None),
        ),
        PresetView {
            name: "gif"@,
            description: "Animated GIF: 480px wide, 15 fps"@,
            category: PresetCategory::Video,
            format: MediaFormatView {
                container: Container::Gif,
                audio: None,
                video: Some(
                    VideoSettingsView {
                        fps: Some(15_000_000),
                        ..video_of(VideoCodec::H264, None, Some(480), None)
                    },
                ),
                copy_audio: false,
                copy_video: false,
                no_audio: true,
                no_video: false,
            },
        },
        video_preset(
            "prores-edit"@,
            "Apple ProRes 422 for editing: PCM audio, MOV"@,
            Container::Mov,
            video_of(VideoCodec::ProRes, None, None, None),
            audio_of(AudioCodec::Pcm16Le, None, None, None),
        ),
        PresetView {
            name: "thumbnail"@,
            description: "Extract JPEG thumbnail at first frame"@,
            category: PresetCategory::Extract,
            format: MediaFormatView {
                container: Container::Mp4,
                audio: None,
                video: None,
                copy_audio: false,
                copy_video: false,
                no_audio: true,
                no_video: false,
            },
        },
        PresetView {
            name: "extract-audio"@,
            description: "Extract audio track (copy codec, strip video)"@,
            category: PresetCategory::Extract,
            format: extract_audio_view(Container::M4a),
        },
    ]
}

// ───────────────────────── descriptions ─────────────────────────

/// Whether `t` occurs in `s`.
pub open spec fn mentions(s: Seq<char>, t: Seq<char>) -> bool {
    exists|i: int| 0 <= i <= s.len() - t.len() && #[trigger] s.skip(i).take(t.len() as int) == t
}

proof fn lemma_mentions_at(s: Seq<char>, t: Seq<char>, i: int)
    requires
        0 <= i <= s.len() - t.len(),
        s.subrange(i, i + t.len()) == t,
    ensures
        mentions(s, t),
{
    assert(s.skip(i).take(t.len() as int) =~= s.subrange(i, i + t.len()));
}

/// A sample rate in kHz as descriptions write it: `48`, or `44.1` with one decimal place.
pub open spec fn khz_text(rate: nat) -> Seq<char> {
    if rate % 1000 == 0 {
        decimal(rate / 1000)
    } else {
        decimal(rate / 1000) + "."@ + decimal((rate % 1000) / 100)
    }
}

/// Whether a preset's description states its settings' numbers: the video CRF (`CRF n`),
/// the frame size (`WxH`, or `Hp`, or `Wpx` for a width alone), the frame rate (`n fps`),
/// the audio bitrate (`n kbps`), the sample rate (`n kHz`) and one or two channels
/// (`mono`, `stereo`).
pub open spec fn describes_numbers(p: PresetView) -> bool {
    let d = p.description;
    &&& match p.format.video {
        Some(v) => {
            &&& (v.crf matches Some(c) ==> mentions(d, "CRF "@ + decimal(c as nat)))
            &&& match (v.width, v.height) {
                (Some(w), Some(h)) => mentions(d, decimal(w as nat) + "x"@ + decimal(h as nat))
                    || mentions(d, decimal(h as nat) + "p"@),
                (Some(w), None) => mentions(d, decimal(w as nat) + "px"@),
                _ => true,
            }
            &&& (v.fps matches Some(f) ==> mentions(d, decimal((f / 1_000_000) as nat) + " fps"@))
        },
        None => true,
    }
    &&& match p.format.audio {
        Some(a) => {
            &&& (a.bitrate matches Some(b) ==> mentions(d, decimal((b / 1000) as nat) + " kbps"@))
            &&& (a.sample_rate matches Some(r) ==> mentions(d, khz_text(r as nat) + " kHz"@))
            &&& (a.channels == Some(1u16) ==> mentions(d, "mono"@))
            &&& (a.channels == Some(2u16) ==> mentions(d, "stereo"@))
        },
        None => true,
    }
}

proof fn lemma_preset_0_numbers()
    ensures
        describes_numbers(preset_table()[0]),
{
    reveal_strlit("Podcast-ready MP3: 128 kbps, 44.1 kHz, mono");
    reveal_strlit("mono");
    reveal_strlit("44.1 kHz");
    reveal_strlit("128 kbps");
    reveal_strlit(" kbps");
    reveal_strlit(" kHz");
    reveal_with_fuel(decimal, 5);
    reveal_strlit(".");
    let d = "Podcast-ready MP3: 128 kbps, 44.1 kHz, mono"@;
    assert(preset_table()[0].description == d);
    reveal_strlit("128 kbps");
    assert(decimal(128nat) + " kbps"@ =~= "128 kbps"@);
    assert(d.subrange(19, 27) =~= "128 kbps"@);
    lemma_mentions_at(d, "128 kbps"@, 19);
    reveal_strlit("44.1 kHz");
    assert(khz_text(44100nat) + " kHz"@ =~= "44.1 kHz"@);
    assert(d.subrange(29, 37) =~= "44.1 kHz"@);
    lemma_mentions_at(d, "44.1 kHz"@, 29);
    reveal_strlit("mono");
    assert("mono"@ =~= "mono"@);
    assert(d.subrange(39, 43) =~= "mono"@);
    lemma_mentions_at(d, "mono"@, 39);
}

proof fn lemma_preset_1_numbers()
    ensures
        describes_numbers(preset_table()[1]),
{
    reveal_strlit("Audiobook M4B: AAC 64 kbps, 44.1 kHz, mono");
    reveal_strlit("mono");
    reveal_strlit("64 kbps");
    reveal_strlit("44.1 kHz");
    reveal_strlit(" kbps");
    reveal_strlit(" kHz");
    reveal_with_fuel(decimal, 5);
    reveal_strlit(".");
    let d = "Audiobook M4B: AAC 64 kbps, 44.1 kHz, mono"@;
    assert(preset_table()[1].description == d);
    reveal_strlit("64 kbps");
    assert(decimal(64nat) + " kbps"@ =~= "64 kbps"@);
    assert(d.subrange(19, 26) =~= "64 kbps"@);
    lemma_mentions_at(d, "64 kbps"@, 19);
    reveal_strlit("44.1 kHz");
    assert(khz_text(44100nat) + " kHz"@ =~= "44.1 kHz"@);
    assert(d.subrange(28, 36) =~= "44.1 kHz"@);
    lemma_mentions_at(d, "44.1 kHz"@, 28);
    reveal_strlit("mono");
    assert("mono"@ =~= "mono"@);
    assert(d.subrange(38, 42) =~= "mono"@);
    lemma_mentions_at(d, "mono"@, 38);
}

proof fn lemma_preset_2_numbers()
    ensures
        describes_numbers(preset_table()[2]),
{
    reveal_strlit("High-quality lossless FLAC: 48 kHz, stereo");
    reveal_strlit("stereo");
    reveal_strlit("48 kHz");
    reveal_strlit(" kHz");
    reveal_with_fuel(decimal, 5);
    reveal_strlit(".");
    let d = "High-quality lossless FLAC: 48 kHz, stereo"@;
    assert(preset_table()[2].description == d);
    reveal_strlit("48 kHz");
    assert(khz_text(48000nat) + " kHz"@ =~= "48 kHz"@);
    assert(d.subrange(28, 34) =~= "48 kHz"@);
    lemma_mentions_at(d, "48 kHz"@, 28);
    reveal_strlit("stereo");
    assert("stereo"@ =~= "stereo"@);
    assert(d.subrange(36, 42) =~= "stereo"@);
    lemma_mentions_at(d, "stereo"@, 36);
}

proof fn lemma_preset_3_numbers()
    ensures
        describes_numbers(preset_table()[3]),
{
    reveal_strlit("Opus voice: 32 kbps, 48 kHz, mono");
    reveal_strlit("mono");
    reveal_strlit("48 kHz");
    reveal_strlit("32 kbps");
    reveal_strlit(" kbps");
    reveal_strlit(" kHz");
    reveal_with_fuel(decimal, 5);
    reveal_strlit(".");
    let d = "Opus voice: 32 kbps, 48 kHz, mono"@;
    assert(preset_table()[3].description == d);
    reveal_strlit("32 kbps");
    assert(decimal(32nat) + " kbps"@ =~= "32 kbps"@);
    assert(d.subrange(12, 19) =~= "32 kbps"@);
    lemma_mentions_at(d, "32 kbps"@, 12);
    reveal_strlit("48 kHz");
    assert(khz_text(48000nat) + " kHz"@ =~= "48 kHz"@);
    assert(d.subrange(21, 27) =~= "48 kHz"@);
    lemma_mentions_at(d, "48 kHz"@, 21);
    reveal_strlit("mono");
    assert("mono"@ =~= "mono"@);
    assert(d.subrange(29, 33) =~= "mono"@);
    lemma_mentions_at(d, "mono"@, 29);
}

proof fn lemma_preset_4_numbers()
    ensures
        describes_numbers(preset_table()[4]),
{
    reveal_strlit("CD-quality WAV: PCM 16-bit, 44.1 kHz, stereo");
    reveal_strlit("stereo");
    reveal_strlit("44.1 kHz");
    reveal_strlit(" kHz");
    reveal_with_fuel(decimal, 5);
    reveal_strlit(".");
    let d = "CD-quality WAV: PCM 16-bit, 44.1 kHz, stereo"@;
    assert(preset_table()[4].description == d);
    reveal_strlit("44.1 kHz");
    assert(khz_text(44100nat) + " kHz"@ =~= "44.1 kHz"@);
    assert(d.subrange(28, 36) =~= "44.1 kHz"@);
    lemma_mentions_at(d, "44.1 kHz"@, 28);
    reveal_strlit("stereo");
    assert("stereo"@ =~= "stereo"@);
    assert(d.subrange(38, 44) =~= "stereo"@);
    lemma_mentions_at(d, "stereo"@, 38);
}

proof fn lemma_preset_5_numbers()
    ensures
        describes_numbers(preset_table()[5]),
{
    reveal_strlit("Web-optimized MP4: H.264 CRF 23, AAC 128 kbps");
    reveal_strlit("CRF 23");
    reveal_strlit("CRF ");
    reveal_strlit("128 kbps");
    reveal_strlit(" kbps");
    reveal_with_fuel(decimal, 5);
    reveal_strlit(".");
    let d = "Web-optimized MP4: H.264 CRF 23, AAC 128 kbps"@;
    assert(preset_table()[5].description == d);
    reveal_strlit("CRF 23");
    assert("CRF "@ + decimal(23nat) =~= "CRF 23"@);
    assert(d.subrange(25, 31) =~= "CRF 23"@);
    lemma_mentions_at(d, "CRF 23"@, 25);
    reveal_strlit("128 kbps");
    assert(decimal(128nat) + " kbps"@ =~= "128 kbps"@);
    assert(d.subrange(37, 45) =~= "128 kbps"@);
    lemma_mentions_at(d, "128 kbps"@, 37);
}

proof fn lemma_preset_6_numbers()
    ensures
        describes_numbers(preset_table()[6]),
{
    reveal_strlit("High-quality H.265/MKV: CRF 20, Opus 192 kbps");
    reveal_strlit("CRF 20");
    reveal_strlit("CRF ");
    reveal_strlit("192 kbps");
    reveal_strlit(" kbps");
    reveal_with_fuel(decimal, 5);
    reveal_strlit(".");
    let d = "High-quality H.265/MKV: CRF 20, Opus 192 kbps"@;
    assert(preset_table()[6].description == d);
    reveal_strlit("CRF 20");
    assert("CRF "@ + decimal(20nat) =~= "CRF 20"@);
    assert(d.subrange(24, 30) =~= "CRF 20"@);
    lemma_mentions_at(d, "CRF 20"@, 24);
    reveal_strlit("192 kbps");
    assert(decimal(192nat) + " kbps"@ =~= "192 kbps"@);
    assert(d.subrange(37, 45) =~= "192 kbps"@);
    lemma_mentions_at(d, "192 kbps"@, 37);
}

proof fn lemma_preset_7_numbers()
    ensures
        describes_numbers(preset_table()[7]),
{
    reveal_strlit("Social media 720p: H.264 CRF 23, AAC 128 kbps");
    reveal_strlit("p");
    reveal_strlit("CRF 23");
    reveal_strlit("CRF ");
    reveal_strlit("720p");
    reveal_strlit("128 kbps");
    reveal_strlit(" kbps");
    reveal_with_fuel(decimal, 5);
    reveal_strlit(".");
    let d = "Social media 720p: H.264 CRF 23, AAC 128 kbps"@;
    assert(preset_table()[7].description == d);
    reveal_strlit("CRF 23");
    assert("CRF "@ + decimal(23nat) =~= "CRF 23"@);
    assert(d.subrange(25, 31) =~= "CRF 23"@);
    lemma_mentions_at(d, "CRF 23"@, 25);
    reveal_strlit("720p");
    assert(decimal(720nat) + "p"@ =~= "720p"@);
    assert(d.subrange(13, 17) =~= "720p"@);
    lemma_mentions_at(d, "720p"@, 13);
    reveal_strlit("128 kbps");
    assert(decimal(128nat) + " kbps"@ =~= "128 kbps"@);
    assert(d.subrange(37, 45) =~= "128 kbps"@);
    lemma_mentions_at(d, "128 kbps"@, 37);
}

proof fn lemma_preset_8_numbers()
    ensures
        describes_numbers(preset_table()[8]),
{
    reveal_strlit("4K H.265: 3840x2160 CRF 18, Opus 256 kbps");
    reveal_strlit("x");
    reveal_strlit("CRF 18");
    reveal_strlit("CRF ");
    reveal_strlit("3840x2160");
    reveal_strlit("256 kbps");
    reveal_strlit(" kbps");
    reveal_with_fuel(decimal, 5);
    reveal_strlit(".");
    let d = "4K H.265: 3840x2160 CRF 18, Opus 256 kbps"@;
    assert(preset_table()[8].description == d);
    reveal_strlit("CRF 18");
    assert("CRF "@ + decimal(18nat) =~= "CRF 18"@);
    assert(d.subrange(20, 26) =~= "CRF 18"@);
    lemma_mentions_at(d, "CRF 18"@, 20);
    reveal_strlit("3840x2160");
    assert(decimal(3840nat) + "x"@ + decimal(2160nat) =~= "3840x2160"@);
    assert(d.subrange(10, 19) =~= "3840x2160"@);
    lemma_mentions_at(d, "3840x2160"@, 10);
    reveal_strlit("256 kbps");
    assert(decimal(256nat) + " kbps"@ =~= "256 kbps"@);
    assert(d.subrange(33, 41) =~= "256 kbps"@);
    lemma_mentions_at(d, "256 kbps"@, 33);
}

proof fn lemma_preset_9_numbers()
    ensures
        describes_numbers(preset_table()[9]),
{
    reveal_strlit("WebM VP9: CRF 30, Opus 128 kbps");
    reveal_strlit("CRF 30");
    reveal_strlit("CRF ");
    reveal_strlit("128 kbps");
    reveal_strlit(" kbps");
    reveal_with_fuel(decimal, 5);
    reveal_strlit(".");
    let d = "WebM VP9: CRF 30, Opus 128 kbps"@;
    assert(preset_table()[9].description == d);
    reveal_strlit("CRF 30");
    assert("CRF "@ + decimal(30nat) =~= "CRF 30"@);
    assert(d.subrange(10, 16) =~= "CRF 30"@);
    lemma_mentions_at(d, "CRF 30"@, 10);
    reveal_strlit("128 kbps");
    assert(decimal(128nat) + " kbps"@ =~= "128 kbps"@);
    assert(d.subrange(23, 31) =~= "128 kbps"@);
    lemma_mentions_at(d, "128 kbps"@, 23);
}

proof fn lemma_preset_10_numbers()
    ensures
        describes_numbers(preset_table()[10]),
{
    reveal_strlit("Animated GIF: 480px wide, 15 fps");
    reveal_strlit("px");
    reveal_strlit("480px");
    reveal_strlit("15 fps");
    reveal_strlit(" fps");
    reveal_with_fuel(decimal, 5);
    reveal_strlit(".");
    let d = "Animated GIF: 480px wide, 15 fps"@;
    assert(preset_table()[10].description == d);
    reveal_strlit("480px");
    assert(decimal(480nat) + "px"@ =~= "480px"@);
    assert(d.subrange(14, 19) =~= "480px"@);
    lemma_mentions_at(d, "480px"@, 14);
    reveal_strlit("15 fps");
    assert(decimal(15nat) + " fps"@ =~= "15 fps"@);
    assert(d.subrange(26, 32) =~= "15 fps"@);
    lemma_mentions_at(d, "15 fps"@, 26);
}

proof fn lemma_preset_11_numbers()
    ensures
        describes_numbers(preset_table()[11]),
{
    reveal_strlit("Apple ProRes 422 for editing: PCM audio, MOV");
    reveal_with_fuel(decimal, 5);
    reveal_strlit(".");
    let d = "Apple ProRes 422 for editing: PCM audio, MOV"@;
    assert(preset_table()[11].description == d);
}

proof fn lemma_preset_12_numbers()
    ensures
        describes_numbers(preset_table()[12]),
{
    reveal_strlit("Extract JPEG thumbnail at first frame");
    reveal_with_fuel(decimal, 5);
    reveal_strlit(".");
    let d = "Extract JPEG thumbnail at first frame"@;
    assert(preset_table()[12].description == d);
}

proof fn lemma_preset_13_numbers()
    ensures
        describes_numbers(preset_table()[13]),
{
    reveal_strlit("Extract audio track (copy codec, strip video)");
    reveal_with_fuel(decimal, 5);
    reveal_strlit(".");
    let d = "Extract audio track (copy codec, strip video)"@;
    assert(preset_table()[13].description == d);
}

/// Every built-in preset's description states the numbers of its settings: its CRF,
/// frame size, frame rate, audio bitrate, sample rate and channel layout. (The `4k-h265`
/// preset, described as `3840x2160`, scales to 3840 by 2160.)
pub proof fn lemma_preset_descriptions_state_settings()
    ensures
        forall|i: int| 0 <= i < PRESET_COUNT ==> describes_numbers(#[trigger] preset_table()[i]),
{
    lemma_preset_0_numbers();
    lemma_preset_1_numbers();
    lemma_preset_2_numbers();
    lemma_preset_3_numbers();
    lemma_preset_4_numbers();
    lemma_preset_5_numbers();
    lemma_preset_6_numbers();
    lemma_preset_7_numbers();
    lemma_preset_8_numbers();
    lemma_preset_9_numbers();
    lemma_preset_10_numbers();
    lemma_preset_11_numbers();
    lemma_preset_12_numbers();
    lemma_preset_13_numbers();
    assert forall|i: int| 0 <= i < PRESET_COUNT implies describes_numbers(#[trigger] preset_table()[i]) by {
        assert(i == 0 || i == 1 || i == 2 || i == 3 || i == 4 || i == 5 || i == 6 || i == 7 || i == 8
            || i == 9 || i == 10 || i == 11 || i == 12 || i == 13);
    }
}

/// The short name a description gives an audio codec.
pub open spec fn audio_codec_mark(c: AudioCodec) -> Seq<char> {
    match c {
        AudioCodec::Mp3 => "MP3"@,
        AudioCodec::Aac => "AAC"@,
        AudioCodec::Flac => "FLAC"@,
        AudioCodec::Vorbis => "Vorbis"@,
        AudioCodec::Opus => "Opus"@,
        AudioCodec::Wav | AudioCodec::Pcm16Le | AudioCodec::Pcm24Le | AudioCodec::PcmF32Le => "PCM"@,
        AudioCodec::Alac => "ALAC"@,
        AudioCodec::Wma => "WMA"@,
        AudioCodec::Ac3 => "AC-3"@,
    }
}

/// The short name a description gives a video codec.
pub open spec fn video_codec_mark(c: VideoCodec) -> Seq<char> {
    match c {
        VideoCodec::H264 => "H.264"@,
        VideoCodec::H265 => "H.265"@,
        VideoCodec::Vp8 => "VP8"@,
        VideoCodec::Vp9 => "VP9"@,
        VideoCodec::Av1 => "AV1"@,
        VideoCodec::Mpeg4 => "MPEG-4"@,
        VideoCodec::ProRes => "ProRes"@,
    }
}

/// Whether a preset's description names the codecs it encodes with (the video codec of
/// an animated GIF, which the GIF muxer re-encodes, excepted).
pub open spec fn names_codecs(p: PresetView) -> bool {
    &&& (p.format.audio matches Some(a) ==> mentions(p.description, audio_codec_mark(a.codec)))
    &&& (p.format.video matches Some(v) ==> (p.format.container != Container::Gif ==> mentions(
        p.description,
        video_codec_mark(v.codec),
    )))
}

proof fn lemma_preset_0_codecs()
    ensures
        names_codecs(preset_table()[0]),
{
    reveal_strlit("Podcast-ready MP3: 128 kbps, 44.1 kHz, mono");
    let d = "Podcast-ready MP3: 128 kbps, 44.1 kHz, mono"@;
    assert(preset_table()[0].description == d);
    reveal_strlit("MP3");
    assert(d.subrange(14, 17) =~= "MP3"@);
    lemma_mentions_at(d, "MP3"@, 14);
}

proof fn lemma_preset_1_codecs()
    ensures
        names_codecs(preset_table()[1]),
{
    reveal_strlit("Audiobook M4B: AAC 64 kbps, 44.1 kHz, mono");
    let d = "Audiobook M4B: AAC 64 kbps, 44.1 kHz, mono"@;
    assert(preset_table()[1].description == d);
    reveal_strlit("AAC");
    assert(d.subrange(15, 18) =~= "AAC"@);
    lemma_mentions_at(d, "AAC"@, 15);
}

proof fn lemma_preset_2_codecs()
    ensures
        names_codecs(preset_table()[2]),
{
    reveal_strlit("High-quality lossless FLAC: 48 kHz, stereo");
    let d = "High-quality lossless FLAC: 48 kHz, stereo"@;
    assert(preset_table()[2].description == d);
    reveal_strlit("FLAC");
    assert(d.subrange(22, 26) =~= "FLAC"@);
    lemma_mentions_at(d, "FLAC"@, 22);
}

proof fn lemma_preset_3_codecs()
    ensures
        names_codecs(preset_table()[3]),
{
    reveal_strlit("Opus voice: 32 kbps, 48 kHz, mono");
    let d = "Opus voice: 32 kbps, 48 kHz, mono"@;
    assert(preset_table()[3].description == d);
    reveal_strlit("Opus");
    assert(d.subrange(0, 4) =~= "Opus"@);
    lemma_mentions_at(d, "Opus"@, 0);
}

proof fn lemma_preset_4_codecs()
    ensures
        names_codecs(preset_table()[4]),
{
    reveal_strlit("CD-quality WAV: PCM 16-bit, 44.1 kHz, stereo");
    let d = "CD-quality WAV: PCM 16-bit, 44.1 kHz, stereo"@;
    assert(preset_table()[4].description == d);
    reveal_strlit("PCM");
    assert(d.subrange(16, 19) =~= "PCM"@);
    lemma_mentions_at(d, "PCM"@, 16);
}

proof fn lemma_preset_5_codecs()
    ensures
        names_codecs(preset_table()[5]),
{
    reveal_strlit("Web-optimized MP4: H.264 CRF 23, AAC 128 kbps");
    let d = "Web-optimized MP4: H.264 CRF 23, AAC 128 kbps"@;
    assert(preset_table()[5].description == d);
    reveal_strlit("H.264");
    assert(d.subrange(19, 24) =~= "H.264"@);
    lemma_mentions_at(d, "H.264"@, 19);
    reveal_strlit("AAC");
    assert(d.subrange(33, 36) =~= "AAC"@);
    lemma_mentions_at(d, "AAC"@, 33);
}

proof fn lemma_preset_6_codecs()
    ensures
        names_codecs(preset_table()[6]),
{
    reveal_strlit("High-quality H.265/MKV: CRF 20, Opus 192 kbps");
    let d = "High-quality H.265/MKV: CRF 20, Opus 192 kbps"@;
    assert(preset_table()[6].description == d);
    reveal_strlit("H.265");
    assert(d.subrange(13, 18) =~= "H.265"@);
    lemma_mentions_at(d, "H.265"@, 13);
    reveal_strlit("Opus");
    assert(d.subrange(32, 36) =~= "Opus"@);
    lemma_mentions_at(d, "Opus"@, 32);
}

proof fn lemma_preset_7_codecs()
    ensures
        names_codecs(preset_table()[7]),
{
    reveal_strlit("Social media 720p: H.264 CRF 23, AAC 128 kbps");
    let d = "Social media 720p: H.264 CRF 23, AAC 128 kbps"@;
    assert(preset_table()[7].description == d);
    reveal_strlit("H.264");
    assert(d.subrange(19, 24) =~= "H.264"@);
    lemma_mentions_at(d, "H.264"@, 19);
    reveal_strlit("AAC");
    assert(d.subrange(33, 36) =~= "AAC"@);
    lemma_mentions_at(d, "AAC"@, 33);
}

proof fn lemma_preset_8_codecs()
    ensures
        names_codecs(preset_table()[8]),
{
    reveal_strlit("4K H.265: 3840x2160 CRF 18, Opus 256 kbps");
    let d = "4K H.265: 3840x2160 CRF 18, Opus 256 kbps"@;
    assert(preset_table()[8].description == d);
    reveal_strlit("H.265");
    assert(d.subrange(3, 8) =~= "H.265"@);
    lemma_mentions_at(d, "H.265"@, 3);
    reveal_strlit("Opus");
    assert(d.subrange(28, 32) =~= "Opus"@);
    lemma_mentions_at(d, "Opus"@, 28);
}

proof fn lemma_preset_9_codecs()
    ensures
        names_codecs(preset_table()[9]),
{
    reveal_strlit("WebM VP9: CRF 30, Opus 128 kbps");
    let d = "WebM VP9: CRF 30, Opus 128 kbps"@;
    assert(preset_table()[9].description == d);
    reveal_strlit("VP9");
    assert(d.subrange(5, 8) =~= "VP9"@);
    lemma_mentions_at(d, "VP9"@, 5);
    reveal_strlit("Opus");
    assert(d.subrange(18, 22) =~= "Opus"@);
    lemma_mentions_at(d, "Opus"@, 18);
}

proof fn lemma_preset_10_codecs()
    ensures
        names_codecs(preset_table()[10]),
{
    reveal_strlit("Animated GIF: 480px wide, 15 fps");
    let d = "Animated GIF: 480px wide, 15 fps"@;
    assert(preset_table()[10].description == d);
}

proof fn lemma_preset_11_codecs()
    ensures
        names_codecs(preset_table()[11]),
{
    reveal_strlit("Apple ProRes 422 for editing: PCM audio, MOV");
    let d = "Apple ProRes 422 for editing: PCM audio, MOV"@;
    assert(preset_table()[11].description == d);
    reveal_strlit("ProRes");
    assert(d.subrange(6, 12) =~= "ProRes"@);
    lemma_mentions_at(d, "ProRes"@, 6);
    reveal_strlit("PCM");
    assert(d.subrange(30, 33) =~= "PCM"@);
    lemma_mentions_at(d, "PCM"@, 30);
}

proof fn lemma_preset_12_codecs()
    ensures
        names_codecs(preset_table()[12]),
{
    reveal_strlit("Extract JPEG thumbnail at first frame");
    let d = "Extract JPEG thumbnail at first frame"@;
    assert(preset_table()[12].description == d);
}

proof fn lemma_preset_13_codecs()
    ensures
        names_codecs(preset_table()[13]),
{
    reveal_strlit("Extract audio track (copy codec, strip video)");
    let d = "Extract audio track (copy codec, strip video)"@;
    assert(preset_table()[13].description == d);
}

/// Every built-in preset's description names the codecs it encodes with.
pub proof fn lemma_preset_descriptions_name_codecs()
    ensures
        forall|i: int| 0 <= i < PRESET_COUNT ==> names_codecs(#[trigger] preset_table()[i]),
{
    lemma_preset_0_codecs();
    lemma_preset_1_codecs();
    lemma_preset_2_codecs();
    lemma_preset_3_codecs();
    lemma_preset_4_codecs();
    lemma_preset_5_codecs();
    lemma_preset_6_codecs();
    lemma_preset_7_codecs();
    lemma_preset_8_codecs();
    lemma_preset_9_codecs();
    lemma_preset_10_codecs();
    lemma_preset_11_codecs();
    lemma_preset_12_codecs();
    lemma_preset_13_codecs();
    assert forall|i: int| 0 <= i < PRESET_COUNT implies names_codecs(#[trigger] preset_table()[i]) by {
        assert(i == 0 || i == 1 || i == 2 || i == 3 || i == 4 || i == 5 || i == 6 || i == 7 || i == 8
            || i == 9 || i == 10 || i == 11 || i == 12 || i == 13);
    }
}

/// Whether two names are equal ignoring ASCII case (`str::eq_ignore_ascii_case`).
pub open spec fn same_name(a: Seq<char>, b: Seq<char>) -> bool {
    ascii_lower(a) == ascii_lower(b)
}

/// Whether the preset at `i` answers to `name`.
pub open spec fn answers_to(i: int, name: Seq<char>) -> bool {
    same_name(preset_table()[i].name, name)
}

/// The first index from `i` on whose preset answers to `name`.
pub open spec fn first_answering(name: Seq<char>, i: int) -> Option<int>
    decreases PRESET_COUNT - i,
{
    if i < 0 || i >= PRESET_COUNT {
        None
    } else if answers_to(i, name) {
        Some(i)
    } else {
        first_answering(name, i + 1)
    }
}

/// The built-in preset a lookup by `name` finds: the first that answers to it.
pub open spec fn preset_named(name: Seq<char>) -> Option<PresetView> {
    match first_answering(name, 0) {
        Some(i) => Some(preset_table()[i]),
        None => None,
    }
}

proof fn lemma_first_answering_none(name: Seq<char>, i: int)
    requires
        0 <= i <= PRESET_COUNT,
        forall|j: int| i <= j < PRESET_COUNT ==> !answers_to(j, name),
    ensures
        first_answering(name, i) is None,
    decreases PRESET_COUNT - i,
{
    if i < PRESET_COUNT {
        lemma_first_answering_none(name, i + 1);
    }
}

proof fn lemma_first_answering_skip(name: Seq<char>, i: int)
    requires
        0 <= i <= PRESET_COUNT,
        forall|j: int| 0 <= j < i ==> !answers_to(j, name),
    ensures
        first_answering(name, 0) == first_answering(name, i),
    decreases i,
{
    if i > 0 {
        lemma_first_answering_skip(name, i - 1);
    }
}

fn audio_entry(
    name: &'static str,
    description: &'static str,
    container: Container,
    audio: AudioSettings,
) -> (r: Preset)
    ensures
        r@ == audio_preset(name@, description@, container, audio),
{
    Preset {
        name,
        description,
        category: PresetCategory::Audio,
        format: MediaFormat::audio_only(container, audio),
    }
}

fn video_entry(
    name: &'static str,
    description: &'static str,
    container: Container,
    video: VideoSettings,
    audio: AudioSettings,
) -> (r: Preset)
    ensures
        r@ == video_preset(name@, description@, container, video@, audio),
{
    Preset {
        name,
        description,
        category: PresetCategory::Video,
        format: MediaFormat::video(container, video, audio),
    }
}

fn sized_video(codec: VideoCodec, crf: Option<u8>, width: Option<u32>, height: Option<u32>) -> (r:
    VideoSettings)
    ensures
        r@ == video_of(codec, crf, width, height),
{
    VideoSettings {
        codec,
        crf,
        width,
        height,
        fps: None,
        encoder_preset: None,
        pixel_format: None,
    }
}

fn audio_with(
    codec: AudioCodec,
    bitrate: Option<u32>,
    sample_rate: Option<u32>,
    channels: Option<u16>,
) -> (r: AudioSettings)
    ensures
        r == audio_of(codec, bitrate, sample_rate, channels),
{
    AudioSettings { codec, bitrate, sample_rate, channels }
}

/// The preset at position `i` of the built-in table.
fn preset_at(i: usize) -> (r: Preset)
    requires
        i < PRESET_COUNT,
    ensures
        r@ == preset_table()[i as int],
{
    if i == 0 {
        audio_entry(
            "podcast-mp3",
            "Podcast-ready MP3: 128 kbps, 44.1 kHz, mono",
            Container::Mp3,
            audio_with(AudioCodec::Mp3, Some(128_000), Some(44100), Some(1)),
        )
    } else if i == 1 {
        audio_entry(
            "audiobook-m4b",
            "Audiobook M4B: AAC 64 kbps, 44.1 kHz, mono",
            Container::M4b,
            audio_with(AudioCodec::Aac, Some(64_000), Some(44100), Some(1)),
        )
    } else if i == 2 {
        audio_entry(
            "hq-flac",
            "High-quality lossless FLAC: 48 kHz, stereo",
            Container::Flac,
            audio_with(AudioCodec::Flac, None, Some(48000), Some(2)),
        )
    } else if i == 3 {
        audio_entry(
            "opus-voice",
            "Opus voice: 32 kbps, 48 kHz, mono",
            Container::Ogg,
            audio_with(AudioCodec::Opus, Some(32_000), Some(48000), Some(1)),
        )
    } else if i == 4 {
        audio_entry(
            "cd-wav",
            "CD-quality WAV: PCM 16-bit, 44.1 kHz, stereo",
            Container::Wav,
            audio_with(AudioCodec::Pcm16Le, None, Some(44100), Some(2)),
        )
    } else if i == 5 {
        video_entry(
            "web-mp4",
            "Web-optimized MP4: H.264 CRF 23, AAC 128 kbps",
            Container::Mp4,
            sized_video(VideoCodec::H264, Some(23), None, None),
            audio_with(AudioCodec::Aac, Some(128_000), None, None),
        )
    } else if i == 6 {
        video_entry(
            "hq-h265",
            "High-quality H.265/MKV: CRF 20, Opus 192 kbps",
            Container::Mkv,
            sized_video(VideoCodec::H265, Some(20), None, None),
            audio_with(AudioCodec::Opus, Some(192_000), None, None),
        )
    } else if i == 7 {
        video_entry(
            "social-720p",
            "Social media 720p: H.264 CRF 23, AAC 128 kbps",
            Container::Mp4,
            sized_video(VideoCodec::H264, Some(23), Some(1280), Some(720)),
            audio_with(AudioCodec::Aac, Some(128_000), None, None),
        )
    } else if i == 8 {
        video_entry(
            "4k-h265",
            "4K H.265: 3840x2160 CRF 18, Opus 256 kbps",
            Container::Mkv,
            sized_video(VideoCodec::H265, Some(18), Some(3840), Some(2160)),
            audio_with(AudioCodec::Opus, Some(256_000), None, None),
        )
    } else if i == 9 {
        video_entry(
            "webm-vp9",
            "WebM VP9: CRF 30, Opus 128 kbps",
            Container::WebM,
            sized_video(VideoCodec::Vp9, Some(30), None, None),
            audio_with(AudioCodec::Opus, Some(128_000), None, None),
        )
    } else if i == 10 {
        let video = sized_video(VideoCodec::H264, None, Some(480), None).with_fps(15_000_000);
        Preset {
            name: "gif",
            description: "Animated GIF: 480px wide, 15 fps",
            category: PresetCategory::Video,
            format: MediaFormat::video_only(Container::Gif, video),
        }
    } else if i == 11 {
        video_entry(
            "prores-edit",
            "Apple ProRes 422 for editing: PCM audio, MOV",
            Container::Mov,
            sized_video(VideoCodec::ProRes, None, None, None),
            audio_with(AudioCodec::Pcm16Le, None, None, None),
        )
    } else if i == 12 {
        Preset {
            name: "thumbnail",
            description: "Extract JPEG thumbnail at first frame",
            category: PresetCategory::Extract,
            format: MediaFormat {
                container: Container::Mp4,
                audio: None,
                video: None,
                copy_audio: false,
                copy_video: false,
                no_audio: true,
                no_video: false,
            },
        }
    } else {
        Preset {
            name: "extract-audio",
            description: "Extract audio track (copy codec, strip video)",
            category: PresetCategory::Extract,
            format: MediaFormat::extract_audio(Container::M4a),
        }
    }
}

impl Preset {
    /// Look up a built-in preset by name, ignoring ASCII case: the first preset of the
    /// table that answers to `name`, or `None` when none does.
    pub fn by_name(name: &str) -> (r: Option<Preset>)
        ensures
            match r {
                Some(p) => preset_named(name@) == Some(p@),
                None => preset_named(name@) is None,
            },
            r is None <==> (forall|i: int| 0 <= i < PRESET_COUNT ==> !answers_to(i, name@)),
            r matches Some(p) ==> exists|i: int|
                0 <= i < PRESET_COUNT && answers_to(i, name@) && p@ == preset_table()[i] && (
                forall|j: int| 0 <= j < i ==> !answers_to(j, name@)),
    {
        let wanted = to_ascii_lowercase(&chars_of(name));
        let mut i: usize = 0;
        while i < PRESET_COUNT
            invariant
                i <= PRESET_COUNT,
                wanted@ == ascii_lower(name@),
                forall|j: int| 0 <= j < i ==> !answers_to(j, name@),
            decreases PRESET_COUNT - i,
        {
            let p = preset_at(i);
            let have = to_ascii_lowercase(&chars_of(p.name));
            if eq_chars(&have, &wanted) {
                assert(answers_to(i as int, name@));
                proof {
                    lemma_first_answering_skip(name@, i as int);
                }
                return Some(p);
            }
            i = i + 1;
        }
        proof {
            lemma_first_answering_none(name@, 0);
        }
        None
    }

    /// All built-in presets, in table order.
    pub fn all() -> (r: Vec<Preset>)
        ensures
            r.len() == PRESET_COUNT,
            forall|i: int| 0 <= i < PRESET_COUNT ==> (#[trigger] r@[i])@ == preset_table()[i],
    {
        let mut v: Vec<Preset> = Vec::new();
        let mut i: usize = 0;
        while i < PRESET_COUNT
            invariant
                i <= PRESET_COUNT,
                v.len() == i,
                forall|j: int| 0 <= j < i ==> (#[trigger] v@[j])@ == preset_table()[j],
            decreases PRESET_COUNT - i,
        {
            v.push(preset_at(i));
            i = i + 1;
        }
        v
    }

    /// A copy of this preset.
    pub fn duplicate(&self) -> (r: Preset)
        ensures
            r@ == self@,
    {
        Preset {
            name: self.name,
            description: self.description,
            category: self.category,
            format: self.format.duplicate(),
        }
    }
}

/// Every built-in preset's name is already lowercase.
proof fn lemma_names_lowercase()
    ensures
        forall|i: int| 0 <= i < PRESET_COUNT ==> ascii_lower(#[trigger] preset_table()[i].name)
            == preset_table()[i].name,
{
    reveal_strlit("podcast-mp3");
    reveal_strlit("audiobook-m4b");
    reveal_strlit("hq-flac");
    reveal_strlit("opus-voice");
    reveal_strlit("cd-wav");
    reveal_strlit("web-mp4");
    reveal_strlit("hq-h265");
    reveal_strlit("social-720p");
    reveal_strlit("4k-h265");
    reveal_strlit("webm-vp9");
    reveal_strlit("gif");
    reveal_strlit("prores-edit");
    reveal_strlit("thumbnail");
    reveal_strlit("extract-audio");
    let t = preset_table();
    assert forall|i: int| 0 <= i < PRESET_COUNT implies ascii_lower(#[trigger] t[i].name)
        == t[i].name by {
        assert(ascii_lower(t[i].name) =~= t[i].name);
    }
}

/// No two built-in presets share a name, even ignoring ASCII case.
pub proof fn lemma_preset_names_distinct()
    ensures
        forall|i: int, j: int|
            0 <= i < PRESET_COUNT && 0 <= j < PRESET_COUNT && i != j ==> !same_name(
                #[trigger] preset_table()[i].name,
                #[trigger] preset_table()[j].name,
            ),
{
    lemma_names_lowercase();
    reveal_strlit("podcast-mp3");
    reveal_strlit("audiobook-m4b");
    reveal_strlit("hq-flac");
    reveal_strlit("opus-voice");
    reveal_strlit("cd-wav");
    reveal_strlit("web-mp4");
    reveal_strlit("hq-h265");
    reveal_strlit("social-720p");
    reveal_strlit("4k-h265");
    reveal_strlit("webm-vp9");
    reveal_strlit("gif");
    reveal_strlit("prores-edit");
    reveal_strlit("thumbnail");
    reveal_strlit("extract-audio");
    let t = preset_table();
    assert forall|i: int, j: int|
        0 <= i < PRESET_COUNT && 0 <= j < PRESET_COUNT && i != j implies !same_name(
        #[trigger] t[i].name,
        #[trigger] t[j].name,
    ) by {
        assert(ascii_lower(t[i].name) == t[i].name);
        assert(ascii_lower(t[j].name) == t[j].name);
        if t[i].name.len() == t[j].name.len() {
            assert(t[i].name[0] != t[j].name[0] || t[i].name[1] != t[j].name[1]
                || t[i].name[3] != t[j].name[3]);
        }
    }
}

/// A lookup by any spelling of a preset's name (ignoring ASCII case) answers with that
/// preset and no other.
pub proof fn lemma_lookup_by_own_name(i: int, name: Seq<char>)
    requires
        0 <= i < PRESET_COUNT,
        same_name(name, preset_table()[i].name),
    ensures
        answers_to(i, name),
        forall|j: int| 0 <= j < PRESET_COUNT && j != i ==> !answers_to(j, name),
{
    lemma_preset_names_distinct();
    assert forall|j: int| 0 <= j < PRESET_COUNT && j != i implies !answers_to(j, name) by {
        assert(!same_name(preset_table()[i].name, preset_table()[j].name));
    }
}

/// Every audio preset re-encodes audio the container accepts and strips the video.
pub proof fn lemma_audio_presets_consistent()
    ensures
        forall|i: int|
            0 <= i < PRESET_COUNT && (#[trigger] preset_table()[i]).category
                == PresetCategory::Audio ==> {
                let f = preset_table()[i].format;
                &&& f.audio is Some
                &&& f.video is None
                &&& f.no_video
                &&& f.container.accepts_audio(f.audio->0.codec)
            },
{
}

/// Every video preset carries video settings; outside GIF (which uses its own encoder)
/// the container accepts the video codec, and it accepts any audio codec given.
pub proof fn lemma_video_presets_consistent()
    ensures
        forall|i: int|
            0 <= i < PRESET_COUNT && (#[trigger] preset_table()[i]).category
                == PresetCategory::Video ==> {
                let f = preset_table()[i].format;
                &&& f.video is Some
                &&& f.container != Container::Gif ==> f.container.accepts_video(
                    f.video->0.codec,
                )
                &&& f.audio is Some ==> f.container.accepts_audio(f.audio->0.codec)
            },
{
}

/// Every built-in preset has a description.
pub proof fn lemma_preset_descriptions_nonempty()
    ensures
        forall|i: int|
            0 <= i < PRESET_COUNT ==> (#[trigger] preset_table()[i]).description.len() > 0,
{
    reveal_strlit("Podcast-ready MP3: 128 kbps, 44.1 kHz, mono");
    reveal_strlit("Audiobook M4B: AAC 64 kbps, 44.1 kHz, mono");
    reveal_strlit("High-quality lossless FLAC: 48 kHz, stereo");
    reveal_strlit("Opus voice: 32 kbps, 48 kHz, mono");
    reveal_strlit("CD-quality WAV: PCM 16-bit, 44.1 kHz, stereo");
    reveal_strlit("Web-optimized MP4: H.264 CRF 23, AAC 128 kbps");
    reveal_strlit("High-quality H.265/MKV: CRF 20, Opus 192 kbps");
    reveal_strlit("Social media 720p: H.264 CRF 23, AAC 128 kbps");
    reveal_strlit("4K H.265: 3840x2160 CRF 18, Opus 256 kbps");
    reveal_strlit("WebM VP9: CRF 30, Opus 128 kbps");
    reveal_strlit("Animated GIF: 480px wide, 15 fps");
    reveal_strlit("Apple ProRes 422 for editing: PCM audio, MOV");
    reveal_strlit("Extract JPEG thumbnail at first frame");
    reveal_strlit("Extract audio track (copy codec, strip video)");
}

} // verus!
