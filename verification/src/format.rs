//! Media format types: settings for audio/video encoding and overall output format.
//!
//! Frame rates are held as a count of millionths of a frame per second (so `30.0` fps is
//! `30_000_000`), which renders exactly as ffmpeg is given it.

use vstd::prelude::*;
use crate::codec::{AudioCodec, VideoCodec};
use crate::container::Container;

verus! {

/// The text an optional owned string holds.
pub open spec fn opt_text(o: Option<String>) -> Option<Seq<char>> {
    match o {
        Some(s) => Some(s@),
        None => None,
    }
}

/// A copy of an optional owned string.
pub fn copy_opt_string(o: &Option<String>) -> (r: Option<String>)
    ensures
        opt_text(r) == opt_text(*o),
{
    match o {
        Some(s) => Some(s.clone()),
        None => None,
    }
}

/// Audio encoding settings.
#[derive(Debug, Clone, Copy, PartialEq, Eq, Structural)]
pub struct AudioSettings {
    pub codec: AudioCodec,
    /// Bitrate in bits per second (e.g. 128_000 for 128kbps). None = codec default / VBR.
    pub bitrate: Option<u32>,
    /// Sample rate in Hz (e.g. 44100, 48000). None = same as source.
    pub sample_rate: Option<u32>,
    /// Number of channels. None = same as source.
    pub channels: Option<u16>,
}

impl AudioSettings {
    pub fn new(codec: AudioCodec) -> (r: Self)
        ensures
            r == (AudioSettings { codec, bitrate: None, sample_rate: None, channels: None }),
    {
        AudioSettings { codec, bitrate: None, sample_rate: None, channels: None }
    }

    pub fn with_bitrate(self, bps: u32) -> (r: Self)
        ensures
            r == (AudioSettings { bitrate: Some(bps), ..self }),
    {
        AudioSettings { bitrate: Some(bps), ..self }
    }

    pub fn with_sample_rate(self, hz: u32) -> (r: Self)
        ensures
            r == (AudioSettings { sample_rate: Some(hz), ..self }),
    {
        AudioSettings { sample_rate: Some(hz), ..self }
    }

    pub fn with_channels(self, ch: u16) -> (r: Self)
        ensures
            r == (AudioSettings { channels: Some(ch), ..self }),
    {
        AudioSettings { channels: Some(ch), ..self }
    }
}

/// Video encoding settings.
#[derive(Debug, Clone)]
pub struct VideoSettings {
    pub codec: VideoCodec,
    /// Constant Rate Factor (lower = better quality, bigger file). None = codec default.
    pub crf: Option<u8>,
    /// Target width in pixels. None = same as source.
    pub width: Option<u32>,
    /// Target height in pixels. None = same as source.
    pub height: Option<u32>,
    /// Frame rate in millionths of a frame per second. None = same as source.
    pub fps: Option<i64>,
    /// Encoder preset string (e.g. "medium", "slow"). None = encoder default.
    pub encoder_preset: Option<String>,
    /// Pixel format (e.g. "yuv420p"). None = encoder default.
    pub pixel_format: Option<String>,
}

/// The value of a [`VideoSettings`], its strings taken as text.
pub struct VideoSettingsView {
    pub codec: VideoCodec,
    pub crf: Option<u8>,
    pub width: Option<u32>,
    pub height: Option<u32>,
    pub fps: Option<i64>,
    pub encoder_preset: Option<Seq<char>>,
    pub pixel_format: Option<Seq<char>>,
}

impl View for VideoSettings {
    type V = VideoSettingsView;

    open spec fn view(&self) -> VideoSettingsView {
        VideoSettingsView {
            codec: self.codec,
            crf: self.crf,
            width: self.width,
            height: self.height,
            fps: self.fps,
            encoder_preset: opt_text(self.encoder_preset),
            pixel_format: opt_text(self.pixel_format),
        }
    }
}

/// The settings of `codec` with everything else left to the encoder or the source.
pub open spec fn plain_video(codec: VideoCodec) -> VideoSettingsView {
    VideoSettingsView {
        codec,
        crf: None,
        width: None,
        height: None,
        fps: None,
        encoder_preset: None,
        pixel_format: None,
    }
}

impl VideoSettings {
    pub fn new(codec: VideoCodec) -> (r: Self)
        ensures
            r@ == plain_video(codec),
    {
        VideoSettings {
            codec,
            crf: None,
            width: None,
            height: None,
            fps: None,
            encoder_preset: None,
            pixel_format: None,
        }
    }

    pub fn with_crf(self, crf: u8) -> (r: Self)
        ensures
            r@ == (VideoSettingsView { crf: Some(crf), ..self@ }),
    {
        VideoSettings { crf: Some(crf), ..self }
    }

    pub fn with_resolution(self, w: u32, h: u32) -> (r: Self)
        ensures
            r@ == (VideoSettingsView { width: Some(w), height: Some(h), ..self@ }),
    {
        VideoSettings { width: Some(w), height: Some(h), ..self }
    }

    /// Sets the frame rate, in millionths of a frame per second.
    pub fn with_fps(self, fps: i64) -> (r: Self)
        ensures
            r@ == (VideoSettingsView { fps: Some(fps), ..self@ }),
    {
        VideoSettings { fps: Some(fps), ..self }
    }

    pub fn with_encoder_preset(self, preset: &str) -> (r: Self)
        ensures
            r@ == (VideoSettingsView { encoder_preset: Some(preset@), ..self@ }),
    {
        VideoSettings { encoder_preset: Some(preset.to_owned()), ..self }
    }

    pub fn with_pixel_format(self, fmt: &str) -> (r: Self)
        ensures
            r@ == (VideoSettingsView { pixel_format: Some(fmt@), ..self@ }),
    {
        VideoSettings { pixel_format: Some(fmt.to_owned()), ..self }
    }

    /// A copy of these settings.
    pub fn duplicate(&self) -> (r: Self)
        ensures
            r@ == self@,
    {
        VideoSettings {
            codec: self.codec,
            crf: self.crf,
            width: self.width,
            height: self.height,
            fps: self.fps,
            encoder_preset: copy_opt_string(&self.encoder_preset),
            pixel_format: copy_opt_string(&self.pixel_format),
        }
    }
}

/// Complete output format specification.
#[derive(Debug, Clone)]
pub struct MediaFormat {
    pub container: Container,
    pub audio: Option<AudioSettings>,
    pub video: Option<VideoSettings>,
    /// If true, copy the audio stream without re-encoding.
    pub copy_audio: bool,
    /// If true, copy the video stream without re-encoding.
    pub copy_video: bool,
    /// Strip all audio streams from output.
    pub no_audio: bool,
    /// Strip all video streams from output.
    pub no_video: bool,
}

/// The value of a [`MediaFormat`], its strings taken as text.
pub struct MediaFormatView {
    pub container: Container,
    pub audio: Option<AudioSettings>,
    pub video: Option<VideoSettingsView>,
    pub copy_audio: bool,
    pub copy_video: bool,
    pub no_audio: bool,
    pub no_video: bool,
}

/// The view of optional video settings.
pub open spec fn opt_video_view(v: Option<VideoSettings>) -> Option<VideoSettingsView> {
    match v {
        Some(s) => Some(s@),
        None => None,
    }
}

impl View for MediaFormat {
    type V = MediaFormatView;

    open spec fn view(&self) -> MediaFormatView {
        MediaFormatView {
            container: self.container,
            audio: self.audio,
            video: opt_video_view(self.video),
            copy_audio: self.copy_audio,
            copy_video: self.copy_video,
            no_audio: self.no_audio,
            no_video: self.no_video,
        }
    }
}

/// An audio-only format: the given audio, video stripped.
pub open spec fn audio_only_view(container: Container, audio: AudioSettings) -> MediaFormatView {
    MediaFormatView {
        container,
        audio: Some(audio),
        video: None,
        copy_audio: false,
        copy_video: false,
        no_audio: false,
        no_video: true,
    }
}

/// A format with both streams re-encoded.
pub open spec fn both_streams_view(
    container: Container,
    video: VideoSettingsView,
    audio: AudioSettings,
) -> MediaFormatView {
    MediaFormatView {
        container,
        audio: Some(audio),
        video: Some(video),
        copy_audio: false,
        copy_video: false,
        no_audio: false,
        no_video: false,
    }
}

/// A video-only format: the given video, audio stripped.
pub open spec fn video_only_view(container: Container, video: VideoSettingsView) -> MediaFormatView {
    MediaFormatView {
        container,
        audio: None,
        video: Some(video),
        copy_audio: false,
        copy_video: false,
        no_audio: true,
        no_video: false,
    }
}

/// Every stream copied into `container`.
pub open spec fn remux_view(container: Container) -> MediaFormatView {
    MediaFormatView {
        container,
        audio: None,
        video: None,
        copy_audio: true,
        copy_video: true,
        no_audio: false,
        no_video: false,
    }
}

/// The audio stream copied into `container`, video stripped.
pub open spec fn extract_audio_view(container: Container) -> MediaFormatView {
    MediaFormatView {
        container,
        audio: None,
        video: None,
        copy_audio: true,
        copy_video: false,
        no_audio: false,
        no_video: true,
    }
}

impl MediaFormat {
    /// Audio-only format.
    pub fn audio_only(container: Container, audio: AudioSettings) -> (r: Self)
        ensures
            r@ == audio_only_view(container, audio),
    {
        MediaFormat {
            container,
            audio: Some(audio),
            video: None,
            copy_audio: false,
            copy_video: false,
            no_audio: false,
            no_video: true,
        }
    }

    /// Video format with both streams.
    pub fn video(container: Container, video: VideoSettings, audio: AudioSettings) -> (r: Self)
        ensures
            r@ == both_streams_view(container, video@, audio),
    {
        MediaFormat {
            container,
            audio: Some(audio),
            video: Some(video),
            copy_audio: false,
            copy_video: false,
            no_audio: false,
            no_video: false,
        }
    }

    /// Video-only (no audio).
    pub fn video_only(container: Container, video: VideoSettings) -> (r: Self)
        ensures
            r@ == video_only_view(container, video@),
    {
        MediaFormat {
            container,
            audio: None,
            video: Some(video),
            copy_audio: false,
            copy_video: false,
            no_audio: true,
            no_video: false,
        }
    }

    /// Copy all streams into a new container (remux).
    pub fn remux(container: Container) -> (r: Self)
        ensures
            r@ == remux_view(container),
    {
        MediaFormat {
            container,
            audio: None,
            video: None,
            copy_audio: true,
            copy_video: true,
            no_audio: false,
            no_video: false,
        }
    }

    /// Extract audio from a video file (copy codec).
    pub fn extract_audio(container: Container) -> (r: Self)
        ensures
            r@ == extract_audio_view(container),
    {
        MediaFormat {
            container,
            audio: None,
            video: None,
            copy_audio: true,
            copy_video: false,
            no_audio: false,
            no_video: true,
        }
    }

    /// A copy of this format.
    pub fn duplicate(&self) -> (r: Self)
        ensures
            r@ == self@,
    {
        let video = match &self.video {
            Some(v) => Some(v.duplicate()),
            None => None,
        };
        MediaFormat {
            container: self.container,
            audio: self.audio,
            video,
            copy_audio: self.copy_audio,
            copy_video: self.copy_video,
            no_audio: self.no_audio,
            no_video: self.no_video,
        }
    }
}

} // verus!
