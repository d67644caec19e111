use media_convertor::audio::infer_audio_container;
use media_convertor::codec::{AudioCodec, VideoCodec};
use media_convertor::container::Container;
use media_convertor::video::infer_video_container;

#[test]
fn audio_from_name_common_aliases() {
    assert_eq!(AudioCodec::from_name("mp3"), Some(AudioCodec::Mp3));
    assert_eq!(AudioCodec::from_name("AAC"), Some(AudioCodec::Aac));
    assert_eq!(AudioCodec::from_name("m4a"), Some(AudioCodec::Aac));
    assert_eq!(AudioCodec::from_name("ogg"), Some(AudioCodec::Vorbis));
    assert_eq!(AudioCodec::from_name("pcm"), Some(AudioCodec::Wav));
    assert_eq!(AudioCodec::from_name("nope"), None);
}

#[test]
fn video_from_name_common_aliases() {
    assert_eq!(VideoCodec::from_name("h264"), Some(VideoCodec::H264));
    assert_eq!(VideoCodec::from_name("x265"), Some(VideoCodec::H265));
    assert_eq!(VideoCodec::from_name("hevc"), Some(VideoCodec::H265));
    assert_eq!(VideoCodec::from_name("AV1"), Some(VideoCodec::Av1));
    assert_eq!(VideoCodec::from_name("nope"), None);
}

#[test]
fn ffmpeg_encoder_names_are_not_empty() {
    for c in AudioCodec::all().iter() {
        assert!(!c.ffmpeg_encoder().is_empty());
    }
    for c in VideoCodec::all().iter() {
        assert!(!c.ffmpeg_encoder().is_empty());
    }
}

#[test]
fn display_names_are_not_empty() {
    for c in AudioCodec::all().iter() {
        assert!(!c.display_name().is_empty());
    }
    for c in VideoCodec::all().iter() {
        assert!(!c.display_name().is_empty());
    }
}

#[test]
fn codec_names_exact() {
    assert_eq!(AudioCodec::Mp3.ffmpeg_encoder(), "libmp3lame");
    assert_eq!(AudioCodec::Mp3.ffmpeg_decoder(), "mp3");
    assert_eq!(AudioCodec::Wav.display_name(), "WAV (PCM 16-bit)");
    assert_eq!(VideoCodec::H265.ffmpeg_encoder(), "libx265");
    assert_eq!(AudioCodec::all().len(), 12);
    assert_eq!(AudioCodec::from_name("PCM_S24LE"), Some(AudioCodec::Pcm24Le));
}

#[test]
fn extension_roundtrip() {
    for c in Container::all().iter() {
        assert_eq!(Container::from_name(c.extension()), Some(*c));
    }
}

#[test]
fn from_name_with_dot_prefix() {
    assert_eq!(Container::from_name(".mp4"), Some(Container::Mp4));
    assert_eq!(Container::from_name(".MKV"), Some(Container::Mkv));
}

#[test]
fn from_path_works() {
    assert_eq!(Container::from_path("/foo/bar.mp4"), Some(Container::Mp4));
    assert_eq!(Container::from_path("no_ext"), None);
}

#[test]
fn audio_only_containers_dont_support_video() {
    assert!(!Container::Ogg.supports_video());
    assert!(!Container::Flac.supports_video());
    assert!(!Container::Wav.supports_video());
    assert!(!Container::Mp3.supports_video());
    assert!(!Container::M4a.supports_video());
}

#[test]
fn gif_has_no_audio() {
    assert!(!Container::Gif.supports_audio());
}

#[test]
fn webm_only_allows_webm_codecs() {
    assert!(Container::WebM.supports_video_codec(VideoCodec::Vp9));
    assert!(Container::WebM.supports_video_codec(VideoCodec::Av1));
    assert!(!Container::WebM.supports_video_codec(VideoCodec::H264));
    assert!(Container::WebM.supports_audio_codec(AudioCodec::Opus));
    assert!(!Container::WebM.supports_audio_codec(AudioCodec::Mp3));
}

#[test]
fn mkv_supports_everything() {
    for vc in VideoCodec::all().iter() {
        assert!(Container::Mkv.supports_video_codec(*vc));
    }
}

#[test]
fn seekable_output_containers() {
    assert!(Container::Mp4.requires_seekable_output());
    assert!(Container::Mov.requires_seekable_output());
    assert!(!Container::Mkv.requires_seekable_output());
    assert!(!Container::Ts.requires_seekable_output());
}

#[test]
fn mime_types_are_valid() {
    for c in Container::all().iter() {
        assert!(c.mime_type().contains('/'));
    }
}

#[test]
fn ffmpeg_format_names_not_empty() {
    for c in Container::all().iter() {
        assert!(!c.ffmpeg_format().is_empty());
    }
}

#[test]
fn container_names_exact() {
    assert_eq!(Container::Mkv.ffmpeg_format(), "matroska");
    assert_eq!(Container::M4b.mime_type(), "audio/x-m4b");
    assert_eq!(Container::from_name("M2TS"), Some(Container::Ts));
    assert_eq!(Container::from_path("/a.b/c"), None);
    assert_eq!(Container::from_path("/a/.mp4"), None);
}

#[test]
fn infer_container_from_extension() {
    assert_eq!(infer_audio_container("/out.flac", Container::Mp3), Container::Flac);
    assert_eq!(infer_audio_container("/no_ext", Container::Mp3), Container::Mp3);
}

#[test]
fn infer_container() {
    assert_eq!(infer_video_container("/out.mkv", Container::Mp4), Container::Mkv);
    assert_eq!(infer_video_container("/no_ext", Container::Mp4), Container::Mp4);
}
