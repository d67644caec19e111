use media_convertor::codec::{AudioCodec, VideoCodec};
use media_convertor::container::Container;
use media_convertor::filter::{AudioFilterChain, VideoFilterChain};
use media_convertor::format::{AudioSettings, MediaFormat, VideoSettings};
use media_convertor::preset::{Preset, PresetCategory};

#[test]
fn audio_settings_builder() {
    let s = AudioSettings::new(AudioCodec::Mp3)
        .with_bitrate(128_000)
        .with_sample_rate(44100)
        .with_channels(1);
    assert_eq!(s.codec, AudioCodec::Mp3);
    assert_eq!(s.bitrate, Some(128_000));
    assert_eq!(s.sample_rate, Some(44100));
    assert_eq!(s.channels, Some(1));
}

#[test]
fn video_settings_builder() {
    let s = VideoSettings::new(VideoCodec::H264)
        .with_crf(23)
        .with_resolution(1920, 1080)
        .with_fps(30_000_000)
        .with_encoder_preset("medium");
    assert_eq!(s.codec, VideoCodec::H264);
    assert_eq!(s.crf, Some(23));
    assert_eq!(s.width, Some(1920));
    assert_eq!(s.height, Some(1080));
    assert_eq!(s.fps, Some(30_000_000));
    assert_eq!(s.encoder_preset.as_deref(), Some("medium"));
}

#[test]
fn audio_only_format() {
    let f = MediaFormat::audio_only(
        Container::Mp3,
        AudioSettings::new(AudioCodec::Mp3).with_bitrate(128_000),
    );
    assert_eq!(f.container, Container::Mp3);
    assert!(f.audio.is_some());
    assert!(f.video.is_none());
    assert!(f.no_video);
    assert!(!f.no_audio);
}

#[test]
fn video_format() {
    let f = MediaFormat::video(
        Container::Mp4,
        VideoSettings::new(VideoCodec::H264).with_crf(23),
        AudioSettings::new(AudioCodec::Aac).with_bitrate(128_000),
    );
    assert_eq!(f.container, Container::Mp4);
    assert!(f.audio.is_some());
    assert!(f.video.is_some());
    assert!(!f.no_video);
    assert!(!f.no_audio);
}

#[test]
fn remux_copies_both_streams() {
    let f = MediaFormat::remux(Container::Mkv);
    assert!(f.copy_audio);
    assert!(f.copy_video);
    assert!(f.audio.is_none());
    assert!(f.video.is_none());
}

#[test]
fn extract_audio_strips_video() {
    let f = MediaFormat::extract_audio(Container::M4a);
    assert!(f.copy_audio);
    assert!(!f.copy_video);
    assert!(f.no_video);
}

#[test]
fn all_presets_count() {
    assert_eq!(Preset::all().len(), 14);
}

#[test]
fn lookup_by_name() {
    assert!(Preset::by_name("podcast-mp3").is_some());
    assert!(Preset::by_name("PODCAST-MP3").is_some());
    assert!(Preset::by_name("nonexistent").is_none());
}

#[test]
fn lookup_finds_each_preset_by_its_own_name() {
    for p in Preset::all().iter() {
        let found = Preset::by_name(&p.name.to_uppercase()).unwrap();
        assert_eq!(found.name, p.name);
    }
    let gif = Preset::by_name("Gif").unwrap();
    assert_eq!(gif.format.video.as_ref().unwrap().fps, Some(15_000_000));
    assert_eq!(gif.format.video.as_ref().unwrap().width, Some(480));
}

#[test]
fn unique_names() {
    let names: Vec<&str> = Preset::all().iter().map(|p| p.name).collect();
    let mut deduped = names.clone();
    deduped.sort();
    deduped.dedup();
    assert_eq!(names.len(), deduped.len(), "duplicate preset names found");
}

#[test]
fn audio_presets_have_audio_settings() {
    for p in Preset::all().iter().filter(|p| p.category == PresetCategory::Audio) {
        assert!(p.format.audio.is_some(), "audio preset {} has no audio settings", p.name);
    }
}

#[test]
fn video_presets_have_video_settings() {
    for p in Preset::all().iter().filter(|p| p.category == PresetCategory::Video) {
        assert!(p.format.video.is_some(), "video preset {} has no video settings", p.name);
    }
}

#[test]
fn audio_presets_strip_video() {
    for p in Preset::all().iter().filter(|p| p.category == PresetCategory::Audio) {
        assert!(p.format.no_video, "audio preset {} should strip video", p.name);
    }
}

#[test]
fn audio_codec_container_compatibility() {
    for p in Preset::all().iter().filter(|p| p.category == PresetCategory::Audio) {
        if let Some(ref audio) = p.format.audio {
            assert!(
                p.format.container.supports_audio_codec(audio.codec),
                "preset {} uses {:?} in {:?} which is incompatible",
                p.name,
                audio.codec,
                p.format.container
            );
        }
    }
}

#[test]
fn video_codec_container_compatibility() {
    for p in Preset::all().iter().filter(|p| p.category == PresetCategory::Video) {
        if let Some(ref video) = p.format.video {
            if p.format.container == Container::Gif {
                continue;
            }
            assert!(
                p.format.container.supports_video_codec(video.codec),
                "preset {} uses {:?} in {:?} which is incompatible",
                p.name,
                video.codec,
                p.format.container
            );
        }
        if let Some(ref audio) = p.format.audio {
            assert!(
                p.format.container.supports_audio_codec(audio.codec),
                "preset {} uses {:?} audio in {:?} which is incompatible",
                p.name,
                audio.codec,
                p.format.container
            );
        }
    }
}

#[test]
fn descriptions_not_empty() {
    for p in Preset::all().iter() {
        assert!(!p.description.is_empty(), "preset {} has empty description", p.name);
    }
}

#[test]
fn empty_video_chain_returns_none() {
    assert!(VideoFilterChain::new().build().is_none());
}

#[test]
fn video_scale_and_fps() {
    let chain = VideoFilterChain::new().scale(1280, 720).fps(30_000_000).build().unwrap();
    assert_eq!(chain, "scale=1280:720,fps=30");
}

#[test]
fn video_scale_width_auto_height() {
    let chain = VideoFilterChain::new().scale_width(480).build().unwrap();
    assert_eq!(chain, "scale=480:-2");
}

#[test]
fn video_pixel_format() {
    let chain = VideoFilterChain::new().scale(1920, 1080).pixel_format("yuv420p").build().unwrap();
    assert_eq!(chain, "scale=1920:1080,format=yuv420p");
}

#[test]
fn video_select_frame() {
    let chain = VideoFilterChain::new().select_frame(5_000_000).build().unwrap();
    assert!(chain.contains("select="));
    assert!(chain.contains("trim=frames=1"));
}

#[test]
fn video_gif_palette() {
    let chain =
        VideoFilterChain::new().scale_width(480).fps(15_000_000).gif_palettegen().build().unwrap();
    assert!(chain.contains("palettegen"));
    assert!(chain.contains("paletteuse"));
}

#[test]
fn video_chain_exact_texts() {
    let chain = VideoFilterChain::new()
        .scale_height(720)
        .crop(100, 50, 10, 20)
        .pad(1920, 1080)
        .select_frame(2_500_000)
        .fps(29_970_000)
        .build()
        .unwrap();
    assert_eq!(
        chain,
        "scale=-2:720,crop=100:50:10:20,pad=1920:1080:(ow-iw)/2:(oh-ih)/2,select='gte(t\\,2.5)',trim=frames=1,fps=29.97"
    );
}

#[test]
fn empty_audio_chain_returns_none() {
    assert!(AudioFilterChain::new().build().is_none());
}

#[test]
fn audio_resample_and_mono() {
    let chain = AudioFilterChain::new().resample(44100).channel_layout("mono").build().unwrap();
    assert_eq!(chain, "aresample=44100,aformat=channel_layouts=mono");
}

#[test]
fn audio_loudnorm() {
    let chain = AudioFilterChain::new().loudnorm().build().unwrap();
    assert_eq!(chain, "loudnorm");
}

#[test]
fn audio_loudnorm_custom() {
    let chain = AudioFilterChain::new()
        .loudnorm_target(-16_000_000, -1_500_000, 11_000_000)
        .build()
        .unwrap();
    assert_eq!(chain, "loudnorm=I=-16:TP=-1.5:LRA=11");
}

#[test]
fn audio_volume_and_fade() {
    let chain = AudioFilterChain::new()
        .volume("1.5")
        .fade_in(2_000_000)
        .fade_out(58_000_000, 2_000_000)
        .build()
        .unwrap();
    assert_eq!(chain, "volume=1.5,afade=t=in:d=2,afade=t=out:st=58:d=2");
}

#[test]
fn audio_trim() {
    let chain = AudioFilterChain::new().trim(10_000_000, 30_000_000).build().unwrap();
    assert!(chain.contains("atrim=start=10:end=30"));
    assert!(chain.contains("asetpts=PTS-STARTPTS"));
}

#[test]
fn raw_filter() {
    let chain = VideoFilterChain::new().raw("hflip").raw("vflip").build().unwrap();
    assert_eq!(chain, "hflip,vflip");
}
