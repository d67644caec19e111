use media_convertor::audio::{
    convert_audio_job, convert_audio_job_with_settings, extract_audio_job,
};
use media_convertor::cli::{
    api_url, wait_step, WaitStep,
    convert_format, input_field, local_attachment, log_level, parse_manifest, parse_pid,
    raw_cli_args, raw_output_ext, start_config, ManifestLine, StartOverrides,
};
use media_convertor::codec::{AudioCodec, VideoCodec};
use media_convertor::config::Config;
use media_convertor::container::Container;
use media_convertor::detect::{
    media_info_of, stream_info_of, ProbedFormat, ProbedStream,
    guess_container_from_format, probed_container, stream_type_of, MediaInfo, StreamInfo,
    StreamType,
};
use media_convertor::error::{MediaError, ProbeError};
use media_convertor::format::{AudioSettings, MediaFormat, VideoSettings};
use media_convertor::json::{parse_decimal_micros, parse_rational_micros};
use media_convertor::probe::probe_output;
use media_convertor::plugin::{default_container_for_codec, plugin_format, PluginOptions};
use media_convertor::progress::{NoProgress, ProgressEvent, ProgressHandler};
use media_convertor::stream::{InputSource, OutputTarget};
use media_convertor::transcode::{CancelToken, TranscodeJob};
use media_convertor::video::{convert_video_job, gif_job, thumbnail_job};

fn file_in(p: &str) -> InputSource {
    InputSource::File(p.to_string())
}

fn file_out(p: &str) -> OutputTarget {
    OutputTarget::File(p.to_string())
}

#[test]
fn input_source_debug() {
    let f: InputSource = InputSource::File("/test.mp4".to_string());
    assert!(f.describe().contains("test.mp4"));

    let b: InputSource = InputSource::Bytes(vec![0u8; 100]);
    assert!(b.describe().contains("100 bytes"));

    let r: InputSource<Box<dyn std::io::Read + Send>> = InputSource::Reader(Box::new(std::io::empty()));
    assert!(r.describe().contains("Reader"));
}

#[test]
fn output_target_debug() {
    let f: OutputTarget = OutputTarget::File("/out.mp4".to_string());
    assert!(f.describe().contains("out.mp4"));

    let b: OutputTarget = OutputTarget::Buffer;
    assert!(b.describe().contains("Buffer"));
}

#[test]
fn from_conversions() {
    let _: InputSource = "/test.mp4".to_string().into();
    let _: InputSource = vec![0u8; 10].into();
    let _: OutputTarget = "/out.mp4".to_string().into();
}

#[test]
fn transcode_job_builder() {
    let format = MediaFormat::remux(Container::Mkv);
    let job: TranscodeJob = TranscodeJob::new(file_in("/input.mp4"), file_out("/output.mkv"), format)
        .with_start_time(10_000_000)
        .with_end_time(60_000_000)
        .with_threads(4);
    assert_eq!(job.start_time, Some(10_000_000));
    assert_eq!(job.end_time, Some(60_000_000));
    assert_eq!(job.threads, 4);
}

#[test]
fn cancel_token() {
    let token = CancelToken::new();
    assert!(!token.is_cancelled());
    token.cancel();
    assert!(token.is_cancelled());
}

#[test]
fn cancel_token_clone_shares_state() {
    let token = CancelToken::new();
    let clone = token.clone();
    token.cancel();
    assert!(clone.is_cancelled());
}

#[test]
fn extract_audio_job_strips_video() {
    let job = extract_audio_job(file_in("/input.mp4"), file_out("/output.m4a"));
    assert!(job.format.no_video);
    assert!(job.format.copy_audio);
}

#[test]
fn convert_audio_job_sets_codec() {
    let job = convert_audio_job(file_in("/input.wav"), file_out("/output.mp3"), AudioCodec::Mp3, Container::Mp3);
    let audio = job.format.audio.as_ref().unwrap();
    assert_eq!(audio.codec, AudioCodec::Mp3);
    assert!(job.format.no_video);
}

#[test]
fn convert_video_job_has_both_streams() {
    let job = convert_video_job(
        file_in("/input.mkv"),
        file_out("/output.mp4"),
        Container::Mp4,
        VideoSettings::new(VideoCodec::H264).with_crf(23),
        AudioSettings::new(AudioCodec::Aac).with_bitrate(128_000),
    );
    assert!(job.format.video.is_some());
    assert!(job.format.audio.is_some());
    assert!(!job.format.no_video);
    assert!(!job.format.no_audio);
}

#[test]
fn gif_job_is_video_only() {
    let job = gif_job(
        file_in("/input.mp4"),
        file_out("/output.gif"),
        480,
        15_000_000,
        Some(5_000_000),
        Some(10_000_000),
    );
    assert!(job.format.no_audio);
    assert_eq!(job.format.container, Container::Gif);
    assert_eq!(job.start_time, Some(5_000_000));
    assert_eq!(job.duration, Some(10_000_000));
}

#[test]
fn thumbnail_job_seeks_to_time() {
    let job = thumbnail_job(file_in("/input.mp4"), file_out("/thumb.jpg"), 5_000_000);
    assert_eq!(job.start_time, Some(5_000_000));
    assert!(job.format.no_audio);
}

fn stream(index: usize, t: StreamType) -> StreamInfo {
    StreamInfo {
        index,
        stream_type: t,
        codec_name: "c".to_string(),
        codec_long_name: None,
        bitrate: None,
        duration_us: None,
        width: None,
        height: None,
        fps: None,
        pixel_format: None,
        sample_rate: None,
        channels: None,
        sample_format: None,
        metadata: Vec::new(),
    }
}

#[test]
fn media_info_helpers() {
    let mut v = stream(0, StreamType::Video);
    v.codec_name = "h264".to_string();
    v.bitrate = Some(800_000);
    v.width = Some(1920);
    v.height = Some(1080);
    v.fps = Some(30_000_000);
    v.pixel_format = Some("yuv420p".to_string());
    let mut a = stream(1, StreamType::Audio);
    a.codec_name = "aac".to_string();
    a.bitrate = Some(128_000);
    a.sample_rate = Some(44100);
    a.channels = Some(2);
    a.sample_format = Some("fltp".to_string());
    let info = MediaInfo {
        container: Some(Container::Mp4),
        format_name: "mov,mp4,m4a".to_string(),
        duration_us: Some(60_000_000),
        bitrate: Some(1_000_000),
        streams: vec![v, a],
        metadata: Vec::new(),
    };

    assert!(info.has_video());
    assert!(info.has_audio());
    assert_eq!(info.video_streams().len(), 1);
    assert_eq!(info.audio_streams().len(), 1);
    assert_eq!(info.video_stream().unwrap().width, Some(1920));
    assert_eq!(info.audio_stream().unwrap().sample_rate, Some(44100));
}

#[test]
fn media_info_without_streams() {
    let info = MediaInfo {
        container: None,
        format_name: String::new(),
        duration_us: None,
        bitrate: None,
        streams: vec![stream(0, StreamType::Subtitle), stream(1, StreamType::Audio), stream(2, StreamType::Audio)],
        metadata: Vec::new(),
    };
    assert!(!info.has_video());
    assert!(info.video_stream().is_none());
    assert_eq!(info.audio_stream().unwrap().index, 1);
    assert_eq!(info.audio_streams().len(), 2);
}

#[test]
fn container_guessing() {
    assert_eq!(guess_container_from_format("mov,mp4,m4a,3gp"), Some(Container::Mp4));
    assert_eq!(guess_container_from_format("matroska,webm"), Some(Container::Mkv));
    assert_eq!(guess_container_from_format("foo, wav"), Some(Container::Wav));
    assert_eq!(guess_container_from_format("image2"), None);
    assert_eq!(probed_container("/x/clip.mkv", "mov"), Some(Container::Mkv));
    assert_eq!(probed_container("/x/clip", "mpegts"), Some(Container::Ts));
    assert_eq!(stream_type_of(Some("audio")), StreamType::Audio);
    assert_eq!(stream_type_of(Some("Audio")), StreamType::Unknown);
    assert_eq!(stream_type_of(None), StreamType::Unknown);
}

#[test]
fn progress_percent_calculation() {
    let e = ProgressEvent::new(30_000_000, Some(60_000_000));
    assert!((e.percent.unwrap() - 50_000_000).abs() < 10_000);
}

#[test]
fn progress_percent_caps_at_100() {
    let e = ProgressEvent::new(70_000_000, Some(60_000_000));
    assert!((e.percent.unwrap() - 100_000_000).abs() < 10_000);
}

#[test]
fn progress_no_duration() {
    let e = ProgressEvent::new(10_000_000, None);
    assert!(e.percent.is_none());
}

#[test]
fn progress_zero_duration() {
    let e = ProgressEvent::new(0, Some(0));
    assert!((e.percent.unwrap() - 100_000_000).abs() < 10_000);
}

#[test]
fn no_progress_handler_compiles() {
    let mut h = NoProgress;
    let e = ProgressEvent::new(1_000_000, None);
    h.on_progress(&e);
    h.on_complete();
    h.on_error("test");
}

fn options(preset: Option<&str>, codec: Option<&str>, bitrate: Option<&str>) -> PluginOptions {
    PluginOptions {
        preset: preset.map(str::to_string),
        codec: codec.map(str::to_string),
        bitrate: bitrate.map(str::to_string),
        sample_rate: Some("22050".to_string()),
        channels: Some("x".to_string()),
    }
}

#[test]
fn plugin_format_choices() {
    let (f, w) = plugin_format(&options(None, None, Some("128k")));
    assert_eq!(f.container, Container::Mp3);
    let a = f.audio.unwrap();
    assert_eq!(a.codec, AudioCodec::Mp3);
    assert_eq!(a.bitrate, Some(128_000));
    assert_eq!(a.sample_rate, Some(22050));
    assert_eq!(a.channels, None);
    assert!(w.is_empty());

    let (f, w) = plugin_format(&options(None, Some("bogus"), None));
    assert_eq!(f.container, Container::Mp3);
    assert_eq!(f.audio.unwrap().codec, AudioCodec::Mp3);
    assert_eq!(w, vec!["unknown codec 'bogus', using mp3"]);

    let (f, w) = plugin_format(&options(Some("hq-flac"), Some("mp3"), None));
    assert_eq!(f.container, Container::Flac);
    assert!(w.is_empty());

    let (f, w) = plugin_format(&options(Some("nope"), Some("opus"), None));
    assert_eq!(f.container, Container::Ogg);
    assert_eq!(w, vec!["unknown preset 'nope', falling back to defaults"]);
    assert_eq!(default_container_for_codec(AudioCodec::Ac3), Container::Ts);
}

#[test]
fn cli_decisions() {
    assert_eq!(log_level(true, true), "debug");
    assert_eq!(log_level(false, true), "warn");
    assert_eq!(log_level(false, false), "info");
    let c = start_config(
        Config::with_work_dir("/w".to_string()),
        StartOverrides { host: Some("0.0.0.0".to_string()), port: None, workers: Some(8), token: None, enable_raw: true },
        Some("global".to_string()),
    );
    assert_eq!(c.host, "0.0.0.0");
    assert_eq!(c.port, 3400);
    assert_eq!(c.workers, 8);
    assert_eq!(c.token.as_deref(), Some("global"));
    assert!(c.raw_enabled);
    assert_eq!(parse_pid(" 1234\n"), Some(1234));
    assert_eq!(parse_pid("x"), None);
    let a = local_attachment("file", "/media/clip.mov");
    assert_eq!(a.filename, "clip.mov");
    assert_eq!(local_attachment("file", "/").filename, "input");
    assert_eq!(input_field(0), "file");
    assert_eq!(input_field(2), "file3");
    assert_eq!(raw_cli_args(&vec!["-vf".to_string(), "hue=s=0".to_string()]), vec!["-i", "INPUT", "-vf", "hue=s=0", "OUTPUT"]);
    assert_eq!(raw_output_ext("out.mp4"), "mp4");
    assert_eq!(raw_output_ext("out"), "mkv");
    assert_eq!(convert_format(None, false, "a/b.WEBM").as_deref(), Some("webm"));
    assert_eq!(convert_format(None, true, "a/b.webm"), None);
    assert_eq!(convert_format(Some("mp4"), true, "a/b.webm").as_deref(), Some("mp4"));
}

#[test]
fn manifest_reading() {
    let lines = parse_manifest("# jobs\n\n a.wav  a.mp3 podcast-mp3\nonly-one\nb.mov b.mp4\n");
    assert_eq!(lines.len(), 3);
    match &lines[0] {
        ManifestLine::Job { input, output, preset } => {
            assert_eq!(input, "a.wav");
            assert_eq!(output, "a.mp3");
            assert_eq!(preset.as_deref(), Some("podcast-mp3"));
        }
        _ => panic!("expected a job"),
    }
    assert!(matches!(&lines[1], ManifestLine::Invalid(l) if l == "only-one"));
    assert!(matches!(&lines[2], ManifestLine::Job { preset: None, .. }));
}

#[test]
fn percent_stays_within_bounds() {
    for (pos, dur) in [(0u64, 1u64), (1, 3), (2, 3), (3, 3), (7, 3), (5, 0), (u64::MAX - 1, u64::MAX)] {
        let p = ProgressEvent::new(pos, Some(dur)).percent.unwrap();
        assert!((0..=100_000_000).contains(&p), "{pos}/{dur} -> {p}");
    }
    assert_eq!(ProgressEvent::new(1, Some(3)).percent, Some(33_333_333));
}

#[test]
fn audio_job_with_detailed_settings() {
    let settings = AudioSettings::new(AudioCodec::Opus).with_bitrate(96_000).with_channels(1);
    let job: TranscodeJob =
        convert_audio_job_with_settings(file_in("/in.wav"), file_out("/out.ogg"), Container::Ogg, settings);
    assert_eq!(job.format.container, Container::Ogg);
    let a = job.format.audio.as_ref().unwrap();
    assert_eq!(a.codec, AudioCodec::Opus);
    assert_eq!(a.bitrate, Some(96_000));
    assert_eq!(a.channels, Some(1));
    assert!(job.format.video.is_none());
    assert!(job.format.no_video);
    assert_eq!(job.start_time, None);
}

#[test]
fn remote_urls_join_base_and_path() {
    assert_eq!(api_url("http://host:3400", "presets"), "http://host:3400/api/v1/presets");
    assert_eq!(api_url("http://host:3400//", "/jobs/x/status"), "http://host:3400/api/v1/jobs/x/status");
    assert_eq!(api_url("", ""), "/api/v1/");
}

#[test]
fn remote_wait_steps() {
    assert!(matches!(wait_step("completed", None), WaitStep::Done));
    assert!(matches!(wait_step("cancelled", Some("x")), WaitStep::Cancelled));
    assert!(matches!(wait_step("running", None), WaitStep::Poll));
    assert!(matches!(wait_step("", None), WaitStep::Poll));
    match wait_step("failed", Some("boom")) {
        WaitStep::Failed(m) => assert_eq!(m, "job failed: boom"),
        other => panic!("unexpected {other:?}"),
    }
    match wait_step("failed", None) {
        WaitStep::Failed(m) => assert_eq!(m, "job failed: unknown error"),
        other => panic!("unexpected {other:?}"),
    }
}

fn probed(index: u64, codec_type: &str, codec_name: &str) -> ProbedStream {
    ProbedStream {
        index: Some(index),
        codec_type: Some(codec_type.to_string()),
        codec_name: Some(codec_name.to_string()),
        codec_long_name: None,
        bit_rate: None,
        duration_us: None,
        width: None,
        height: None,
        fps: None,
        pix_fmt: None,
        sample_rate: None,
        channels: None,
        sample_fmt: None,
        tags: vec![],
    }
}

#[test]
fn parse_media_info_from_json() {
    let json = r#"{
                "streams": [
                    {"index":0,"codec_type":"video","codec_name":"h264","width":1920,"height":1080,"avg_frame_rate":"30/1","pix_fmt":"yuv420p","bit_rate":"800000"},
                    {"index":1,"codec_type":"audio","codec_name":"aac","sample_rate":"44100","channels":2,"sample_fmt":"fltp"}
                ],
                "format": {"format_name":"mov,mp4,m4a","duration":"60.0","bit_rate":"1000000","tags":{"title":"Test"}}
            }"#;
    let info = probe_output("x.mp4", json.as_bytes()).unwrap();
    assert_eq!(info.streams.len(), 2);
    assert!(info.has_video());
    assert!(info.has_audio());
    assert_eq!(info.video_stream().unwrap().width, Some(1920));
    assert_eq!(info.audio_stream().unwrap().sample_rate, Some(44100));
    assert_eq!(info.duration_us, Some(60_000_000));
    assert_eq!(info.metadata, vec![("title".to_string(), "Test".to_string())]);
}

#[test]
fn parse_rational_works() {
    let fps = parse_rational_micros("30000/1001").unwrap();
    assert!((fps - 29_970_000).abs() < 10_000);
    assert_eq!(fps, 29_970_030);
    assert_eq!(parse_rational_micros("25/1"), Some(25_000_000));
    assert!(parse_rational_micros("0/0").is_none());
    assert!(parse_rational_micros("25").is_none());
    assert!(parse_rational_micros("1/2/3").is_none());
}

#[test]
fn probe_report_fields_as_found() {
    let json = r#"{"streams":[
        {"index":3,"codec_type":"subtitle","avg_frame_rate":"0/0","r_frame_rate":"25/1","duration":"1.2345675","tags":{"language":"eng","n":5}},
        {"codec_type":"video","r_frame_rate":"24000/1001","width":"640","bit_rate":1500,"channels":-1},
        {}
    ],"format":{"format_name":"matroska,webm"}}"#;
    let info = probe_output("/tmp/blob", json.as_bytes()).unwrap();
    assert_eq!(info.container, Some(Container::Mkv));
    assert_eq!(info.format_name, "matroska,webm");
    assert_eq!(info.duration_us, None);
    assert_eq!(info.streams.len(), 3);
    let s = &info.streams[0];
    assert_eq!(s.index, 3);
    assert_eq!(s.stream_type, StreamType::Subtitle);
    assert_eq!(s.fps, None);
    assert_eq!(s.duration_us, Some(1_234_568));
    assert_eq!(s.metadata, vec![("language".to_string(), "eng".to_string())]);
    let s = &info.streams[1];
    assert_eq!(s.index, 0);
    assert_eq!(s.fps, Some(23_976_024));
    assert_eq!(s.width, None);
    assert_eq!(s.bitrate, Some(1500));
    assert_eq!(s.channels, None);
    assert_eq!(s.codec_name, "unknown");
    assert_eq!(info.streams[2].stream_type, StreamType::Unknown);
}

#[test]
fn probe_report_that_is_not_json() {
    match probe_output("x.mp4", b"not json") {
        Err(MediaError::Probe(ProbeError::Ffmpeg(m))) => assert!(m.starts_with("invalid ffprobe JSON: ")),
        _ => panic!("expected a probe error"),
    }
}

#[test]
fn decimal_seconds_in_millionths() {
    assert_eq!(parse_decimal_micros("60.0"), Some(60_000_000));
    assert_eq!(parse_decimal_micros("12.345678"), Some(12_345_678));
    assert_eq!(parse_decimal_micros("0.0000005"), Some(1));
    assert_eq!(parse_decimal_micros("0.0000004"), Some(0));
    assert_eq!(parse_decimal_micros("+.5"), Some(500_000));
    assert_eq!(parse_decimal_micros("7."), Some(7_000_000));
    assert_eq!(parse_decimal_micros("."), None);
    assert_eq!(parse_decimal_micros("-1"), None);
    assert_eq!(parse_decimal_micros("1e3"), None);
    assert_eq!(parse_decimal_micros("1.2.3"), None);
    assert_eq!(parse_decimal_micros("99999999999999999999"), None);
}

#[test]
fn probed_stream_defaults_and_narrowing() {
    let mut p = probed(3, "weird", "x");
    p.index = None;
    p.codec_name = None;
    p.width = Some((1u64 << 32) + 7);
    p.channels = Some(65_538);
    let s = stream_info_of(p);
    assert_eq!(s.index, 0);
    assert_eq!(s.codec_name, "unknown");
    assert_eq!(s.stream_type, StreamType::Unknown);
    assert_eq!(s.width, Some(7));
    assert_eq!(s.channels, Some(2));
}

#[test]
fn probed_container_falls_back_to_format_name() {
    let format = ProbedFormat { format_name: Some("matroska,webm".to_string()), duration_us: None, bit_rate: None, tags: vec![] };
    assert_eq!(media_info_of("/tmp/blob", format, vec![]).container, Some(Container::Mkv));
    let format = ProbedFormat { format_name: None, duration_us: None, bit_rate: None, tags: vec![] };
    let info = media_info_of("/tmp/blob", format, vec![]);
    assert_eq!(info.container, None);
    assert_eq!(info.format_name, "");
}
