use media_convertor::codec::{AudioCodec, VideoCodec};
use media_convertor::config::Config;
use media_convertor::container::Container;
use media_convertor::error::MediaError;
use media_convertor::ffmpeg::capabilities::{
    discover, parse_codecs, parse_filters, parse_format_list, parse_pix_fmts, parse_protocols,
    Capabilities, ToolListings,
};
use media_convertor::ffmpeg::command::{
    concat_args, extract_audio_args, filter_args, thumbnail_args, transcode_args, Trim,
};
use media_convertor::ffmpeg::locate::{located_tools, parse_version, tool_binary, Tools};
use media_convertor::ffmpeg::run::{run_outcome, tail_chars, watch_step, ProgressReader};
use media_convertor::ffmpeg::{CancelToken, Engine, MediaKind};
use media_convertor::format::{AudioSettings, MediaFormat, VideoSettings};

#[test]
fn audio_transcode_args() {
    let fmt = MediaFormat::audio_only(
        Container::Mp3,
        AudioSettings::new(AudioCodec::Mp3).with_bitrate(128_000).with_sample_rate(44100).with_channels(1),
    );
    let args = transcode_args("in.wav", "out.mp3", &fmt, &Trim::default());
    assert!(args.contains(&"-c:a".to_string()));
    assert!(args.contains(&"libmp3lame".to_string()));
    assert!(args.contains(&"-b:a".to_string()));
    assert!(args.contains(&"128000".to_string()));
    assert!(args.contains(&"-vn".to_string()));
    assert_eq!(args.last().unwrap(), "out.mp3");
}

#[test]
fn video_transcode_with_scale_and_crf() {
    let fmt = MediaFormat::video(
        Container::Mp4,
        VideoSettings::new(VideoCodec::H264).with_crf(23).with_resolution(1280, 720),
        AudioSettings::new(AudioCodec::Aac).with_bitrate(128_000),
    );
    let args = transcode_args("in.mov", "out.mp4", &fmt, &Trim::default());
    assert!(args.contains(&"libx264".to_string()));
    assert!(args.contains(&"-crf".to_string()));
    assert!(args.contains(&"23".to_string()));
    assert!(args.iter().any(|a| a == "scale=1280:720"));
}

#[test]
fn copy_modes() {
    let mut fmt = MediaFormat::remux(Container::Mkv);
    fmt.copy_video = true;
    fmt.copy_audio = true;
    let args = transcode_args("in.mp4", "out.mkv", &fmt, &Trim::default());
    let joined = args.join(" ");
    assert!(joined.contains("-c:v copy"));
    assert!(joined.contains("-c:a copy"));
}

#[test]
fn trim_applied() {
    let fmt = MediaFormat::remux(Container::Mkv);
    let trim = Trim { start: Some(1_500_000), end: Some(10_000_000), duration: None };
    let args = transcode_args("i", "o.mkv", &fmt, &trim);
    assert!(args.contains(&"-ss".to_string()));
    assert!(args.contains(&"1.5".to_string()));
    assert!(args.contains(&"-to".to_string()));
}

#[test]
fn gif_has_no_codec_flag() {
    let fmt = MediaFormat {
        container: Container::Gif,
        audio: None,
        video: Some(VideoSettings::new(VideoCodec::H264).with_fps(15_000_000)),
        copy_audio: false,
        copy_video: false,
        no_audio: true,
        no_video: false,
    };
    let args = transcode_args("i.mp4", "o.gif", &fmt, &Trim::default());
    assert!(!args.contains(&"-c:v".to_string()));
    assert!(args.contains(&"-an".to_string()));
}

#[test]
fn transcode_args_exact() {
    let fmt = MediaFormat::video(
        Container::Mp4,
        VideoSettings::new(VideoCodec::H265)
            .with_crf(20)
            .with_resolution(640, 360)
            .with_fps(25_000_000)
            .with_encoder_preset("slow")
            .with_pixel_format("yuv420p"),
        AudioSettings::new(AudioCodec::Opus).with_bitrate(96_000).with_channels(2),
    );
    let trim = Trim { start: None, end: None, duration: Some(2_000_000) };
    let args = transcode_args("a.mov", "b.mp4", &fmt, &trim);
    let expected: Vec<&str> = vec![
        "-i", "a.mov", "-t", "2", "-c:v", "libx265", "-crf", "20", "-preset", "slow", "-pix_fmt",
        "yuv420p", "-vf", "scale=640:360", "-r", "25", "-c:a", "libopus", "-b:a", "96000", "-ac", "2",
        "b.mp4",
    ];
    assert_eq!(args, expected);
    let gif = media_convertor::preset::Preset::by_name("gif").unwrap();
    let args = transcode_args("in.mp4", "out.gif", &gif.format, &Trim::default());
    assert_eq!(args, vec!["-i", "in.mp4", "-vf", "scale=480:-2,fps=15", "-an", "out.gif"]);
}

#[test]
fn other_builders_exact() {
    assert_eq!(
        thumbnail_args("v.mkv", "t.jpg", 5_000_000, Some(320)),
        vec!["-ss", "5", "-i", "v.mkv", "-frames:v", "1", "-vf", "scale=320:-2", "t.jpg"]
    );
    assert_eq!(thumbnail_args("v", "t", 0, None), vec!["-ss", "0", "-i", "v", "-frames:v", "1", "t"]);
    assert_eq!(extract_audio_args("i", "o", None), vec!["-i", "i", "-vn", "-c:a", "copy", "o"]);
    assert_eq!(extract_audio_args("i", "o", Some("aac")), vec!["-i", "i", "-vn", "-c:a", "aac", "o"]);
    assert_eq!(filter_args("i", "o", "hflip"), vec!["-i", "i", "-vf", "hflip", "o"]);
    assert_eq!(
        concat_args("l.txt", "o.mkv"),
        vec!["-f", "concat", "-safe", "0", "-i", "l.txt", "o.mkv"]
    );
}

#[test]
fn parse_encoders_sample() {
    let sample = "\
Encoders:
 V..... = Video
 ------
 V....D libx264              libx264 H.264 / AVC / MPEG-4 AVC
 A....D aac                  AAC (Advanced Audio Coding)
 S..... ass                  ASS (Advanced SubStation Alpha) subtitle
";
    let codecs = parse_codecs(sample);
    assert!(codecs.iter().any(|c| c.name == "libx264" && c.kind == MediaKind::Video));
    assert!(codecs.iter().any(|c| c.name == "aac" && c.kind == MediaKind::Audio));
    assert!(codecs.iter().any(|c| c.name == "ass" && c.kind == MediaKind::Subtitle));
}

#[test]
fn parse_encoders_fields_exact() {
    let sample = " ------\n V....D libx264              libx264 H.264 / AVC\n X..... skipme  desc\n";
    let codecs = parse_codecs(sample);
    assert_eq!(codecs.len(), 1);
    assert_eq!(codecs[0].description, "libx264 H.264 / AVC");
}

#[test]
fn parse_filters_sample() {
    let sample = "\
Filters:
 T.. = Timeline support
 ... scale            V->V       Scale the input video size.
 ... aresample        A->A       Resample audio data.
";
    let filters = parse_filters(sample);
    assert!(filters.iter().any(|f| f.name == "scale" && f.io == "V->V"));
    assert!(filters.iter().any(|f| f.name == "aresample"));
}

#[test]
fn parse_filters_description_words() {
    let filters = parse_filters(" ... scale   V->V   Scale   the  input.\n T.. = Timeline\n");
    assert_eq!(filters.len(), 1);
    assert_eq!(filters[0].description, "Scale the input.");
}

#[test]
fn parse_protocols_sections() {
    let sample = "Supported file protocols:\nInput:\n  file\n  http\nOutput:\n  file\n  md5\n";
    let (i, o) = parse_protocols(sample);
    assert!(i.contains(&"file".to_string()));
    assert!(i.contains(&"http".to_string()));
    assert!(o.contains(&"md5".to_string()));
}

#[test]
fn parse_lists_exact() {
    let (names, rest) = parse_format_list(" E mp4  MP4\n DE matroska  Matroska\n D  \n x\n", b'E');
    assert_eq!(names, vec!["mp4", "matroska"]);
    assert!(rest.is_empty());
    let pix = parse_pix_fmts("Pixel formats:\nFLAGS NAME\n-----\nIO... yuv420p 3 12\nIO...\n");
    assert_eq!(pix, vec!["yuv420p"]);
}

#[test]
fn parse_version_from_banner() {
    let text = "ffmpeg version 8.1.2 Copyright (c) 2000-2026 the FFmpeg developers\nbuilt with ...";
    assert_eq!(parse_version(text).as_deref(), Some("8.1.2"));
}

#[test]
fn parse_version_handles_distro_format() {
    let text = "ffmpeg version n6.1.1 Copyright (c)";
    assert_eq!(parse_version(text).as_deref(), Some("n6.1.1"));
}

#[test]
fn parse_version_empty() {
    assert!(parse_version("").is_none());
}

fn tools() -> Tools {
    Tools { ffmpeg: "ffmpeg".to_string(), ffprobe: "ffprobe".to_string(), version: "8.1".to_string() }
}

fn listings() -> ToolListings {
    ToolListings {
        encoders: " V..... = Video\n ------\n V....D libx264  H.264\n A....D aac  AAC\n".to_string(),
        decoders: " A..... = Audio\n ------\n A....D mp3  MP3\n".to_string(),
        filters: " ... scale  V->V  Scale.\n".to_string(),
        muxers: " E mp4  MP4\n".to_string(),
        demuxers: " D mov  QuickTime\n".to_string(),
        pix_fmts: "-----\nIO... yuv420p 3 12\n".to_string(),
        protocols: "Input:\n file\nOutput:\n file\n".to_string(),
    }
}

#[test]
fn discover_and_query() {
    let caps: Capabilities = discover(&tools(), &listings());
    assert_eq!(caps.version, "8.1");
    assert!(caps.has_encoder("libx264"));
    assert!(!caps.has_encoder("libx265"));
    assert!(caps.has_decoder("mp3"));
    assert!(caps.has_filter("scale"));
    assert!(caps.has_muxer("mp4"));
    assert!(!caps.has_muxer("mov"));
    let audio = caps.encoders_of(MediaKind::Audio);
    assert_eq!(audio.len(), 1);
    assert_eq!(audio[0].name, "aac");
    assert_eq!(caps.protocols_output, vec!["file"]);
}

#[test]
fn engine_run_args() {
    let mut config = Config::with_work_dir("/w".to_string());
    config.threads = 4;
    config.job_timeout_secs = 60;
    let engine = Engine::new(&config, tools(), discover(&tools(), &listings()));
    assert_eq!(engine.tools().version, "8.1");
    assert!(engine.capabilities().has_filter("scale"));
    assert_eq!(engine.job_timeout_secs(), 60);
    let args = engine.run_args(&vec!["-i".to_string(), "x".to_string()]);
    assert_eq!(
        args,
        vec![
            "-hide_banner", "-nostdin", "-y", "-loglevel", "error", "-protocol_whitelist",
            "file,crypto", "-progress", "pipe:1", "-nostats", "-threads", "4", "-i", "x",
        ]
    );
}

#[test]
fn progress_reader_blocks() {
    let mut r = ProgressReader::new();
    assert!(r.feed("frame=10").is_none());
    assert!(r.feed("out_time_us=1500000").is_none());
    assert!(r.feed("total_size=2048").is_none());
    assert!(r.feed("speed= 2.5x").is_none());
    assert!(r.feed("no equals sign").is_none());
    let u = r.feed("progress=continue").unwrap();
    assert_eq!(u.out_time_us, Some(1_500_000));
    assert_eq!(u.total_size, Some(2048));
    assert_eq!(u.speed.as_deref(), Some("2.5"));
    assert!(!u.done);
    assert!(r.feed("out_time_ms=bogus").is_none());
    let last = r.feed("progress=end").unwrap();
    assert_eq!(last.out_time_us, None);
    assert!(last.done);
}

#[test]
fn watching_and_outcome() {
    let (reason, kill) = watch_step(None, true, true, 30);
    assert!(matches!(reason, Some(MediaError::Cancelled)));
    assert!(kill);
    let (reason, kill) = watch_step(None, false, true, 30);
    assert!(matches!(reason, Some(MediaError::Timeout(30))));
    assert!(kill);
    let (reason, kill) = watch_step(Some(MediaError::Cancelled), false, true, 30);
    assert!(matches!(reason, Some(MediaError::Cancelled)));
    assert!(!kill);
    assert!(run_outcome(None, true, "exit status: 0", "").is_ok());
    match run_outcome(None, false, "exit status: 1", "  bad input \n") {
        Err(MediaError::Ffmpeg(m)) => assert_eq!(m, "ffmpeg exited with exit status: 1: bad input"),
        _ => panic!("expected an ffmpeg error"),
    }
    match run_outcome(None, false, "exit status: 1", " \n") {
        Err(MediaError::Ffmpeg(m)) => assert_eq!(m, "ffmpeg exited with exit status: 1"),
        _ => panic!("expected an ffmpeg error"),
    }
    assert!(matches!(run_outcome(Some(MediaError::Timeout(5)), true, "", ""), Err(MediaError::Timeout(5))));
    assert_eq!(tail_chars("abcdef", 3), "def");
    assert_eq!(tail_chars("ab", 3), "ab");
}

#[test]
fn engine_cancel_token() {
    let token = CancelToken::new();
    let clone = token.clone();
    assert!(!clone.is_cancelled());
    token.cancel();
    assert!(clone.is_cancelled());
}

#[test]
fn located_tools_default_names_and_version() {
    assert_eq!(tool_binary(None, "ffmpeg"), "ffmpeg");
    assert_eq!(tool_binary(Some("/opt/ff/bin/ffmpeg"), "ffmpeg"), "/opt/ff/bin/ffmpeg");
    let t = located_tools(
        "ffmpeg".to_string(),
        "ffprobe".to_string(),
        "ffmpeg version 8.1.2 Copyright (c) 2000-2026\nbuilt with gcc",
    );
    assert_eq!(t.version, "8.1.2");
    assert_eq!(t.ffprobe, "ffprobe");
    let t = located_tools("a".to_string(), "b".to_string(), "garbage");
    assert_eq!(t.version, "unknown");
}

#[test]
fn legend_lines_are_not_codecs() {
    let sample = "Encoders:\n V..... = Video\n A..... = Audio\n S..... = Subtitle\n .F.... = Frame-level multithreading\n ------\n V....D libx264  H.264\n";
    let codecs = parse_codecs(sample);
    assert_eq!(codecs.len(), 1);
    assert_eq!(codecs[0].name, "libx264");
    assert!(parse_codecs(" V..... = Video\n V....D libx264  H.264\n").is_empty());
    let caps = discover(&tools(), &listings());
    assert!(!caps.has_encoder("="));
    assert_eq!(caps.encoders.len(), 2);
}

#[test]
fn speed_kept_only_when_numeric() {
    let mut r = ProgressReader::new();
    assert!(r.feed("speed=N/A").is_none());
    let u = r.feed("progress=continue").unwrap();
    assert_eq!(u.speed, None);
    for (text, kept) in [
        ("speed=1.25x", Some("1.25")),
        ("speed=  3x ", Some("3")),
        ("speed=.5x", Some(".5")),
        ("speed=1e3x", Some("1e3")),
        ("speed=-inf", Some("-inf")),
        ("speed=NaN", Some("NaN")),
        ("speed=1.2.3x", None),
        ("speed=x", None),
        ("speed=e5", None),
        ("speed=1e", None),
    ] {
        let mut r = ProgressReader::new();
        r.feed(text);
        let u = r.feed("progress=end").unwrap();
        assert_eq!(u.speed.as_deref(), kept, "{text}");
        if let Some(k) = kept {
            assert!(k.parse::<f64>().is_ok(), "{k}");
        }
    }
}
