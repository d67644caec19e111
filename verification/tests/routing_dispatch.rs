use media_convertor::api_queue::{
    workers_for, Attachment, BodyValue, Job, JobResult, JobStatus, JobStore, Method, ProgressReporter, ProgressThrottle, QueueHandler,
    RequestBody, UniversalRequest, PROGRESS_DONE,
};
use media_convertor::config::Config;
use media_convertor::container::Container;
use media_convertor::dispatch::{finalize_output, FfmpegHandler, Plan};
use media_convertor::error::{MediaError, PresetError};
use media_convertor::ffmpeg::capabilities::{discover, ToolListings};
use media_convertor::ffmpeg::locate::Tools;
use media_convertor::ffmpeg::Engine;
use media_convertor::operation::{
    bitrate_fits, normalize_path, parse_bitrate, CapKind, ConvertRequest, Operation,
};

#[test]
fn bitrate_parsing() {
    assert_eq!(parse_bitrate("128k").unwrap(), 128_000);
    assert_eq!(parse_bitrate("192000").unwrap(), 192_000);
    assert_eq!(parse_bitrate("1M").unwrap(), 1_000_000);
    assert!(parse_bitrate("abc").is_err());
}

#[test]
fn bitrate_edges() {
    assert_eq!(parse_bitrate("  64K ").unwrap(), 64_000);
    assert_eq!(parse_bitrate("+5").unwrap(), 5);
    match parse_bitrate(" 12x ") {
        Err(MediaError::Other(m)) => assert_eq!(m, "invalid bitrate: 12x"),
        _ => panic!("expected an invalid bitrate"),
    }
    assert!(!bitrate_fits("4294968k"));
    assert!(bitrate_fits("4294967k"));
    assert!(bitrate_fits("4294967"));
    assert!(bitrate_fits("nonsense"));
}

#[test]
fn build_format_from_preset() {
    let cr = ConvertRequest { preset: Some("podcast-mp3".to_string()), ..Default::default() };
    let fmt = cr.build_format(None).unwrap();
    assert_eq!(fmt.container, Container::Mp3);
    assert!(fmt.audio.is_some());
}

#[test]
fn build_format_from_flags() {
    let cr = ConvertRequest {
        format: Some("mp4".to_string()),
        video_codec: Some("h264".to_string()),
        crf: Some(20),
        audio_codec: Some("aac".to_string()),
        audio_bitrate: Some("128k".to_string()),
        ..Default::default()
    };
    let fmt = cr.build_format(None).unwrap();
    assert_eq!(fmt.container, Container::Mp4);
    assert_eq!(fmt.video.as_ref().unwrap().crf, Some(20));
    assert_eq!(fmt.audio.as_ref().unwrap().bitrate, Some(128_000));
}

#[test]
fn convert_requires_container() {
    let cr = ConvertRequest::default();
    assert!(cr.build_format(None).is_err());
    assert!(cr.build_format(Some(Container::Mkv)).is_ok());
}

#[test]
fn build_format_errors_in_order() {
    let cr = ConvertRequest {
        format: Some("zzz".to_string()),
        video_codec: Some("nope".to_string()),
        ..Default::default()
    };
    match cr.build_format(None) {
        Err(MediaError::UnsupportedFormat(m)) => assert_eq!(m, "unknown container: zzz"),
        _ => panic!("expected an unknown container"),
    }
    let cr = ConvertRequest { preset: Some("nope".to_string()), ..Default::default() };
    assert!(matches!(cr.build_format(None), Err(MediaError::Preset(PresetError::Unknown(_)))));
    let cr = ConvertRequest {
        format: Some("mkv".to_string()),
        audio_codec: Some("opus".to_string()),
        no_audio: true,
        ..Default::default()
    };
    let fmt = cr.build_format(None).unwrap();
    assert!(fmt.audio.is_none());
    assert!(fmt.no_audio);
}

#[test]
fn cap_kind_parse() {
    assert_eq!(CapKind::parse("encoders"), Some(CapKind::Encoders));
    assert_eq!(CapKind::parse(""), Some(CapKind::All));
    assert_eq!(CapKind::parse("nope"), None);
    assert_eq!(CapKind::parse("Pixel_Formats"), Some(CapKind::PixFmts));
}

fn body(fields: Vec<(&str, BodyValue)>) -> RequestBody {
    RequestBody {
        fields: fields.into_iter().map(|(k, v)| (k.to_string(), v)).collect(),
        as_convert: Err("not a conversion request".to_string()),
    }
}

fn text(s: &str) -> BodyValue {
    BodyValue::Text { text: s.to_string(), text_micros: None }
}

fn attachment(path: &str, filename: &str) -> Attachment {
    Attachment { field: "file".to_string(), filename: filename.to_string(), path: path.to_string() }
}

#[test]
fn normalize_paths() {
    assert_eq!(normalize_path("/api/v1/convert/"), "convert");
    assert_eq!(normalize_path("convert"), "convert");
    assert_eq!(normalize_path("//api/v1//probe"), "probe");
}

#[test]
fn routing_operations() {
    let req = UniversalRequest::post("/api/v1/extract-audio")
        .with_body(body(vec![("codec", text("aac")), ("format", text("mka"))]));
    match Operation::from_request(&req).unwrap() {
        Operation::ExtractAudio { codec, container } => {
            assert_eq!(codec.as_deref(), Some("aac"));
            assert_eq!(container, Container::M4a);
        }
        _ => panic!("expected extract-audio"),
    }
    let req = UniversalRequest::post("thumbnail").with_body(body(vec![
        ("time", BodyValue::Number { value_micros: 5_000_000, unsigned: Some(5) }),
        ("width", text("320")),
    ]));
    match Operation::from_request(&req).unwrap() {
        Operation::Thumbnail { time, width } => {
            assert_eq!(time, 5_000_000);
            assert_eq!(width, Some(320));
        }
        _ => panic!("expected thumbnail"),
    }
    let req = UniversalRequest::post("filter");
    match Operation::from_request(&req) {
        Err(MediaError::Other(m)) => assert_eq!(m, "filter requires a `graph`"),
        _ => panic!("expected a missing graph"),
    }
    let req = UniversalRequest::get("capabilities").with_query("kind", "FILTERS");
    assert!(matches!(
        Operation::from_request(&req),
        Ok(Operation::Capabilities { kind: CapKind::Filters })
    ));
    let req = UniversalRequest::post("raw").with_body(body(vec![
        ("args", BodyValue::Array(vec![Some("-i".to_string()), None, Some("INPUT".to_string())])),
        ("output_ext", text("..mp4")),
    ]));
    match Operation::from_request(&req).unwrap() {
        Operation::Raw { args, output_ext } => {
            assert_eq!(args, vec!["-i", "INPUT"]);
            assert_eq!(output_ext, "mp4");
        }
        _ => panic!("expected raw"),
    }
    let req = UniversalRequest::new(Method::Delete, "/api/v1/jobs/");
    match Operation::from_request(&req) {
        Err(MediaError::Other(m)) => assert_eq!(m, "no operation for Delete /jobs"),
        _ => panic!("expected no operation"),
    }
    let req = UniversalRequest::post("convert");
    match Operation::from_request(&req) {
        Err(MediaError::Other(m)) => {
            assert_eq!(m, "invalid request body: invalid type: null, expected struct ConvertRequest")
        }
        _ => panic!("expected a body error"),
    }
    let op = Operation::from_request(&UniversalRequest::get("presets")).unwrap();
    assert!(op.is_inline());
    assert_eq!(op.input_count(), 0);
    assert_eq!(op.output_extension(Some("mov")), "json");
    let op = Operation::Filter { graph: "hflip".to_string(), container: None };
    assert_eq!(op.output_extension(Some("mov")), "mov");
    assert_eq!(op.output_extension(None), "mkv");
}

fn handler(raw_enabled: bool) -> FfmpegHandler {
    let tools =
        Tools { ffmpeg: "ffmpeg".to_string(), ffprobe: "ffprobe".to_string(), version: "8".to_string() };
    let listings = ToolListings {
        encoders: String::new(),
        decoders: String::new(),
        filters: String::new(),
        muxers: String::new(),
        demuxers: String::new(),
        pix_fmts: String::new(),
        protocols: String::new(),
    };
    let caps = discover(&tools, &listings);
    let engine = Engine::new(&Config::with_work_dir("/w".to_string()), tools, caps);
    FfmpegHandler::new(engine, "/w/output".to_string(), raw_enabled)
}

#[test]
fn plan_convert() {
    let mut req = UniversalRequest::post("convert");
    req.body.as_convert =
        Ok(ConvertRequest { preset: Some("podcast-mp3".to_string()), ..Default::default() });
    let req = req.with_attachment(attachment("/in/talk.wav", "talk.wav"));
    match handler(false).plan("job1", &req).unwrap() {
        Plan::Run { args, output, probe_input, list_file, container, original_name } => {
            assert_eq!(output, "/w/output/job1.mp3");
            assert_eq!(
                args,
                vec![
                    "-i", "/in/talk.wav", "-vn", "-c:a", "libmp3lame", "-b:a", "128000", "-ar",
                    "44100", "-ac", "1", "/w/output/job1.mp3",
                ]
            );
            assert_eq!(probe_input.as_deref(), Some("/in/talk.wav"));
            assert!(list_file.is_none());
            assert_eq!(container, Some(Container::Mp3));
            assert_eq!(original_name.as_deref(), Some("talk.wav"));
        }
        _ => panic!("expected a run"),
    }
}

#[test]
fn plan_refusals() {
    let raw = UniversalRequest::post("raw")
        .with_body(body(vec![("args", BodyValue::Array(vec![Some("-crf".to_string())]))]))
        .with_attachment(attachment("/in/a.mp4", "a.mp4"));
    match handler(false).plan("j", &raw) {
        Err(MediaError::Security(m)) => assert_eq!(m, "raw passthrough is disabled on this server"),
        _ => panic!("expected raw to be refused"),
    }
    let probe = UniversalRequest::post("probe").with_attachment(attachment("http://x/y", "y"));
    assert!(matches!(handler(true).plan("j", &probe), Err(MediaError::Security(_))));
    let concat = UniversalRequest::post("concat").with_attachment(attachment("/a.mkv", "a.mkv"));
    match handler(true).plan("j", &concat) {
        Err(MediaError::Other(m)) => assert_eq!(m, "concat requires at least 2 inputs"),
        _ => panic!("expected concat to need two inputs"),
    }
    let thumb = UniversalRequest::post("thumbnail");
    match handler(true).plan("j", &thumb) {
        Err(MediaError::Other(m)) => assert_eq!(m, "operation requires an input file"),
        _ => panic!("expected a missing input"),
    }
    let escape = UniversalRequest::post("thumbnail").with_attachment(attachment("/a.mp4", "a"));
    assert!(matches!(handler(true).plan("../../etc/x", &escape), Err(MediaError::Security(_))));
}

#[test]
fn plan_raw_and_concat() {
    let raw = UniversalRequest::post("raw")
        .with_body(body(vec![(
            "args",
            BodyValue::Array(vec![
                Some("-i".to_string()),
                Some("INPUT".to_string()),
                Some("-vf".to_string()),
                Some("hflip".to_string()),
                Some("OUTPUT".to_string()),
            ]),
        )]))
        .with_attachment(attachment("/in/a.mp4", "a.mp4"));
    match handler(true).plan("r1", &raw).unwrap() {
        Plan::Run { args, output, .. } => {
            assert_eq!(output, "/w/output/r1.mkv");
            assert_eq!(args, vec!["-i", "/in/a.mp4", "-vf", "hflip", "/w/output/r1.mkv"]);
        }
        _ => panic!("expected a run"),
    }
    let concat = UniversalRequest::post("concat")
        .with_attachment(attachment("/in/a'b.mkv", "a"))
        .with_attachment(attachment("/in/c.mkv", "c"));
    match handler(false).plan("c1", &concat).unwrap() {
        Plan::Run { args, output, list_file, .. } => {
            assert_eq!(output, "/w/output/c1.mkv");
            let (path, list) = list_file.unwrap();
            assert_eq!(path, "/w/output/c1.concat.txt");
            assert_eq!(list, "file '/in/a'\\''b.mkv'\nfile '/in/c.mkv'\n");
            assert_eq!(args[5], "/w/output/c1.concat.txt");
        }
        _ => panic!("expected a run"),
    }
    let caps = UniversalRequest::get("capabilities");
    assert!(matches!(handler(false).plan("x", &caps), Ok(Plan::Capabilities { kind: CapKind::All })));
}

#[test]
fn finalize_names() {
    let r = finalize_output("/w/output/j.mp3".to_string(), Some(Container::Mp3), Some("talk.wav".to_string()), 42);
    assert_eq!(r.output_name.as_deref(), Some("talk.mp3"));
    assert_eq!(r.content_type.as_deref(), Some("audio/mpeg"));
    assert_eq!(r.size, 42);
    let r = finalize_output("/w/output/j".to_string(), None, None, 0);
    assert_eq!(r.output_name.as_deref(), Some("output.out"));
    assert_eq!(r.content_type.as_deref(), Some("application/octet-stream"));
}

fn job(id: u128, status: JobStatus) -> Job {
    let mut j = Job::with_id(id, UniversalRequest::get("test"), 100);
    j.status = status;
    j
}

#[test]
fn job_lifecycle() {
    let mut store = JobStore::new();
    store.insert(Job::with_id(1, UniversalRequest::get("test"), 10));
    assert!(store.start(1, 11));
    assert_eq!(store.get(1).unwrap().status, JobStatus::Running);
    let result = JobResult {
        output_path: None,
        output_name: None,
        content_type: Some("application/json".to_string()),
        body: Some("{\"ok\":true}".to_string()),
        size: 0,
    };
    assert!(store.complete(1, result, 12));
    let j = store.get(1).unwrap();
    assert_eq!(j.status, JobStatus::Completed);
    assert!(j.status.is_terminal());
    assert_eq!(j.progress, PROGRESS_DONE);
    assert_eq!(j.updated_at, 12);
    store.insert(Job::with_id(2, UniversalRequest::get("fail"), 10));
    assert!(store.fail(2, "boom".to_string(), 13));
    assert_eq!(store.get(2).unwrap().error.as_deref(), Some("boom"));
    assert!(!store.start(3, 14));
    assert!(store.remove(2).is_some());
    assert!(store.get(2).is_none());
    assert_eq!(store.len(), 1);
}

#[test]
fn recovery_requeues_in_flight_jobs() {
    let mut store = JobStore::new();
    store.insert(job(1, JobStatus::Running));
    let requeue = store.recover(vec![
        job(1, JobStatus::Completed),
        job(2, JobStatus::Running),
        job(3, JobStatus::Failed),
        job(4, JobStatus::Queued),
    ]);
    assert_eq!(requeue, vec![2, 4]);
    assert_eq!(store.get(1).unwrap().status, JobStatus::Running);
    assert_eq!(store.get(2).unwrap().status, JobStatus::Queued);
    assert_eq!(store.get(2).unwrap().progress, 0);
    assert_eq!(store.get(3).unwrap().status, JobStatus::Failed);
    assert_eq!(store.len(), 4);
}

#[test]
fn recovery_hands_each_job_over_once() {
    let mut store = JobStore::new();
    store.insert(job(7, JobStatus::Queued));
    let requeue = store.recover(vec![
        job(8, JobStatus::Running),
        job(8, JobStatus::Queued),
        job(7, JobStatus::Running),
        job(9, JobStatus::Queued),
    ]);
    assert_eq!(requeue, vec![8, 9]);
    assert_eq!(store.len(), 3);
}

#[test]
fn progress_throttle() {
    let mut t = ProgressThrottle::new();
    assert_eq!(t.report(100_000), None);
    assert_eq!(t.report(600_000), Some(600_000));
    assert_eq!(t.report(-5), Some(0));
    assert_eq!(t.report(200_000_000), Some(PROGRESS_DONE));
    assert_eq!(t.report(PROGRESS_DONE), Some(PROGRESS_DONE));
}

#[test]
fn progress_is_recorded_on_held_jobs_only() {
    let mut store = JobStore::new();
    store.insert(Job::with_id(5, UniversalRequest::get("test"), 10));
    assert!(store.set_progress(5, 42_000_000, 20));
    let j = store.get(5).unwrap();
    assert_eq!(j.progress, 42_000_000);
    assert_eq!(j.updated_at, 20);
    assert_eq!(j.status, JobStatus::Queued);
    assert!(!store.set_progress(6, 1, 21));
    assert_eq!(store.len(), 1);
}

struct PathHandler;

#[derive(Default)]
struct Seen(std::cell::Cell<i64>);

impl ProgressReporter for Seen {
    fn report(&self, progress: i64) {
        self.0.set(progress);
    }
}

impl QueueHandler for PathHandler {
    fn handle<R: ProgressReporter>(&self, job_id: u128, req: &UniversalRequest, reporter: &R) -> Result<JobResult, String> {
        reporter.report(50_000_000);
        if req.path.contains("fail") {
            return Err(format!("boom {job_id}"));
        }
        Ok(JobResult {
            output_path: None,
            output_name: None,
            content_type: Some("application/json".to_string()),
            body: Some("{\"ok\":true}".to_string()),
            size: 0,
        })
    }
}

#[test]
fn worker_processes_and_records_outcomes() {
    let mut store = JobStore::new();
    store.insert(Job::with_id(1, UniversalRequest::get("test"), 10));
    store.insert(Job::with_id(2, UniversalRequest::get("fail"), 10));
    let seen = Seen::default();
    let outcome = store.process(1, &PathHandler, &seen, 11, 12);
    assert_eq!(outcome.unwrap().unwrap().body.as_deref(), Some("{\"ok\":true}"));
    assert_eq!(seen.0.get(), 50_000_000);
    let j = store.get(1).unwrap();
    assert_eq!(j.status, JobStatus::Completed);
    assert_eq!(j.progress, PROGRESS_DONE);
    assert_eq!(j.updated_at, 12);
    assert!(j.result.as_ref().unwrap().body.is_some());
    let outcome = store.process(2, &PathHandler, &seen, 13, 14);
    assert_eq!(outcome.unwrap().unwrap_err(), "boom 2");
    let j = store.get(2).unwrap();
    assert_eq!(j.status, JobStatus::Failed);
    assert_eq!(j.progress, 0);
    assert_eq!(j.error.as_deref(), Some("boom 2"));
    assert!(store.process(3, &PathHandler, &seen, 15, 16).is_none());
    assert_eq!(store.len(), 2);
}

#[test]
fn recording_an_outcome() {
    let mut store = JobStore::new();
    store.insert(job(4, JobStatus::Running));
    assert!(store.record(4, Err("no".to_string()), 30));
    let j = store.get(4).unwrap();
    assert_eq!(j.status, JobStatus::Failed);
    assert_eq!(j.error.as_deref(), Some("no"));
    assert_eq!(j.updated_at, 30);
    assert!(!store.record(5, Err("no".to_string()), 31));
}

#[test]
fn queue_runs_at_least_one_worker() {
    assert_eq!(workers_for(0), 1);
    assert_eq!(workers_for(1), 1);
    assert_eq!(workers_for(4), 4);
}
