use media_convertor::api_queue::{
    job_id_text, new_job_id, now_secs, Attachment, Job, JobResult, JobStatus, NoReporter, ProgressReporter, UniversalRequest,
};
use media_convertor::cli::build_handler;
use media_convertor::config::Config;
use media_convertor::ffmpeg::capabilities::Capabilities;
use media_convertor::ffmpeg::locate::Tools;
use media_convertor::ffmpeg::Engine;
use media_convertor::progress::{ProgressEvent, ProgressHandler, ReporterProgress};
use media_convertor::server::{
    authorized, cleanup_paths, part_kind, result_response, status_debug_name, upload_attachment,
    PartKind, ResultResponse,
};
use std::cell::RefCell;

#[test]
fn health_needs_no_token() {
    assert!(authorized("/api/v1/health", Some("secret"), None));
}

#[test]
fn no_token_configured_lets_everything_in() {
    assert!(authorized("/api/v1/convert", None, None));
    assert!(authorized("/api/v1/jobs/x/status", None, Some("Bearer whatever")));
}

#[test]
fn token_must_match_bearer_header() {
    assert!(authorized("/api/v1/presets", Some("secret"), Some("Bearer secret")));
    assert!(!authorized("/api/v1/presets", Some("secret"), Some("Bearer wrong")));
    assert!(!authorized("/api/v1/presets", Some("secret"), Some("secret")));
    assert!(!authorized("/api/v1/presets", Some("secret"), Some("Basic secret")));
    assert!(!authorized("/api/v1/presets", Some("secret"), None));
    assert!(!authorized("/api/v1/presets", Some("secret"), Some("bearer secret")));
}

#[test]
fn empty_token_admits_missing_header() {
    // The one input on which the token law does not hold: an empty configured token.
    assert!(authorized("/api/v1/presets", Some(""), None));
}

#[test]
fn multipart_part_kinds() {
    assert_eq!(part_kind("request"), PartKind::Request);
    assert_eq!(part_kind("file"), PartKind::File);
    assert_eq!(part_kind("file2"), PartKind::File);
    assert_eq!(part_kind("files"), PartKind::File);
    assert_eq!(part_kind("requests"), PartKind::Ignored);
    assert_eq!(part_kind("input"), PartKind::Ignored);
    assert_eq!(part_kind(""), PartKind::Ignored);
}

#[test]
fn upload_is_stored_under_sanitized_unique_name() {
    let a = upload_attachment("/data/uploads", "file", "u1", Some("../../etc/pass wd.wav")).unwrap();
    assert_eq!(a.field, "file");
    assert_eq!(a.filename, "pass_wd.wav");
    assert_eq!(a.path, "/data/uploads/u1-pass_wd.wav");
}

#[test]
fn upload_without_name_is_called_upload() {
    let a = upload_attachment("/data/uploads", "file2", "u2", None).unwrap();
    assert_eq!(a.filename, "upload");
    assert_eq!(a.path, "/data/uploads/u2-upload");
}

#[test]
fn upload_escaping_the_directory_is_refused() {
    let e = upload_attachment("/data/uploads", "file", "../../x", Some("a.wav")).unwrap_err();
    assert_eq!(
        e.message(),
        "security violation: path '../../x-a.wav' escapes the managed directory '/data/uploads'"
    );
}

fn job_with(result: Option<JobResult>, status: JobStatus) -> Job {
    let mut j = Job::with_id(7, UniversalRequest::post("convert"), 100);
    j.status = status;
    j.result = result;
    j
}

#[test]
fn result_of_missing_job_is_not_found() {
    assert!(matches!(result_response(None), ResultResponse::NotFound));
}

#[test]
fn result_of_unfinished_job_names_its_status() {
    let j = job_with(None, JobStatus::Running);
    match result_response(Some(&j)) {
        ResultResponse::NotReady(m) => assert_eq!(m, "job is Running, no result"),
        other => panic!("unexpected {other:?}"),
    }
    assert_eq!(status_debug_name(JobStatus::Failed), "Failed");
}

#[test]
fn result_inline_body_wins() {
    let r = JobResult {
        output_path: Some("/out/x.mp3".to_string()),
        output_name: None,
        content_type: Some("application/json".to_string()),
        body: Some("{\"ok\":true}".to_string()),
        size: 0,
    };
    let j = job_with(Some(r), JobStatus::Completed);
    match result_response(Some(&j)) {
        ResultResponse::Inline(b) => assert_eq!(b, "{\"ok\":true}"),
        other => panic!("unexpected {other:?}"),
    }
}

#[test]
fn result_file_without_path_is_an_error() {
    let r = JobResult { output_path: None, output_name: None, content_type: None, body: None, size: 0 };
    let j = job_with(Some(r), JobStatus::Completed);
    assert!(matches!(result_response(Some(&j)), ResultResponse::NoOutput));
}

#[test]
fn result_file_with_defaults_and_names() {
    let r = JobResult {
        output_path: Some("/out/abc.mp3".to_string()),
        output_name: Some("song.mp3".to_string()),
        content_type: Some("audio/mpeg".to_string()),
        body: None,
        size: 10,
    };
    let j = job_with(Some(r), JobStatus::Completed);
    match result_response(Some(&j)) {
        ResultResponse::File { path, content_type, disposition } => {
            assert_eq!(path, "/out/abc.mp3");
            assert_eq!(content_type, "audio/mpeg");
            assert_eq!(disposition, "attachment; filename=\"song.mp3\"");
        }
        other => panic!("unexpected {other:?}"),
    }
    let r = JobResult {
        output_path: Some("/out/abc.bin".to_string()),
        output_name: None,
        content_type: None,
        body: None,
        size: 10,
    };
    let j = job_with(Some(r), JobStatus::Completed);
    match result_response(Some(&j)) {
        ResultResponse::File { content_type, disposition, .. } => {
            assert_eq!(content_type, "application/octet-stream");
            assert_eq!(disposition, "attachment; filename=\"output\"");
        }
        other => panic!("unexpected {other:?}"),
    }
}

fn att(path: &str) -> Attachment {
    Attachment { field: "file".to_string(), filename: "f".to_string(), path: path.to_string() }
}

#[test]
fn deleted_job_cleans_output_then_inputs() {
    let mut j = Job::with_id(
        9,
        UniversalRequest::post("concat").with_attachment(att("/up/a.mkv")).with_attachment(att("/up/b.mkv")),
        1,
    );
    assert_eq!(cleanup_paths(&j), vec!["/up/a.mkv".to_string(), "/up/b.mkv".to_string()]);
    j.result = Some(JobResult {
        output_path: Some("/out/j.mkv".to_string()),
        output_name: None,
        content_type: None,
        body: None,
        size: 0,
    });
    assert_eq!(
        cleanup_paths(&j),
        vec!["/out/j.mkv".to_string(), "/up/a.mkv".to_string(), "/up/b.mkv".to_string()]
    );
}

#[test]
fn handler_writes_under_the_output_dir() {
    let config = Config::with_work_dir("/srv/mc".to_string());
    let tools = Tools {
        ffmpeg: "ffmpeg".to_string(),
        ffprobe: "ffprobe".to_string(),
        version: "8.0".to_string(),
    };
    let caps = Capabilities {
        version: "8.0".to_string(),
        encoders: vec![],
        decoders: vec![],
        filters: vec![],
        muxers: vec![],
        demuxers: vec![],
        pix_fmts: vec![],
        protocols_input: vec![],
        protocols_output: vec![],
    };
    let engine = Engine::new(&config, tools, caps);
    let h = build_handler(&config, engine, false);
    assert_eq!(h.output_dir(), "/srv/mc/output");
    assert!(!h.raw_enabled());
    assert_eq!(h.engine().tools().version, "8.0");
}

struct Recorder {
    seen: RefCell<Vec<i64>>,
}

impl ProgressReporter for Recorder {
    fn report(&self, progress: i64) {
        self.seen.borrow_mut().push(progress);
    }
}

#[test]
fn reporter_adapter_forwards_known_percentages() {
    let mut p = ReporterProgress { reporter: Recorder { seen: RefCell::new(vec![]) } };
    p.on_progress(&ProgressEvent::new(5_000_000, Some(10_000_000)));
    p.on_progress(&ProgressEvent::new(5_000_000, None));
    p.on_progress(&ProgressEvent::new(10_000_000, Some(10_000_000)));
    assert_eq!(*p.reporter.seen.borrow(), vec![50_000_000, 100_000_000]);
    NoReporter.report(42);
}

#[test]
fn token_auth_enforced() {
    let token = Some("s3cret");
    assert!(authorized("/api/v1/health", token, None));
    assert!(!authorized("/api/v1/presets", token, None));
    assert!(!authorized("/api/v1/presets", token, Some("Bearer nope")));
    assert!(authorized("/api/v1/presets", token, Some("Bearer s3cret")));
}

#[test]
fn job_ids_print_as_hyphenated_uuids() {
    assert_eq!(
        job_id_text(0xa1a2a3a4b1b2c1c2d1d2d3d4d5d6d7d8),
        "a1a2a3a4-b1b2-c1c2-d1d2-d3d4d5d6d7d8"
    );
    assert_eq!(job_id_text(0), "00000000-0000-0000-0000-000000000000");
    for _ in 0..20 {
        let id = new_job_id();
        assert_eq!((id >> 76) & 0xf, 4);
        assert_eq!((id >> 62) & 0x3, 2);
        assert_eq!(job_id_text(id), uuid::Uuid::from_u128(id).to_string());
    }
}

#[test]
fn fresh_jobs_are_queued_now() {
    let before = now_secs();
    let j = Job::new(UniversalRequest::get("presets"));
    assert_eq!(j.status, JobStatus::Queued);
    assert_eq!(j.progress, 0);
    assert!(j.error.is_none() && j.result.is_none());
    assert_eq!(j.created_at, j.updated_at);
    assert!(j.created_at >= before && before > 1_600_000_000);
    assert_ne!(Job::new(UniversalRequest::get("presets")).id, j.id);
}
