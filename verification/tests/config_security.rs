use media_convertor::config::{default_work_dir, Config, EnvValues, DEFAULT_PORT};
use media_convertor::error::MediaError;
use media_convertor::security::{
    check_resolved_containment, confine_path, ensure_safe_input_token, sanitize_filename,
    token_has_denied_protocol, token_matches, validate_raw_args,
};
use std::path::Path;

fn default_config() -> Config {
    Config::with_work_dir(default_work_dir(Some("/home/user"), "/tmp"))
}

#[test]
fn default_dirs_are_under_work_dir() {
    let c = default_config();
    assert!(Path::new(&c.upload_dir()).starts_with(&c.work_dir));
    assert!(Path::new(&c.output_dir()).starts_with(&c.work_dir));
    assert!(Path::new(&c.jobs_dir()).starts_with(&c.work_dir));
}

#[test]
fn default_work_dir_is_stable() {
    let c = default_config();
    let name = Path::new(&c.work_dir).file_name().and_then(|s| s.to_str()).unwrap_or("");
    assert!(
        name == ".media-convertor" || name == "media-convertor",
        "unexpected default work dir: {}",
        c.work_dir
    );
}

#[test]
fn default_work_dir_choices() {
    assert_eq!(default_work_dir(Some("/home/u"), "/tmp"), "/home/u/.media-convertor");
    assert_eq!(default_work_dir(Some(""), "/tmp"), "/tmp/media-convertor");
    assert_eq!(default_work_dir(None, "/var/tmp/"), "/var/tmp/media-convertor");
    let c = default_config();
    assert_eq!(c.pid_file(), "/home/user/.media-convertor/server.pid");
    assert_eq!(c.log_file(), "/home/user/.media-convertor/server.log");
    assert_eq!(c.port, DEFAULT_PORT);
    assert_eq!(c.max_upload_bytes, 2 * 1024 * 1024 * 1024);
}

#[test]
fn loopback_detection() {
    let mut c = default_config();
    assert!(c.is_loopback());
    c.host = "0.0.0.0".to_string();
    assert!(!c.is_loopback());
}

#[test]
fn non_loopback_without_token_is_rejected() {
    let mut c = default_config();
    c.host = "192.168.1.10".to_string();
    assert!(c.validate_server().is_err());
    c.token = Some("secret".to_string());
    assert!(c.validate_server().is_ok());
}

#[test]
fn refused_bind_message() {
    let mut c = default_config();
    c.host = "10.0.0.1".to_string();
    match c.validate_server() {
        Err(MediaError::Security(m)) => assert_eq!(
            m,
            "refusing to bind non-loopback host '10.0.0.1' without a bearer token; set a token or bind 127.0.0.1"
        ),
        _ => panic!("expected a security error"),
    }
}

#[test]
fn loopback_needs_no_token() {
    let c = default_config();
    assert!(c.validate_server().is_ok());
}

#[test]
fn timeout_zero_is_none() {
    let mut c = default_config();
    c.job_timeout_secs = 0;
    assert!(c.job_timeout().is_none());
    c.job_timeout_secs = 5;
    assert_eq!(c.job_timeout(), Some(std::time::Duration::from_secs(5)));
}

#[test]
fn server_env_round_trips_through_apply_env() {
    let mut c = default_config();
    c.host = "0.0.0.0".to_string();
    c.port = 8080;
    c.workers = 4;
    c.job_timeout_secs = 0;
    c.raw_enabled = true;
    c.token = Some("tok".to_string());
    c.work_dir = "/srv/mc".to_string();
    let pairs = c.server_env();
    assert_eq!(pairs.len(), 7);
    assert_eq!(pairs[1], ("MEDIA_CONVERTOR_PORT".to_string(), "8080".to_string()));
    assert_eq!(pairs[5], ("MEDIA_CONVERTOR_RAW".to_string(), "1".to_string()));
    let get = |k: &str| pairs.iter().find(|(a, _)| a == k).map(|(_, v)| v.clone());
    let env = EnvValues {
        host: get("MEDIA_CONVERTOR_HOST"),
        port: get("MEDIA_CONVERTOR_PORT"),
        workers: get("MEDIA_CONVERTOR_WORKERS"),
        timeout: get("MEDIA_CONVERTOR_TIMEOUT"),
        data: get("MEDIA_CONVERTOR_DATA"),
        token: get("MEDIA_CONVERTOR_TOKEN"),
        raw: get("MEDIA_CONVERTOR_RAW"),
    };
    let r = default_config().apply_env(&env);
    assert_eq!(r.host, "0.0.0.0");
    assert_eq!(r.port, 8080);
    assert_eq!(r.workers, 4);
    assert_eq!(r.job_timeout_secs, 0);
    assert!(r.raw_enabled);
    assert_eq!(r.token.as_deref(), Some("tok"));
    assert_eq!(r.work_dir, "/srv/mc");
}

#[test]
fn apply_env_ignores_unparseable_and_empty() {
    let env = EnvValues {
        host: None,
        port: Some("70000".to_string()),
        workers: Some("x".to_string()),
        timeout: Some("+12".to_string()),
        data: None,
        token: Some(String::new()),
        raw: Some("on".to_string()),
    };
    let r = default_config().apply_env(&env);
    assert_eq!(r.port, DEFAULT_PORT);
    assert_eq!(r.workers, 2);
    assert_eq!(r.job_timeout_secs, 12);
    assert!(r.token.is_none());
    assert!(!r.raw_enabled);
}

#[test]
fn sanitize_strips_directories() {
    assert_eq!(sanitize_filename("../../etc/passwd"), "passwd");
    assert_eq!(sanitize_filename("/abs/path/movie.mp4"), "movie.mp4");
    assert_eq!(sanitize_filename("weird name!.mkv"), "weird_name_.mkv");
    assert_eq!(sanitize_filename(""), "upload");
    assert_eq!(sanitize_filename("..."), "upload");
}

#[test]
fn confine_rejects_traversal() {
    let base = "/work/output";
    assert!(confine_path(base, "a/b.mp4").is_ok());
    assert!(confine_path(base, "../secrets.txt").is_err());
    assert!(confine_path(base, "/etc/passwd").is_err());
    assert!(confine_path(base, "a/../../escape").is_err());
}

#[test]
fn confine_allows_inside() {
    let base = "/work/output";
    let p = confine_path(base, "sub/dir/out.mkv").unwrap();
    assert_eq!(Path::new(&p), Path::new("/work/output/sub/dir/out.mkv"));
}

#[test]
fn confine_messages_and_symlinks() {
    match confine_path("/work/output", "../x") {
        Err(MediaError::Security(m)) => {
            assert_eq!(m, "path '../x' escapes the managed directory '/work/output'")
        }
        _ => panic!("expected an escape"),
    }
    assert_eq!(confine_path("/work/output", "./a/./b/../c").unwrap(), "/work/output/a/c");
    assert!(check_resolved_containment("/w", "x", "/real/w/x", "/real/w").is_ok());
    assert!(check_resolved_containment("/w", "x", "/elsewhere/x", "/real/w").is_err());
}

#[test]
fn denied_protocols_rejected() {
    assert!(ensure_safe_input_token("http://evil/x").is_err());
    assert!(ensure_safe_input_token("concat:a|b").is_err());
    assert!(ensure_safe_input_token("file:/etc/passwd").is_err());
    assert!(ensure_safe_input_token("/home/user/movie.mp4").is_ok());
    assert!(ensure_safe_input_token("movie.mp4").is_ok());
    assert!(token_has_denied_protocol("  HTTPS://x"));
    assert!(!token_has_denied_protocol("clip.mp4"));
}

#[test]
fn raw_args_block_dangerous() {
    assert!(validate_raw_args(&["-crf".into(), "23".into()]).is_ok());
    assert!(validate_raw_args(&["-f".into(), "lavfi".into()]).is_err());
    assert!(validate_raw_args(&["-i".into(), "http://x".into()]).is_err());
    assert!(validate_raw_args(&["-filter_complex_script".into(), "x".into()]).is_err());
}

#[test]
fn token_compare() {
    assert!(token_matches("abc123", "abc123"));
    assert!(!token_matches("abc123", "abc124"));
    assert!(!token_matches("abc", "abcd"));
}

#[test]
fn error_messages() {
    assert_eq!(MediaError::other("boom").message(), "boom");
    assert_eq!(MediaError::security("no").message(), "security violation: no");
    assert_eq!(MediaError::Timeout(3600).message(), "operation timed out after 3600s");
}

#[test]
fn sanitized_names_are_plain() {
    for name in ["../../etc/passwd", "..", ".", "", "a/b\\c d.mp3", "///", "__..__", "ok-name_1.wav"] {
        let s = sanitize_filename(name);
        assert!(!s.is_empty(), "{name:?}");
        assert!(s != "." && s != "..", "{name:?}");
        assert!(
            s.chars().all(|c| c.is_ascii_alphanumeric() || c == '.' || c == '-' || c == '_'),
            "{name:?} -> {s:?}"
        );
    }
}

#[test]
fn non_loopback_with_empty_token_is_rejected() {
    let mut c = default_config();
    c.host = "0.0.0.0".to_string();
    c.token = Some(String::new());
    assert!(matches!(c.validate_server(), Err(MediaError::Security(_))));
    c.host = "127.0.0.1".to_string();
    assert!(c.validate_server().is_ok());
}

#[test]
fn work_dirs_are_distinct_and_under_the_work_dir() {
    let c = Config::with_work_dir("/srv/mc".to_string());
    assert_eq!(c.upload_dir(), "/srv/mc/uploads");
    assert_eq!(c.output_dir(), "/srv/mc/output");
    assert_eq!(c.jobs_dir(), "/srv/mc/jobs");
    assert!(c.output_dir().starts_with(&c.work_dir));
    assert_ne!(c.output_dir(), c.upload_dir());
    assert_ne!(c.output_dir(), c.jobs_dir());
}
