//! Application-level configuration shared by the library, CLI, and server.

use vstd::prelude::*;
use crate::error::MediaError;
use crate::api_queue::lookup;
use crate::path::{is_absolute, join_path, push_text};
use crate::text::{
    chars_of, decimal, decimal_u64, eq_str, lemma_parse_decimal, parse_u64_max, parse_unsigned,
    push_str, starts_with, string_of,
};

verus! {

/// Default HTTP port for the API server.
pub const DEFAULT_PORT: u16 = 3400;

/// Top-level configuration controlling the engine, work directories, the queue,
/// resource limits, and the (optional) HTTP server surface. Paths are held as text.
#[derive(Debug)]
pub struct Config {
    /// Explicit path to the `ffmpeg` binary. `None` = resolve `ffmpeg` on `PATH`.
    pub ffmpeg_path: Option<String>,
    /// Explicit path to the `ffprobe` binary. `None` = resolve `ffprobe` on `PATH`.
    pub ffprobe_path: Option<String>,
    /// Base working directory. Holds `uploads/`, `output/`, and `jobs/` sub-dirs.
    pub work_dir: String,
    /// Number of concurrent workers draining the queue.
    pub workers: usize,
    /// Per-job wall-clock timeout in seconds. 0 = no timeout.
    pub job_timeout_secs: u64,
    /// FFmpeg threads per job (passed as `-threads`). 0 = ffmpeg decides.
    pub threads: u32,
    /// Maximum accepted upload size in bytes (server multipart).
    pub max_upload_bytes: u64,
    /// Maximum produced output size in bytes (0 = unlimited).
    pub max_output_bytes: u64,
    /// Whether the gated raw-passthrough operation is permitted.
    pub raw_enabled: bool,
    /// Host the server binds to. Binding anything other than loopback requires `token`.
    pub host: String,
    /// Port the server binds to.
    pub port: u16,
    /// Bearer token required for API requests. Required to bind a non-loopback host.
    pub token: Option<String>,
}

/// The default base work directory: `<home>/.media-convertor` when a non-empty home
/// directory is known, otherwise `<temp>/media-convertor`.
pub open spec fn default_work_dir_spec(home: Option<Seq<char>>, temp: Seq<char>) -> Seq<char> {
    if home is Some && home->0.len() > 0 {
        push_text(home->0, ".media-convertor"@)
    } else {
        push_text(temp, "media-convertor"@)
    }
}

/// The default base work directory, from the `HOME` value (if set) and the system temp
/// directory. Chosen to be stable across reboots so a background server's queue,
/// uploads, outputs, and pidfile persist.
pub fn default_work_dir(home: Option<&str>, temp_dir: &str) -> (r: String)
    ensures
        r@ == default_work_dir_spec(
            match home {
                Some(h) => Some(h@),
                None => None,
            },
            temp_dir@,
        ),
{
    match home {
        Some(h) => {
            if chars_of(h).len() > 0 {
                join_path(h, ".media-convertor")
            } else {
                join_path(temp_dir, "media-convertor")
            }
        },
        None => join_path(temp_dir, "media-convertor"),
    }
}

/// The loopback host names.
pub open spec fn loopback_host(h: Seq<char>) -> bool {
    h == "127.0.0.1"@ || h == "::1"@ || h == "localhost"@
}

/// Whether a bearer token is configured: present and non-empty.
pub open spec fn has_token(token: Option<String>) -> bool {
    token matches Some(t) && t@.len() > 0
}

/// The message of a refused non-loopback bind.
pub open spec fn bind_refusal_message(host: Seq<char>) -> Seq<char> {
    "refusing to bind non-loopback host '"@ + host
        + "' without a bearer token; set a token or bind 127.0.0.1"@
}

/// What `std::time::Duration::from_secs` returns for `secs`.
pub uninterp spec fn duration_from_secs_spec(secs: u64) -> std::time::Duration;

/// std's `Duration::from_secs`; claimed of it only that its result is a function of
/// `secs` alone.
#[verifier::external_body]
fn duration_from_secs(secs: u64) -> (d: std::time::Duration)
    ensures
        d == duration_from_secs_spec(secs),
{
    std::time::Duration::from_secs(secs)
}

impl Config {
    /// The defaults, rooted at `work_dir`: no explicit tool paths, 2 workers, a one-hour
    /// job timeout, ffmpeg-chosen threads, a 2 GiB upload limit, no output limit, raw
    /// passthrough off, bound to `127.0.0.1:3400` without a token.
    pub fn with_work_dir(work_dir: String) -> (c: Config)
        ensures
            c.ffmpeg_path is None,
            c.ffprobe_path is None,
            c.work_dir == work_dir,
            c.workers == 2,
            c.job_timeout_secs == 3600,
            c.threads == 0,
            c.max_upload_bytes == 2 * 1024 * 1024 * 1024,
            c.max_output_bytes == 0,
            !c.raw_enabled,
            c.host@ == "127.0.0.1"@,
            c.port == DEFAULT_PORT,
            c.token is None,
    {
        Config {
            ffmpeg_path: None,
            ffprobe_path: None,
            work_dir,
            workers: 2,
            job_timeout_secs: 3600,
            threads: 0,
            max_upload_bytes: 2 * 1024 * 1024 * 1024,
            max_output_bytes: 0,
            raw_enabled: false,
            host: string_of(&chars_of("127.0.0.1")),
            port: DEFAULT_PORT,
            token: None,
        }
    }

    /// Directory holding uploaded input files.
    pub fn upload_dir(&self) -> (r: String)
        ensures
            r@ == push_text(self.work_dir@, "uploads"@),
    {
        join_path(self.work_dir.as_str(), "uploads")
    }

    /// Directory holding produced output files.
    pub fn output_dir(&self) -> (r: String)
        ensures
            r@ == push_text(self.work_dir@, "output"@),
    {
        join_path(self.work_dir.as_str(), "output")
    }

    /// Directory holding persisted job records (`{id}.json`).
    pub fn jobs_dir(&self) -> (r: String)
        ensures
            r@ == push_text(self.work_dir@, "jobs"@),
    {
        join_path(self.work_dir.as_str(), "jobs")
    }

    /// Path to the server pidfile (used by the CLI to manage a background server).
    pub fn pid_file(&self) -> (r: String)
        ensures
            r@ == push_text(self.work_dir@, "server.pid"@),
    {
        join_path(self.work_dir.as_str(), "server.pid")
    }

    /// Path to the server logfile (used when started in the background).
    pub fn log_file(&self) -> (r: String)
        ensures
            r@ == push_text(self.work_dir@, "server.log"@),
    {
        join_path(self.work_dir.as_str(), "server.log")
    }

    /// The upload, output and jobs directories all lie under the work directory (its
    /// text is a prefix of theirs), and no two of them are the same.
    pub proof fn lemma_dirs_under_work_dir(self)
        ensures
            starts_with(push_text(self.work_dir@, "uploads"@), self.work_dir@),
            starts_with(push_text(self.work_dir@, "output"@), self.work_dir@),
            starts_with(push_text(self.work_dir@, "jobs"@), self.work_dir@),
            push_text(self.work_dir@, "output"@) != push_text(self.work_dir@, "uploads"@),
            push_text(self.work_dir@, "output"@) != push_text(self.work_dir@, "jobs"@),
            push_text(self.work_dir@, "uploads"@) != push_text(self.work_dir@, "jobs"@),
    {
        reveal_strlit("uploads");
        reveal_strlit("output");
        reveal_strlit("jobs");
        let w = self.work_dir@;
        let u = push_text(w, "uploads"@);
        let o = push_text(w, "output"@);
        let j = push_text(w, "jobs"@);
        assert(!is_absolute("uploads"@) && !is_absolute("output"@) && !is_absolute("jobs"@));
        assert(u.take(w.len() as int) =~= w);
        assert(o.take(w.len() as int) =~= w);
        assert(j.take(w.len() as int) =~= w);
        assert(u.len() != o.len() && o.len() != j.len() && u.len() != j.len());
    }

    /// Whether the configured bind host is a loopback address.
    pub fn is_loopback(&self) -> (r: bool)
        ensures
            r == loopback_host(self.host@),
    {
        let h = chars_of(self.host.as_str());
        eq_str(&h, "127.0.0.1") || eq_str(&h, "::1") || eq_str(&h, "localhost")
    }

    /// Job timeout as a `Duration`, or `None` when disabled (0 seconds).
    pub fn job_timeout(&self) -> (r: Option<std::time::Duration>)
        ensures
            r == (if self.job_timeout_secs == 0 {
                None
            } else {
                Some(duration_from_secs_spec(self.job_timeout_secs))
            }),
    {
        if self.job_timeout_secs == 0 {
            None
        } else {
            Some(duration_from_secs(self.job_timeout_secs))
        }
    }

    /// Validate the security posture of the server configuration: refuses to expose a
    /// non-loopback host without a bearer token (an empty token counts as none: a request
    /// without an `Authorization` header would match it).
    pub fn validate_server(&self) -> (r: Result<(), MediaError>)
        ensures
            match r {
                Ok(_) => loopback_host(self.host@) || has_token(self.token),
                Err(e) => !loopback_host(self.host@) && !has_token(self.token) && (
                e matches MediaError::Security(m) && m@ == bind_refusal_message(self.host@)),
            },
    {
        let token_given = match &self.token {
            Some(t) => chars_of(t.as_str()).len() > 0,
            None => false,
        };
        if !self.is_loopback() && !token_given {
            let mut m = chars_of("refusing to bind non-loopback host '");
            push_str(&mut m, self.host.as_str());
            push_str(&mut m, "' without a bearer token; set a token or bind 127.0.0.1");
            return Err(MediaError::Security(string_of(&m)));
        }
        Ok(())
    }
}


/// The `MEDIA_CONVERTOR_*` environment values a server reads its configuration from
/// (each `None` when the variable is unset).
pub struct EnvValues {
    pub host: Option<String>,
    pub port: Option<String>,
    pub workers: Option<String>,
    pub timeout: Option<String>,
    pub data: Option<String>,
    pub token: Option<String>,
    pub raw: Option<String>,
}

/// The value of an optional number variable, when it is set and parses.
pub open spec fn env_number(v: Option<String>, max: nat) -> Option<nat> {
    match v {
        Some(s) => parse_unsigned(s@, max),
        None => None,
    }
}

/// Whether a `MEDIA_CONVERTOR_RAW` value switches the raw passthrough on.
pub open spec fn raw_switch(v: Seq<char>) -> bool {
    v == "1"@ || v == "true"@ || v == "yes"@
}

fn parse_env_number(v: &Option<String>, max: u64) -> (r: Option<u64>)
    ensures
        match r {
            Some(n) => env_number(*v, max as nat) == Some(n as nat),
            None => env_number(*v, max as nat) is None,
        },
{
    match v {
        Some(s) => parse_u64_max(&chars_of(s.as_str()), max),
        None => None,
    }
}

/// How `r` comes from `base` with the environment `env` applied: host and data
/// directory when set, port/workers/timeout when set and parseable, the token when set
/// and non-empty, raw passthrough per its switch when set; the rest unchanged.
pub open spec fn env_applied(base: Config, env: EnvValues, r: Config) -> bool {
    &&& r.host@ == (match env.host {
        Some(h) => h@,
        None => base.host@,
    })
    &&& r.port == (match env_number(env.port, u16::MAX as nat) {
        Some(n) => n as u16,
        None => base.port,
    })
    &&& r.workers == (match env_number(env.workers, usize::MAX as nat) {
        Some(n) => n as usize,
        None => base.workers,
    })
    &&& r.job_timeout_secs == (match env_number(env.timeout, u64::MAX as nat) {
        Some(n) => n as u64,
        None => base.job_timeout_secs,
    })
    &&& r.work_dir@ == (match env.data {
        Some(d) => d@,
        None => base.work_dir@,
    })
    &&& crate::format::opt_text(r.token) == (match env.token {
        Some(t) => if t@.len() > 0 {
            Some(t@)
        } else {
            crate::format::opt_text(base.token)
        },
        None => crate::format::opt_text(base.token),
    })
    &&& r.raw_enabled == (match env.raw {
        Some(v) => raw_switch(v@),
        None => base.raw_enabled,
    })
    &&& r.ffmpeg_path == base.ffmpeg_path
    &&& r.ffprobe_path == base.ffprobe_path
    &&& r.threads == base.threads
    &&& r.max_upload_bytes == base.max_upload_bytes
    &&& r.max_output_bytes == base.max_output_bytes
}

/// Whether `r` is the environment a server process reads `c` from: host, port, workers,
/// data directory, job timeout, raw switch (`1`/`0`), and the token when there is one.
pub open spec fn is_server_env(c: Config, r: Seq<(String, String)>) -> bool {
    &&& r.len() == (if c.token is Some {
        7int
    } else {
        6int
    })
    &&& r[0].0@ == "MEDIA_CONVERTOR_HOST"@ && r[0].1@ == c.host@
    &&& r[1].0@ == "MEDIA_CONVERTOR_PORT"@ && r[1].1@ == decimal(c.port as nat)
    &&& r[2].0@ == "MEDIA_CONVERTOR_WORKERS"@ && r[2].1@ == decimal(c.workers as nat)
    &&& r[3].0@ == "MEDIA_CONVERTOR_DATA"@ && r[3].1@ == c.work_dir@
    &&& r[4].0@ == "MEDIA_CONVERTOR_TIMEOUT"@ && r[4].1@ == decimal(c.job_timeout_secs as nat)
    &&& r[5].0@ == "MEDIA_CONVERTOR_RAW"@ && r[5].1@ == (if c.raw_enabled {
        "1"@
    } else {
        "0"@
    })
    &&& c.token matches Some(t) ==> r[6].0@ == "MEDIA_CONVERTOR_TOKEN"@ && r[6].1@ == t@
}

/// The environment values a process finds in `pairs`.
pub open spec fn read_env(pairs: Seq<(String, String)>) -> EnvValues {
    EnvValues {
        host: lookup(pairs, "MEDIA_CONVERTOR_HOST"@),
        port: lookup(pairs, "MEDIA_CONVERTOR_PORT"@),
        workers: lookup(pairs, "MEDIA_CONVERTOR_WORKERS"@),
        timeout: lookup(pairs, "MEDIA_CONVERTOR_TIMEOUT"@),
        data: lookup(pairs, "MEDIA_CONVERTOR_DATA"@),
        token: lookup(pairs, "MEDIA_CONVERTOR_TOKEN"@),
        raw: lookup(pairs, "MEDIA_CONVERTOR_RAW"@),
    }
}

/// A server started with the environment [`Config::server_env`] gives for `c` reads
/// back `c`'s host, port, workers, data directory, job timeout and raw switch, and its
/// token when it has one (a configuration without a token keeps the server's own).
pub proof fn lemma_server_env_round_trip(
    c: Config,
    pairs: Seq<(String, String)>,
    base: Config,
    r: Config,
)
    requires
        is_server_env(c, pairs),
        env_applied(base, read_env(pairs), r),
        c.token matches Some(t) ==> t@.len() > 0,
    ensures
        r.host@ == c.host@,
        r.port == c.port,
        r.workers == c.workers,
        r.work_dir@ == c.work_dir@,
        r.job_timeout_secs == c.job_timeout_secs,
        r.raw_enabled == c.raw_enabled,
        crate::format::opt_text(r.token) == (if c.token is Some {
            crate::format::opt_text(c.token)
        } else {
            crate::format::opt_text(base.token)
        }),
{
    reveal_strlit("MEDIA_CONVERTOR_HOST");
    reveal_strlit("MEDIA_CONVERTOR_PORT");
    reveal_strlit("MEDIA_CONVERTOR_WORKERS");
    reveal_strlit("MEDIA_CONVERTOR_DATA");
    reveal_strlit("MEDIA_CONVERTOR_TIMEOUT");
    reveal_strlit("MEDIA_CONVERTOR_RAW");
    reveal_strlit("MEDIA_CONVERTOR_TOKEN");
    reveal_strlit("1");
    reveal_strlit("0");
    reveal_strlit("true");
    reveal_strlit("yes");
    reveal_with_fuel(lookup, 8);
    lemma_parse_decimal(c.port as nat, u16::MAX as nat);
    lemma_parse_decimal(c.workers as nat, usize::MAX as nat);
    lemma_parse_decimal(c.job_timeout_secs as nat, u64::MAX as nat);
    let env = read_env(pairs);
    assert("MEDIA_CONVERTOR_HOST"@[16] == 'H');
    assert("MEDIA_CONVERTOR_PORT"@[16] == 'P');
    assert("MEDIA_CONVERTOR_WORKERS"@[16] == 'W');
    assert("MEDIA_CONVERTOR_DATA"@[16] == 'D');
    assert("MEDIA_CONVERTOR_TIMEOUT"@[16] == 'T');
    assert("MEDIA_CONVERTOR_TIMEOUT"@[17] == 'I');
    assert("MEDIA_CONVERTOR_RAW"@[16] == 'R');
    assert("MEDIA_CONVERTOR_TOKEN"@[16] == 'T');
    assert("MEDIA_CONVERTOR_TOKEN"@[17] == 'O');
    assert(env.host == Some(pairs[0].1));
    assert(env.port == Some(pairs[1].1));
    assert(env.workers == Some(pairs[2].1));
    assert(env.data == Some(pairs[3].1));
    assert(env.timeout == Some(pairs[4].1));
    assert(env.raw == Some(pairs[5].1));
    if c.token is Some {
        assert(env.token == Some(pairs[6].1));
    } else {
        assert(env.token is None);
    }
    assert("0"@[0] == '0');
    assert("1"@[0] == '1');
    assert("true"@.len() == 4);
    assert("yes"@.len() == 3);
    assert(raw_switch("1"@));
    assert(!raw_switch("0"@));
}

impl Config {
    /// This configuration with the environment's settings applied: host and data
    /// directory when set, port/workers/timeout when set and parseable, the token when
    /// set and non-empty, raw passthrough per its switch when set.
    pub fn apply_env(self, env: &EnvValues) -> (r: Config)
        ensures
            env_applied(self, *env, r),
    {
        let mut c = self;
        if let Some(v) = &env.host {
            c.host = v.clone();
        }
        if let Some(v) = parse_env_number(&env.port, u16::MAX as u64) {
            c.port = v as u16;
        }
        if let Some(v) = parse_env_number(&env.workers, usize::MAX as u64) {
            c.workers = v as usize;
        }
        if let Some(v) = parse_env_number(&env.timeout, u64::MAX) {
            c.job_timeout_secs = v;
        }
        if let Some(v) = &env.data {
            c.work_dir = v.clone();
        }
        if let Some(v) = &env.token {
            if chars_of(v.as_str()).len() > 0 {
                c.token = Some(v.clone());
            }
        }
        if let Some(v) = &env.raw {
            let t = chars_of(v.as_str());
            c.raw_enabled = eq_str(&t, "1") || eq_str(&t, "true") || eq_str(&t, "yes");
        }
        c
    }

    /// The environment a server process reads this configuration from.
    pub fn server_env(&self) -> (r: Vec<(String, String)>)
        ensures
            is_server_env(*self, r@),
    {
        let mut env: Vec<(String, String)> = Vec::new();
        env.push(("MEDIA_CONVERTOR_HOST".to_owned(), self.host.clone()));
        env.push(("MEDIA_CONVERTOR_PORT".to_owned(), string_of(&decimal_u64(self.port as u64))));
        env.push(
            ("MEDIA_CONVERTOR_WORKERS".to_owned(), string_of(&decimal_u64(self.workers as u64))),
        );
        env.push(("MEDIA_CONVERTOR_DATA".to_owned(), self.work_dir.clone()));
        env.push(
            (
                "MEDIA_CONVERTOR_TIMEOUT".to_owned(),
                string_of(&decimal_u64(self.job_timeout_secs)),
            ),
        );
        let raw = if self.raw_enabled {
            "1".to_owned()
        } else {
            "0".to_owned()
        };
        env.push(("MEDIA_CONVERTOR_RAW".to_owned(), raw));
        if let Some(token) = &self.token {
            env.push(("MEDIA_CONVERTOR_TOKEN".to_owned(), token.clone()));
        }
        env
    }
}

} // verus!
