//! The HTTP API's decisions: which requests are let in, what the parts of a multipart
//! submission are, where an upload is stored, how a request for a job's result is
//! answered, and which files a deleted job leaves to remove. The server process does
//! the I/O around them (reading parts, writing and reading files, sending responses).

use vstd::prelude::*;
use crate::api_queue::{Attachment, Job, JobStatus};
use crate::error::MediaError;
use crate::security::{confine_path, confined, escape_message, sanitize_filename, sanitized, token_matches};
use crate::text::{chars_of, eq_str, push_all, push_str, slice_chars, starts_with, starts_with_str, string_of};

verus! {

// ───────────────────────── authorization ─────────────────────────

/// The bearer token an `Authorization` header value carries: what follows `"Bearer "`,
/// or nothing when the header is absent or of another scheme.
pub open spec fn bearer_token(header: Option<Seq<char>>) -> Seq<char> {
    match header {
        Some(h) => if starts_with(h, "Bearer "@) {
            h.skip(7)
        } else {
            Seq::empty()
        },
        None => Seq::empty(),
    }
}

/// Whether a request for `path` is let in: the health check always is; otherwise,
/// when a token is configured, the request's bearer token must equal it.
pub open spec fn authorized_spec(
    path: Seq<char>,
    expected: Option<Seq<char>>,
    header: Option<Seq<char>>,
) -> bool {
    path == "/api/v1/health"@ || match expected {
        Some(t) => t == bearer_token(header),
        None => true,
    }
}

/// The token middleware's decision for a request to `path`, given the configured
/// token and the request's `Authorization` header value (when present and readable).
pub fn authorized(path: &str, expected: Option<&str>, authorization: Option<&str>) -> (r: bool)
    ensures
        r == authorized_spec(
            path@,
            match expected {
                Some(t) => Some(t@),
                None => None,
            },
            match authorization {
                Some(h) => Some(h@),
                None => None,
            },
        ),
{
    proof {
        reveal_strlit("Bearer ");
    }
    if eq_str(&chars_of(path), "/api/v1/health") {
        return true;
    }
    match expected {
        None => true,
        Some(t) => {
            let provided = match authorization {
                Some(h) => {
                    let hv = chars_of(h);
                    if starts_with_str(&hv, "Bearer ") {
                        string_of(&slice_chars(&hv, 7, hv.len()))
                    } else {
                        String::new()
                    }
                },
                None => String::new(),
            };
            proof {
                if let Some(h) = authorization {
                    if starts_with(h@, "Bearer "@) {
                        assert(provided@ =~= h@.skip(7));
                    }
                }
            }
            token_matches(t, provided.as_str())
        },
    }
}

/// With a non-empty token configured, every request other than the health check is
/// refused unless its `Authorization` header is exactly `Bearer ` followed by the token.
pub proof fn lemma_token_required(path: Seq<char>, token: Seq<char>, header: Option<Seq<char>>)
    requires
        path != "/api/v1/health"@,
        token.len() > 0,
    ensures
        authorized_spec(path, Some(token), header) <==> header == Some("Bearer "@ + token),
{
    reveal_strlit("Bearer ");
    if authorized_spec(path, Some(token), header) {
        let h = header->0;
        assert(h =~= "Bearer "@ + token) by {
            assert(h.take(7) == "Bearer "@);
        }
    }
    if header == Some("Bearer "@ + token) {
        let h = header->0;
        assert(h.take(7) =~= "Bearer "@);
        assert(h.skip(7) =~= token);
    }
}

// ───────────────────────── submissions ─────────────────────────

/// What a part of a multipart submission is.
#[derive(Debug, Clone, Copy, PartialEq, Eq, Structural)]
pub enum PartKind {
    /// The JSON `request` body.
    Request,
    /// An input file (`file`, `file2`, …).
    File,
    /// Anything else, which is skipped.
    Ignored,
}

/// The kind of a part named `name`.
pub open spec fn part_kind_spec(name: Seq<char>) -> PartKind {
    if name == "request"@ {
        PartKind::Request
    } else if starts_with(name, "file"@) {
        PartKind::File
    } else {
        PartKind::Ignored
    }
}

/// The kind of a multipart part, by its field name.
pub fn part_kind(name: &str) -> (r: PartKind)
    ensures
        r == part_kind_spec(name@),
{
    let v = chars_of(name);
    if eq_str(&v, "request") {
        PartKind::Request
    } else if starts_with_str(&v, "file") {
        PartKind::File
    } else {
        PartKind::Ignored
    }
}

/// The name an upload is stored under: a unique prefix, a dash, and the sanitized
/// original name (`"upload"` when the part has none).
pub open spec fn stored_upload_name(unique: Seq<char>, original: Option<Seq<char>>) -> Seq<char> {
    unique + "-"@ + sanitized(
        match original {
            Some(o) => o,
            None => "upload"@,
        },
    )
}

/// The attachment an uploaded part becomes: field `field`, the sanitized original name,
/// stored under `upload_dir` as `unique-<sanitized name>`; refused when that path would
/// leave `upload_dir` lexically. (The symlink half, which needs the resolved paths, is
/// [`crate::security::check_resolved_containment`].)
pub fn upload_attachment(upload_dir: &str, field: &str, unique: &str, original: Option<&str>) -> (r:
    Result<Attachment, MediaError>)
    ensures
        ({
            let orig = match original {
                Some(o) => Some(o@),
                None => None,
            };
            let stored = stored_upload_name(unique@, orig);
            match r {
                Ok(a) => a.field@ == field@ && a.filename@ == sanitized(
                    match orig {
                        Some(o) => o,
                        None => "upload"@,
                    },
                ) && confined(upload_dir@, stored) == Some(a.path@),
                Err(e) => confined(upload_dir@, stored) is None && (e matches MediaError::Security(
                    m,
                ) && m@ == escape_message(upload_dir@, stored)),
            }
        }),
{
    let safe = match original {
        Some(o) => sanitize_filename(o),
        None => sanitize_filename("upload"),
    };
    let mut stored = chars_of(unique);
    push_str(&mut stored, "-");
    push_all(&mut stored, &chars_of(safe.as_str()));
    let stored = string_of(&stored);
    match confine_path(upload_dir, stored.as_str()) {
        Ok(path) => Ok(Attachment { field: field.to_owned(), filename: safe, path }),
        Err(e) => Err(e),
    }
}

// ───────────────────────── results ─────────────────────────

/// How a request for a job's result is answered.
#[derive(Debug)]
pub enum ResultResponse {
    /// 404: no such job.
    NotFound,
    /// 409: the job has no result yet (or failed); the message names its status.
    NotReady(String),
    /// 200: the inline JSON result, as text.
    Inline(String),
    /// 500: a file result without an output path.
    NoOutput,
    /// 200: the output file at `path`, sent as `content_type` with the given
    /// `Content-Disposition` value.
    File { path: String, content_type: String, disposition: String },
}

/// The name of a status as `{:?}` prints it.
pub open spec fn status_name(s: JobStatus) -> Seq<char> {
    match s {
        JobStatus::Queued => "Queued"@,
        JobStatus::Running => "Running"@,
        JobStatus::Completed => "Completed"@,
        JobStatus::Failed => "Failed"@,
        JobStatus::Cancelled => "Cancelled"@,
    }
}

/// The name of a status as `{:?}` prints it.
pub fn status_debug_name(s: JobStatus) -> (r: &'static str)
    ensures
        r@ == status_name(s),
{
    match s {
        JobStatus::Queued => "Queued",
        JobStatus::Running => "Running",
        JobStatus::Completed => "Completed",
        JobStatus::Failed => "Failed",
        JobStatus::Cancelled => "Cancelled",
    }
}

/// How a request for the result of `job` is answered: not found when there is no such
/// job; not ready, naming its status, when it has no result; its inline body when it has
/// one; no output when a file result has no path; else the file, with its content type
/// (`application/octet-stream` by default) and an attachment disposition naming its
/// download name (`output` by default).
pub open spec fn result_response_spec(job: Option<Job>) -> ResultResponseView {
    match job {
        None => ResultResponseView::NotFound,
        Some(j) => match j.result {
            None => ResultResponseView::NotReady("job is "@ + status_name(j.status) + ", no result"@),
            Some(res) => match res.body {
                Some(b) => ResultResponseView::Inline(b@),
                None => match res.output_path {
                    None => ResultResponseView::NoOutput,
                    Some(p) => ResultResponseView::File {
                        path: p@,
                        content_type: match res.content_type {
                            Some(t) => t@,
                            None => "application/octet-stream"@,
                        },
                        disposition: "attachment; filename=\""@ + match res.output_name {
                            Some(n) => n@,
                            None => "output"@,
                        } + "\""@,
                    },
                },
            },
        },
    }
}

/// The value of a [`ResultResponse`], its strings taken as text.
pub enum ResultResponseView {
    NotFound,
    NotReady(Seq<char>),
    Inline(Seq<char>),
    NoOutput,
    File { path: Seq<char>, content_type: Seq<char>, disposition: Seq<char> },
}

impl View for ResultResponse {
    type V = ResultResponseView;

    open spec fn view(&self) -> ResultResponseView {
        match self {
            ResultResponse::NotFound => ResultResponseView::NotFound,
            ResultResponse::NotReady(m) => ResultResponseView::NotReady(m@),
            ResultResponse::Inline(b) => ResultResponseView::Inline(b@),
            ResultResponse::NoOutput => ResultResponseView::NoOutput,
            ResultResponse::File { path, content_type, disposition } => ResultResponseView::File {
                path: path@,
                content_type: content_type@,
                disposition: disposition@,
            },
        }
    }
}

/// How a request for the result of `job` (as found, if at all) is answered.
pub fn result_response(job: Option<&Job>) -> (r: ResultResponse)
    ensures
        r@ == result_response_spec(
            match job {
                Some(j) => Some(*j),
                None => None,
            },
        ),
{
    let j = match job {
        None => {
            return ResultResponse::NotFound;
        },
        Some(j) => j,
    };
    let res = match &j.result {
        None => {
            let mut m = chars_of("job is ");
            push_str(&mut m, status_debug_name(j.status));
            push_str(&mut m, ", no result");
            return ResultResponse::NotReady(string_of(&m));
        },
        Some(res) => res,
    };
    if let Some(b) = &res.body {
        return ResultResponse::Inline(b.clone());
    }
    let path = match &res.output_path {
        None => {
            return ResultResponse::NoOutput;
        },
        Some(p) => p.clone(),
    };
    let content_type = match &res.content_type {
        Some(t) => t.clone(),
        None => "application/octet-stream".to_owned(),
    };
    let mut d = chars_of("attachment; filename=\"");
    match &res.output_name {
        Some(n) => push_str(&mut d, n.as_str()),
        None => push_str(&mut d, "output"),
    }
    push_str(&mut d, "\"");
    ResultResponse::File { path, content_type, disposition: string_of(&d) }
}

// ───────────────────────── deletion ─────────────────────────

/// The files a deleted job leaves to remove: its output (when it produced one), then
/// its uploaded inputs, in order.
pub open spec fn cleanup_paths_spec(job: Job) -> Seq<Seq<char>> {
    (match job.result {
        Some(res) => match res.output_path {
            Some(p) => seq![p@],
            None => Seq::empty(),
        },
        None => Seq::empty(),
    }) + job.request.attachments@.map_values(|a: Attachment| a.path@)
}

/// The files to remove along with a deleted job.
pub fn cleanup_paths(job: &Job) -> (r: Vec<String>)
    ensures
        r@.map_values(|s: String| s@) == cleanup_paths_spec(*job),
{
    let mut out: Vec<String> = Vec::new();
    if let Some(res) = &job.result {
        if let Some(p) = &res.output_path {
            out.push(p.clone());
        }
    }
    let ghost head = out@.map_values(|s: String| s@);
    let atts = &job.request.attachments;
    let mut i: usize = 0;
    while i < atts.len()
        invariant
            i <= atts.len(),
            atts@ == job.request.attachments@,
            out@.map_values(|s: String| s@) == head + atts@.take(i as int).map_values(
                |a: Attachment| a.path@,
            ),
        decreases atts.len() - i,
    {
        let ghost before = out@;
        let p = atts[i].path.clone();
        assert(p@ == atts@[i as int].path@);
        out.push(p);
        assert(out@ == before.push(p));
        assert(out@.map_values(|s: String| s@) =~= before.map_values(|s: String| s@).push(p@));
        assert(atts@.take(i + 1).map_values(|a: Attachment| a.path@) =~= atts@.take(
            i as int,
        ).map_values(|a: Attachment| a.path@).push(atts@[i as int].path@));
        assert(out@.map_values(|s: String| s@) =~= head + atts@.take(i + 1).map_values(
            |a: Attachment| a.path@,
        ));
        i = i + 1;
    }
    assert(atts@.take(atts.len() as int) =~= atts@);
    assert(out@.map_values(|s: String| s@) =~= cleanup_paths_spec(*job));
    out
}

} // verus!
