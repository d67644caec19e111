//! The queue's work item and its job records.
//!
//! Work items are universal HTTP-shaped request objects ([`UniversalRequest`]): a method,
//! a path, a query, headers, a JSON body, and file attachments. Both the CLI and the HTTP
//! API build the same shape and enqueue it. The body is held as what the router reads of
//! it: its top-level fields, and its reading as a conversion request.

use vstd::prelude::*;
use crate::operation::ConvertRequest;
use crate::text::{chars_of, eq_chars, parse_u64_max, parse_unsigned, push_all, slice_chars, string_of};
use std::collections::HashMap;

verus! {

/// HTTP-ish method for a universal request.
#[derive(Debug, Clone, Copy, PartialEq, Eq, Structural)]
pub enum Method {
    Get,
    Post,
    Put,
    Delete,
    Patch,
}

/// A file attached to a request, already stored on disk in a managed directory.
#[derive(Debug, Clone)]
pub struct Attachment {
    /// Form field name (e.g. `"file"`, `"input"`, `"input2"`).
    pub field: String,
    /// Sanitized original filename.
    pub filename: String,
    /// Absolute path of the stored file.
    pub path: String,
}

/// One top-level value of a JSON body, as the router reads it.
#[derive(Debug, Clone)]
pub enum BodyValue {
    Null,
    Bool(bool),
    /// A JSON number: its value in millionths (rounded), and its value as an unsigned
    /// integer when it is one.
    Number { value_micros: i64, unsigned: Option<u64> },
    /// A JSON string, with its value in millionths when it reads as a decimal number.
    Text { text: String, text_micros: Option<i64> },
    /// A JSON array: for each element, its text when it is a string.
    Array(Vec<Option<String>>),
    /// A nested JSON object.
    Object,
}

/// A JSON body: its top-level fields (none when the body is not a JSON object), and
/// the body read as a conversion request, or why it cannot be.
#[derive(Debug)]
pub struct RequestBody {
    pub fields: Vec<(String, BodyValue)>,
    pub as_convert: Result<ConvertRequest, String>,
}

/// The universal request object that the queue stores and dispatches.
#[derive(Debug)]
pub struct UniversalRequest {
    pub method: Method,
    pub path: String,
    pub query: Vec<(String, String)>,
    pub headers: Vec<(String, String)>,
    pub body: RequestBody,
    pub attachments: Vec<Attachment>,
}

/// The value stored under `key` in a list of pairs: that of the first pair with that key.
pub open spec fn lookup<V>(pairs: Seq<(String, V)>, key: Seq<char>) -> Option<V>
    decreases pairs.len(),
{
    if pairs.len() == 0 {
        None
    } else if pairs[0].0@ == key {
        Some(pairs[0].1)
    } else {
        lookup(pairs.drop_first(), key)
    }
}

/// The text stored under `key` in a list of string pairs.
pub open spec fn lookup_text(pairs: Seq<(String, String)>, key: Seq<char>) -> Option<Seq<char>> {
    match lookup(pairs, key) {
        Some(v) => Some(v@),
        None => None,
    }
}

/// What [`UniversalRequest::body_str`] reads: the text of a string field.
pub open spec fn body_str_spec(fields: Seq<(String, BodyValue)>, key: Seq<char>) -> Option<
    Seq<char>,
> {
    match lookup(fields, key) {
        Some(BodyValue::Text { text, .. }) => Some(text@),
        _ => None,
    }
}

/// What [`UniversalRequest::body_micros`] reads: a number, or a string that reads as one,
/// in millionths.
pub open spec fn body_micros_spec(fields: Seq<(String, BodyValue)>, key: Seq<char>) -> Option<
    i64,
> {
    match lookup(fields, key) {
        Some(BodyValue::Number { value_micros, .. }) => Some(value_micros),
        Some(BodyValue::Text { text_micros, .. }) => text_micros,
        _ => None,
    }
}

/// What [`UniversalRequest::body_u64`] reads: an unsigned integer, or a string that
/// parses as one.
pub open spec fn body_u64_spec(fields: Seq<(String, BodyValue)>, key: Seq<char>) -> Option<nat> {
    match lookup(fields, key) {
        Some(BodyValue::Number { unsigned, .. }) => match unsigned {
            Some(u) => Some(u as nat),
            None => None,
        },
        Some(BodyValue::Text { text, .. }) => parse_unsigned(text@, u64::MAX as nat),
        _ => None,
    }
}

/// The entry of `pairs` stored under `key`, by index.
fn find_key<V>(pairs: &Vec<(String, V)>, key: &str) -> (r: Option<usize>)
    ensures
        match r {
            Some(i) => i < pairs.len() && pairs@[i as int].0@ == key@ && (forall|j: int|
                0 <= j < i ==> (#[trigger] pairs@[j]).0@ != key@),
            None => lookup(pairs@, key@) is None,
        },
{
    let k = chars_of(key);
    let mut i: usize = 0;
    assert(pairs@.skip(0) =~= pairs@);
    while i < pairs.len()
        invariant
            i <= pairs.len(),
            k@ == key@,
            lookup(pairs@, key@) == lookup(pairs@.skip(i as int), key@),
            forall|j: int| 0 <= j < i ==> (#[trigger] pairs@[j]).0@ != key@,
        decreases pairs.len() - i,
    {
        proof {
            assert(pairs@.skip(i as int)[0] == pairs@[i as int]);
            assert(pairs@.skip(i as int).drop_first() =~= pairs@.skip(i + 1));
        }
        let have = chars_of(pairs[i].0.as_str());
        if eq_chars(&have, &k) {
            return Some(i);
        }
        i = i + 1;
    }
    None
}

impl UniversalRequest {
    /// A request with no query, headers, body fields, or attachments.
    pub fn new(method: Method, path: &str) -> (r: Self)
        ensures
            r.method == method,
            r.path@ == path@,
            r.query@.len() == 0,
            r.headers@.len() == 0,
            r.body.fields@.len() == 0,
            r.body.as_convert is Err,
            r.attachments@.len() == 0,
    {
        UniversalRequest {
            method,
            path: path.to_owned(),
            query: Vec::new(),
            headers: Vec::new(),
            body: RequestBody { fields: Vec::new(), as_convert: Err("invalid type: null, expected struct ConvertRequest".to_owned()) },
            attachments: Vec::new(),
        }
    }

    /// A GET request to `path`.
    pub fn get(path: &str) -> (r: Self)
        ensures
            r.method == Method::Get,
            r.path@ == path@,
            r.query@.len() == 0,
            r.headers@.len() == 0,
            r.body.fields@.len() == 0,
            r.body.as_convert is Err,
            r.attachments@.len() == 0,
    {
        Self::new(Method::Get, path)
    }

    /// A POST request to `path`.
    pub fn post(path: &str) -> (r: Self)
        ensures
            r.method == Method::Post,
            r.path@ == path@,
            r.query@.len() == 0,
            r.headers@.len() == 0,
            r.body.fields@.len() == 0,
            r.body.as_convert is Err,
            r.attachments@.len() == 0,
    {
        Self::new(Method::Post, path)
    }

    /// This request with `body` as its body.
    pub fn with_body(self, body: RequestBody) -> (r: Self)
        ensures
            r == (UniversalRequest { body, ..self }),
    {
        UniversalRequest { body, ..self }
    }

    /// This request with `key` set to `value` in its query (replacing an earlier value).
    pub fn with_query(self, key: &str, value: &str) -> (r: Self)
        ensures
            forall|k: Seq<char>|
                #![trigger lookup_text(r.query@, k)]
                lookup_text(r.query@, k) == if k == key@ {
                    Some(value@)
                } else {
                    lookup_text(self.query@, k)
                },
            r.method == self.method,
            r.path == self.path,
            r.headers == self.headers,
            r.body == self.body,
            r.attachments == self.attachments,
    {
        let mut me = self;
        let entry = (key.to_owned(), value.to_owned());
        match find_key(&me.query, key) {
            Some(i) => {
                proof {
                    lemma_lookup_set(me.query@, i as int, entry);
                }
                me.query.set(i, entry);
            },
            None => {
                proof {
                    lemma_lookup_push(me.query@, entry);
                }
                me.query.push(entry);
            },
        }
        me
    }
}

impl UniversalRequest {
    /// This request with `attachment` appended to its attachments.
    pub fn with_attachment(self, attachment: Attachment) -> (r: Self)
        ensures
            r.attachments@ == self.attachments@.push(attachment),
            r.method == self.method,
            r.path == self.path,
            r.query == self.query,
            r.headers == self.headers,
            r.body == self.body,
    {
        let mut me = self;
        me.attachments.push(attachment);
        me
    }

    /// The value of `key` in the query, if set.
    pub fn query_value(&self, key: &str) -> (r: Option<String>)
        ensures
            match r {
                Some(v) => lookup_text(self.query@, key@) == Some(v@),
                None => lookup_text(self.query@, key@) is None,
            },
    {
        match find_key(&self.query, key) {
            Some(i) => {
                proof {
                    lemma_lookup_first(self.query@, i as int, key@);
                }
                Some(self.query[i].1.clone())
            },
            None => None,
        }
    }

    /// Look up a string field in the JSON body.
    pub fn body_str(&self, key: &str) -> (r: Option<String>)
        ensures
            match r {
                Some(v) => body_str_spec(self.body.fields@, key@) == Some(v@),
                None => body_str_spec(self.body.fields@, key@) is None,
            },
    {
        match find_key(&self.body.fields, key) {
            Some(i) => {
                proof {
                    lemma_lookup_first(self.body.fields@, i as int, key@);
                }
                match &self.body.fields[i].1 {
                    BodyValue::Text { text, .. } => Some(text.clone()),
                    _ => None,
                }
            },
            None => None,
        }
    }

    /// Look up a numeric field in the JSON body (accepting numeric strings), in
    /// millionths.
    pub fn body_micros(&self, key: &str) -> (r: Option<i64>)
        ensures
            r == body_micros_spec(self.body.fields@, key@),
    {
        match find_key(&self.body.fields, key) {
            Some(i) => {
                proof {
                    lemma_lookup_first(self.body.fields@, i as int, key@);
                }
                match &self.body.fields[i].1 {
                    BodyValue::Number { value_micros, .. } => Some(*value_micros),
                    BodyValue::Text { text_micros, .. } => *text_micros,
                    _ => None,
                }
            },
            None => None,
        }
    }

    /// Look up an unsigned-integer field in the JSON body (accepting numeric strings).
    pub fn body_u64(&self, key: &str) -> (r: Option<u64>)
        ensures
            match r {
                Some(v) => body_u64_spec(self.body.fields@, key@) == Some(v as nat),
                None => body_u64_spec(self.body.fields@, key@) is None,
            },
    {
        match find_key(&self.body.fields, key) {
            Some(i) => {
                proof {
                    lemma_lookup_first(self.body.fields@, i as int, key@);
                }
                match &self.body.fields[i].1 {
                    BodyValue::Number { unsigned, .. } => *unsigned,
                    BodyValue::Text { text, .. } => parse_u64_max(&chars_of(text.as_str()), u64::MAX),
                    _ => None,
                }
            },
            None => None,
        }
    }
}

/// The body field stored under `key`, if any.
pub fn body_field<'a>(req: &'a UniversalRequest, key: &str) -> (r: Option<&'a BodyValue>)
    ensures
        match r {
            Some(v) => lookup(req.body.fields@, key@) == Some(*v),
            None => lookup(req.body.fields@, key@) is None,
        },
{
    match find_key(&req.body.fields, key) {
        Some(i) => {
            proof {
                lemma_lookup_first(req.body.fields@, i as int, key@);
            }
            Some(&req.body.fields[i].1)
        },
        None => None,
    }
}

/// Lifecycle status of a queued job.
#[derive(Debug, Clone, Copy, PartialEq, Eq, Structural)]
pub enum JobStatus {
    Queued,
    Running,
    Completed,
    Failed,
    Cancelled,
}

impl JobStatus {
    /// Whether a job in this status is finished for good.
    pub open spec fn terminal(self) -> bool {
        match self {
            JobStatus::Completed | JobStatus::Failed | JobStatus::Cancelled => true,
            _ => false,
        }
    }

    pub fn is_terminal(self) -> (r: bool)
        ensures
            r == self.terminal(),
    {
        match self {
            JobStatus::Completed | JobStatus::Failed | JobStatus::Cancelled => true,
            _ => false,
        }
    }
}

/// Receives a job's progress, in millionths of a percent (`0..=100_000_000`).
pub trait ProgressReporter {
    fn report(&self, progress: i64);
}

/// Executes the work of a dequeued job: given the job's id and request, and a reporter
/// for the job's progress, answers with its result or an error message. Implement it for
/// your own kind of work; a worker hands it each job it picks up (see
/// [`JobStore::process`]).
pub trait QueueHandler {
    /// Which outcomes the handler may answer for job `job_id` with `request`; unless an
    /// implementation narrows it, any outcome.
    open spec fn answers(&self, job_id: u128, request: UniversalRequest, outcome: Result<JobResult, String>) -> bool {
        true
    }

    fn handle<R: ProgressReporter>(&self, job_id: u128, request: &UniversalRequest, reporter: &R) -> (r: Result<JobResult, String>)
        ensures
            self.answers(job_id, *request, r),
    ;
}

/// The job `j` as a worker leaves it at `now` with `outcome`: completed with full
/// progress and the result, or failed with the error and its progress cleared; nothing
/// else about the job changes.
pub open spec fn recorded(j: Job, outcome: Result<JobResult, String>, now: u64) -> Job {
    match outcome {
        Ok(res) => Job {
            status: JobStatus::Completed,
            progress: PROGRESS_DONE,
            result: Some(res),
            updated_at: now,
            ..j
        },
        Err(e) => Job { status: JobStatus::Failed, progress: 0, error: Some(e), updated_at: now, ..j },
    }
}

fn copy_text(t: &Option<String>) -> (r: Option<String>)
    ensures
        r == *t,
{
    match t {
        Some(s) => Some(s.clone()),
        None => None,
    }
}

/// A copy of a handler's outcome, equal to it.
fn copy_outcome(o: &Result<JobResult, String>) -> (r: Result<JobResult, String>)
    ensures
        r == *o,
{
    match o {
        Ok(res) => Ok(
            JobResult {
                output_path: copy_text(&res.output_path),
                output_name: copy_text(&res.output_name),
                content_type: copy_text(&res.content_type),
                body: copy_text(&res.body),
                size: res.size,
            },
        ),
        Err(e) => Err(e.clone()),
    }
}

/// The number of worker threads a queue asked for `requested` workers runs: at least one.
pub fn workers_for(requested: usize) -> (r: usize)
    ensures
        r == (if requested == 0 {
            1
        } else {
            requested
        }),
{
    if requested == 0 {
        1
    } else {
        requested
    }
}

/// A reporter that discards progress, for synchronous inline operations.
pub struct NoReporter;

impl ProgressReporter for NoReporter {
    fn report(&self, progress: i64) {
    }
}

/// The result a handler produces for a completed job.
#[derive(Debug, Clone)]
pub struct JobResult {
    /// Output file path (for file-producing operations).
    pub output_path: Option<String>,
    /// Suggested download filename.
    pub output_name: Option<String>,
    /// MIME type of the output (file) or `application/json` (inline).
    pub content_type: Option<String>,
    /// Inline JSON result (probe/capabilities/presets), as JSON text.
    pub body: Option<String>,
    /// Output size in bytes.
    pub size: u64,
}

/// Progress of a whole job, in millionths of a percent.
pub const PROGRESS_DONE: i64 = 100_000_000;

/// A job record: the request plus its evolving status and result.
#[derive(Debug)]
pub struct Job {
    /// The job's identifier (a UUID's 128 bits).
    pub id: u128,
    pub request: UniversalRequest,
    pub status: JobStatus,
    /// Progress in millionths of a percent (`0..=100_000_000`).
    pub progress: i64,
    pub error: Option<String>,
    pub result: Option<JobResult>,
    /// Creation time, in seconds since the Unix epoch.
    pub created_at: u64,
    /// Time of the last change, in seconds since the Unix epoch.
    pub updated_at: u64,
}

// ───────────────────────── ids and clock ─────────────────────────

#[verifier::external_type_specification]
#[verifier::external_body]
pub struct ExSystemTime(std::time::SystemTime);

#[verifier::external_type_specification]
#[verifier::external_body]
pub struct ExSystemTimeError(std::time::SystemTimeError);

/// std's `SystemTime::now`: the wall clock's current reading. Nothing is claimed of it.
#[verifier::external_body]
fn system_now() -> (t: std::time::SystemTime) {
    std::time::SystemTime::now()
}

/// std's `SystemTime::duration_since`, measured from `UNIX_EPOCH`: the time elapsed
/// since the epoch, or an error when `t` lies before it. Nothing is claimed of which.
#[verifier::external_body]
fn since_unix_epoch(t: &std::time::SystemTime) -> (r: Result<
    std::time::Duration,
    std::time::SystemTimeError,
>) {
    t.duration_since(std::time::UNIX_EPOCH)
}

/// What std's `Duration::as_secs` returns for `d`: its whole seconds.
pub uninterp spec fn duration_whole_secs(d: std::time::Duration) -> u64;

/// std's `Duration::as_secs`: the whole seconds of `d`, by the name above.
#[verifier::external_body]
fn whole_secs(d: std::time::Duration) -> (s: u64)
    ensures
        s == duration_whole_secs(d),
{
    d.as_secs()
}

/// The wall clock in whole seconds since the Unix epoch (0 when it reads earlier).
pub fn now_secs() -> u64 {
    match since_unix_epoch(&system_now()) {
        Ok(d) => whole_secs(d),
        Err(_) => 0,
    }
}

/// uuid's `Uuid::new_v4`, taken as its 128 bits (`Uuid::as_u128`): random bits, except
/// that the crate sets the version field to 4 and the variant bits to `10`. (The crate
/// panics when the operating system's random source fails.)
#[verifier::external_body]
fn random_v4() -> (id: u128)
    ensures
        (id >> 76u32) & 0xf == 4,
        (id >> 62u32) & 0x3 == 2,
{
    uuid::Uuid::new_v4().as_u128()
}

/// A new random job id: a version-4 UUID's 128 bits.
pub fn new_job_id() -> (id: u128)
    ensures
        (id >> 76u32) & 0xf == 4,
        (id >> 62u32) & 0x3 == 2,
{
    random_v4()
}

/// The lowercase hex digits, by value.
pub open spec fn hex_table() -> Seq<char> {
    seq!['0', '1', '2', '3', '4', '5', '6', '7', '8', '9', 'a', 'b', 'c', 'd', 'e', 'f']
}

/// The `n` low hex digits of `v`, least significant first.
pub open spec fn hex_low(v: nat, n: nat) -> Seq<char>
    decreases n,
{
    if n == 0 {
        Seq::empty()
    } else {
        seq![hex_table()[(v % 16) as int]] + hex_low(v / 16, (n - 1) as nat)
    }
}

/// The text of an id: its 128 bits as 32 lowercase hex digits, most significant first,
/// grouped 8-4-4-4-12 by hyphens (a UUID's hyphenated form).
pub open spec fn id_text(id: u128) -> Seq<char> {
    let d = hex_low(id as nat, 32).reverse();
    d.subrange(0, 8) + "-"@ + d.subrange(8, 12) + "-"@ + d.subrange(12, 16) + "-"@
        + d.subrange(16, 20) + "-"@ + d.subrange(20, 32)
}

/// The text of a job id, as job records, output files and uploads are named by it.
pub fn job_id_text(id: u128) -> (r: String)
    ensures
        r@ == id_text(id),
{
    let table: [char; 16] = [
        '0', '1', '2', '3', '4', '5', '6', '7', '8', '9', 'a', 'b', 'c', 'd', 'e', 'f',
    ];
    assert(table@ =~= hex_table());
    let mut v: u128 = id;
    let mut low: Vec<char> = Vec::new();
    let mut k: usize = 0;
    while k < 32
        invariant
            k <= 32,
            table@ == hex_table(),
            low@.len() == k,
            low@ + hex_low(v as nat, (32 - k) as nat) == hex_low(id as nat, 32),
        decreases 32 - k,
    {
        let ghost before = low@;
        let ghost vn = v as nat;
        let dgt = (v % 16) as usize;
        low.push(table[dgt]);
        assert(hex_low(vn, (32 - k) as nat) == seq![hex_table()[(vn % 16) as int]] + hex_low(
            vn / 16,
            (32 - k - 1) as nat,
        ));
        v = v / 16;
        assert(low@ + hex_low(v as nat, (32 - (k + 1)) as nat) =~= before + hex_low(
            vn,
            (32 - k) as nat,
        ));
        k = k + 1;
    }
    assert(low@ =~= hex_low(id as nat, 32));
    let mut d: Vec<char> = Vec::new();
    let mut i: usize = 0;
    while i < 32
        invariant
            i <= 32,
            low@.len() == 32,
            d@.len() == i,
            forall|j: int| 0 <= j < i ==> d@[j] == low@[31 - j],
        decreases 32 - i,
    {
        d.push(low[31 - i]);
        i = i + 1;
    }
    assert(d@ =~= low@.reverse());
    let mut out = slice_chars(&d, 0, 8);
    out.push('-');
    push_all(&mut out, &slice_chars(&d, 8, 12));
    out.push('-');
    push_all(&mut out, &slice_chars(&d, 12, 16));
    out.push('-');
    push_all(&mut out, &slice_chars(&d, 16, 20));
    out.push('-');
    push_all(&mut out, &slice_chars(&d, 20, 32));
    proof {
        reveal_strlit("-");
        assert("-"@ =~= seq!['-']);
    }
    assert(out@ =~= id_text(id));
    string_of(&out)
}

impl Job {
    /// A fresh job for `request` under a new random id, created and updated now: queued,
    /// with no progress, error or result.
    pub fn new(request: UniversalRequest) -> (r: Job)
        ensures
            r.request == request,
            r.status == JobStatus::Queued,
            r.progress == 0,
            r.error is None,
            r.result is None,
            r.created_at == r.updated_at,
            (r.id >> 76u32) & 0xf == 4,
            (r.id >> 62u32) & 0x3 == 2,
    {
        let id = new_job_id();
        let now = now_secs();
        Job::with_id(id, request, now)
    }

    /// A fresh job for `request` under `id`: queued, no progress, created and updated at
    /// `now`.
    pub fn with_id(id: u128, request: UniversalRequest, now: u64) -> (r: Job)
        ensures
            r == (Job {
                id,
                request,
                status: JobStatus::Queued,
                progress: 0,
                error: None,
                result: None,
                created_at: now,
                updated_at: now,
            }),
    {
        Job {
            id,
            request,
            status: JobStatus::Queued,
            progress: 0,
            error: None,
            result: None,
            created_at: now,
            updated_at: now,
        }
    }
}

/// The job with its status set back to queued and its progress cleared, as a recovered
/// in-flight job is.
pub open spec fn requeued(j: Job) -> Job {
    Job { status: JobStatus::Queued, progress: 0, ..j }
}

/// What recovering `persisted` into a store holding `m` gives: the jobs already held are
/// kept as they are; each persisted job not yet held (the first with its id) is added,
/// reset to queued when it was not finished; and the ids of the reset jobs, in order,
/// are to be enqueued again.
pub open spec fn recover_spec(m: Map<u128, Job>, persisted: Seq<Job>) -> (Map<u128, Job>, Seq<
    u128,
>)
    decreases persisted.len(),
{
    if persisted.len() == 0 {
        (m, Seq::empty())
    } else {
        let (m0, q0) = recover_spec(m, persisted.drop_last());
        let j = persisted.last();
        if m0.contains_key(j.id) {
            (m0, q0)
        } else if j.status.terminal() {
            (m0.insert(j.id, j), q0)
        } else {
            (m0.insert(j.id, requeued(j)), q0.push(j.id))
        }
    }
}

/// The in-memory job store of a queue, keyed by job id.
pub struct JobStore {
    jobs: HashMap<u128, Job>,
}

impl View for JobStore {
    type V = Map<u128, Job>;

    closed spec fn view(&self) -> Map<u128, Job> {
        self.jobs@
    }
}

impl JobStore {
    /// An empty store.
    pub fn new() -> (r: Self)
        ensures
            r@ == Map::<u128, Job>::empty(),
    {
        JobStore { jobs: HashMap::new() }
    }

    /// Add (or replace) a job.
    pub fn insert(&mut self, job: Job)
        ensures
            final(self)@ == old(self)@.insert(job.id, job),
    {
        let id = job.id;
        let _ = self.jobs.insert(id, job);
    }

    /// The job with `id`, if held.
    pub fn get(&self, id: u128) -> (r: Option<&Job>)
        ensures
            match r {
                Some(j) => self@.contains_key(id) && *j == self@[id],
                None => !self@.contains_key(id),
            },
    {
        self.jobs.get(&id)
    }

    /// Remove the job with `id`, answering with it if it was held.
    pub fn remove(&mut self, id: u128) -> (r: Option<Job>)
        ensures
            final(self)@ == old(self)@.remove(id),
            match r {
                Some(j) => old(self)@.contains_key(id) && j == old(self)@[id],
                None => !old(self)@.contains_key(id),
            },
    {
        self.jobs.remove(&id)
    }

    /// The number of jobs held.
    pub fn len(&self) -> (r: usize)
        ensures
            r == self@.len(),
    {
        self.jobs.len()
    }

    /// Mark a job as picked up by a worker: running, progress cleared, updated at `now`.
    /// Answers whether the job was held.
    pub fn start(&mut self, id: u128, now: u64) -> (r: bool)
        ensures
            r == old(self)@.contains_key(id),
            r ==> final(self)@ == old(self)@.insert(
                id,
                Job {
                    status: JobStatus::Running,
                    progress: 0,
                    updated_at: now,
                    ..old(self)@[id]
                },
            ),
            !r ==> final(self)@ == old(self)@,
    {
        match self.jobs.remove(&id) {
            Some(mut j) => {
                j.status = JobStatus::Running;
                j.progress = 0;
                j.updated_at = now;
                let _ = self.jobs.insert(id, j);
                true
            },
            None => false,
        }
    }

    /// A worker's turn on job `id`: mark it running at `started`, hand the handler the
    /// job's id and stored request (with `reporter` for its progress), and record what
    /// comes back at `finished`: completed with the result, or failed with the error.
    /// Answers with that outcome; with nothing, changing nothing, when the job is no longer
    /// held (removed before it was picked up).
    pub fn process<H: QueueHandler, R: ProgressReporter>(
        &mut self,
        id: u128,
        handler: &H,
        reporter: &R,
        started: u64,
        finished: u64,
    ) -> (r: Option<Result<JobResult, String>>)
        ensures
            r is Some <==> old(self)@.contains_key(id),
            r is None ==> final(self)@ == old(self)@,
            r matches Some(outcome) ==> handler.answers(id, old(self)@[id].request, outcome)
                && final(self)@ == old(self)@.insert(id, recorded(old(self)@[id], outcome, finished)),
    {
        if !self.start(id, started) {
            return None;
        }
        let outcome = match self.get(id) {
            Some(j) => handler.handle(id, &j.request, reporter),
            None => {
                return None;
            },
        };
        let kept = copy_outcome(&outcome);
        self.record(id, outcome, finished);
        Some(kept)
    }

    /// Record what a handler answered for job `id` at `now`: completed with full progress
    /// and the result, or failed with the error and its progress cleared. Answers whether
    /// the job was held; changes nothing when it was not.
    pub fn record(&mut self, id: u128, outcome: Result<JobResult, String>, now: u64) -> (r: bool)
        ensures
            r == old(self)@.contains_key(id),
            r ==> final(self)@ == old(self)@.insert(id, recorded(old(self)@[id], outcome, now)),
            !r ==> final(self)@ == old(self)@,
    {
        match self.jobs.remove(&id) {
            Some(mut j) => {
                match outcome {
                    Ok(res) => {
                        j.status = JobStatus::Completed;
                        j.progress = PROGRESS_DONE;
                        j.result = Some(res);
                    },
                    Err(e) => {
                        j.status = JobStatus::Failed;
                        j.progress = 0;
                        j.error = Some(e);
                    },
                }
                j.updated_at = now;
                let _ = self.jobs.insert(id, j);
                true
            },
            None => false,
        }
    }

    /// Record a job's success: completed, full progress, its result, updated at `now`.
    /// Answers whether the job was held.
    pub fn complete(&mut self, id: u128, result: JobResult, now: u64) -> (r: bool)
        ensures
            r == old(self)@.contains_key(id),
            r ==> final(self)@ == old(self)@.insert(
                id,
                Job {
                    status: JobStatus::Completed,
                    progress: PROGRESS_DONE,
                    result: Some(result),
                    updated_at: now,
                    ..old(self)@[id]
                },
            ),
            !r ==> final(self)@ == old(self)@,
    {
        match self.jobs.remove(&id) {
            Some(mut j) => {
                j.status = JobStatus::Completed;
                j.progress = PROGRESS_DONE;
                j.result = Some(result);
                j.updated_at = now;
                let _ = self.jobs.insert(id, j);
                true
            },
            None => false,
        }
    }

    /// Record a job's failure: failed, with the handler's error, updated at `now`.
    /// Answers whether the job was held.
    pub fn fail(&mut self, id: u128, error: String, now: u64) -> (r: bool)
        ensures
            r == old(self)@.contains_key(id),
            r ==> final(self)@ == old(self)@.insert(
                id,
                Job {
                    status: JobStatus::Failed,
                    error: Some(error),
                    updated_at: now,
                    ..old(self)@[id]
                },
            ),
            !r ==> final(self)@ == old(self)@,
    {
        match self.jobs.remove(&id) {
            Some(mut j) => {
                j.status = JobStatus::Failed;
                j.error = Some(error);
                j.updated_at = now;
                let _ = self.jobs.insert(id, j);
                true
            },
            None => false,
        }
    }

    /// Record a job's progress (millionths of a percent), updated at `now`. Answers
    /// whether the job was held.
    pub fn set_progress(&mut self, id: u128, progress: i64, now: u64) -> (r: bool)
        ensures
            r == old(self)@.contains_key(id),
            r ==> final(self)@ == old(self)@.insert(
                id,
                Job { progress, updated_at: now, ..old(self)@[id] },
            ),
            !r ==> final(self)@ == old(self)@,
    {
        match self.jobs.remove(&id) {
            Some(mut j) => {
                j.progress = progress;
                j.updated_at = now;
                let _ = self.jobs.insert(id, j);
                true
            },
            None => false,
        }
    }

    /// Bring back jobs persisted before a restart (in the order given): jobs already in
    /// memory are left alone; finished jobs are kept for status and result queries;
    /// in-flight jobs (queued or running) are reset to queued. Answers with the ids of
    /// the reset jobs, in order, which the caller enqueues again.
    pub fn recover(&mut self, persisted: Vec<Job>) -> (r: Vec<u128>)
        ensures
            (final(self)@, r@) == recover_spec(old(self)@, persisted@),
    {
        let ghost start = self@;
        let ghost all = persisted@;
        let mut requeue: Vec<u128> = Vec::new();
        let mut rest = persisted;
        let mut taken: usize = 0;
        let total = rest.len();
        assert(all.take(0) =~= Seq::<Job>::empty());
        assert(all.skip(0) =~= all);
        while rest.len() > 0
            invariant
                total == all.len(),
                taken + rest.len() == total,
                rest@ == all.skip(taken as int),
                (self@, requeue@) == recover_spec(start, all.take(taken as int)),
            decreases rest.len(),
        {
            let mut job = rest.remove(0);
            proof {
                assert(job == all[taken as int]);
                assert(all.take(taken + 1).drop_last() =~= all.take(taken as int));
                assert(all.take(taken + 1).last() == all[taken as int]);
                assert(rest@ =~= all.skip(taken + 1));
            }
            let id = job.id;
            if self.jobs.contains_key(&id) {
            } else if job.status.is_terminal() {
                let _ = self.jobs.insert(id, job);
            } else {
                job.status = JobStatus::Queued;
                job.progress = 0;
                let _ = self.jobs.insert(id, job);
                requeue.push(id);
            }
            taken = taken + 1;
        }
        assert(all.take(total as int) =~= all);
        requeue
    }
}

/// Recovery keeps every job already held exactly as it was, and loses no persisted job:
/// each one's id is held afterwards. Nothing else is added.
pub proof fn lemma_recover_loses_nothing(m: Map<u128, Job>, persisted: Seq<Job>)
    ensures
        forall|id: u128| #[trigger]
            m.contains_key(id) ==> recover_spec(m, persisted).0.contains_key(id)
                && recover_spec(m, persisted).0[id] == m[id],
        forall|i: int|
            0 <= i < persisted.len() ==> recover_spec(m, persisted).0.contains_key(
                (#[trigger] persisted[i]).id,
            ),
        forall|id: u128| #[trigger]
            recover_spec(m, persisted).0.contains_key(id) ==> m.contains_key(id) || exists|i: int|
                0 <= i < persisted.len() && (#[trigger] persisted[i]).id == id,
    decreases persisted.len(),
{
    if persisted.len() > 0 {
        let init = persisted.drop_last();
        let last = persisted.last();
        lemma_recover_loses_nothing(m, init);
        let m0 = recover_spec(m, init).0;
        let m1 = recover_spec(m, persisted).0;
        assert forall|i: int| 0 <= i < persisted.len() implies m1.contains_key(
            (#[trigger] persisted[i]).id,
        ) by {
            if i < persisted.len() - 1 {
                assert(persisted[i] == init[i]);
            }
        }
        assert forall|id: u128| #[trigger]
            m1.contains_key(id) implies m.contains_key(id) || exists|i: int|
            0 <= i < persisted.len() && (#[trigger] persisted[i]).id == id by {
            if !m.contains_key(id) {
                if id == last.id {
                    assert(persisted[persisted.len() - 1].id == id);
                } else {
                    assert(m0.contains_key(id));
                    let i = choose|i: int| 0 <= i < init.len() && (#[trigger] init[i]).id == id;
                    assert(persisted[i] == init[i]);
                }
            }
        }
    }
}

proof fn lemma_recover_first_occurrence(m: Map<u128, Job>, persisted: Seq<Job>, i: int)
    requires
        0 <= i < persisted.len(),
        !m.contains_key(persisted[i].id),
        forall|j: int| 0 <= j < i ==> (#[trigger] persisted[j]).id != persisted[i].id,
    ensures
        if persisted[i].status.terminal() {
            recover_spec(m, persisted).0[persisted[i].id] == persisted[i]
        } else {
            &&& recover_spec(m, persisted).0[persisted[i].id] == requeued(persisted[i])
            &&& recover_spec(m, persisted).1.contains(persisted[i].id)
        },
    decreases persisted.len(),
{
    let init = persisted.drop_last();
    let last = persisted.last();
    let (m0, q0) = recover_spec(m, init);
    let (m1, q1) = recover_spec(m, persisted);
    lemma_recover_loses_nothing(m, init);
    if i == persisted.len() - 1 {
        if m0.contains_key(last.id) {
            let k = choose|k: int| 0 <= k < init.len() && (#[trigger] init[k]).id == last.id;
            assert(persisted[k] == init[k]);
            assert(false);
        }
        if !last.status.terminal() {
            assert(q1[q1.len() - 1] == last.id);
        }
    } else {
        assert(persisted[i] == init[i]);
        assert forall|j: int| 0 <= j < i implies (#[trigger] init[j]).id != init[i].id by {
            assert(persisted[j] == init[j]);
        }
        lemma_recover_first_occurrence(m, init, i);
        assert(m0.contains_key(init[i].id));
        if !persisted[i].status.terminal() {
            let k = choose|k: int| 0 <= k < q0.len() && q0[k] == persisted[i].id;
            if !m0.contains_key(last.id) && !last.status.terminal() {
                assert(q1[k] == q0[k]);
            }
        }
    }
}

proof fn lemma_recover_listed_queued(m: Map<u128, Job>, persisted: Seq<Job>, k: int)
    requires
        0 <= k < recover_spec(m, persisted).1.len(),
    ensures
        recover_spec(m, persisted).0.contains_key(recover_spec(m, persisted).1[k]),
        recover_spec(m, persisted).0[recover_spec(m, persisted).1[k]].status == JobStatus::Queued,
    decreases persisted.len(),
{
    let init = persisted.drop_last();
    let (m0, q0) = recover_spec(m, init);
    let (m1, q1) = recover_spec(m, persisted);
    if k < q0.len() {
        lemma_recover_listed_queued(m, init, k);
        assert(q1[k] == q0[k]);
    }
}

/// Recovery hands each re-run job over once: the ids to enqueue again are distinct, and
/// none of them names a job that was already held.
pub proof fn lemma_recover_requeues_once(m: Map<u128, Job>, persisted: Seq<Job>)
    ensures
        recover_spec(m, persisted).1.no_duplicates(),
        forall|k: int|
            0 <= k < recover_spec(m, persisted).1.len() ==> !m.contains_key(
                #[trigger] recover_spec(m, persisted).1[k],
            ),
    decreases persisted.len(),
{
    if persisted.len() > 0 {
        let init = persisted.drop_last();
        lemma_recover_requeues_once(m, init);
        lemma_recover_loses_nothing(m, init);
        let (m0, q0) = recover_spec(m, init);
        let j = persisted.last();
        if !m0.contains_key(j.id) && !j.status.terminal() {
            assert forall|k: int| 0 <= k < q0.len() implies q0[k] != j.id by {
                lemma_recover_listed_queued(m, init, k);
            }
            let q1 = q0.push(j.id);
            assert forall|a: int, b: int| 0 <= a < q1.len() && 0 <= b < q1.len() && a != b implies q1[a]
                != q1[b] by {
                if a < q0.len() && b < q0.len() {
                    assert(q1[a] == q0[a] && q1[b] == q0[b]);
                } else if a < q0.len() {
                    assert(q1[a] == q0[a]);
                } else if b < q0.len() {
                    assert(q1[b] == q0[b]);
                }
            }
            assert forall|k: int| 0 <= k < q1.len() implies !m.contains_key(#[trigger] q1[k]) by {
                if k < q0.len() {
                    assert(q1[k] == q0[k]);
                }
            }
        }
    }
}

/// After recovery every job that was not already held is either finished, exactly as
/// persisted, or reset to queued with its progress cleared and listed for enqueueing:
/// in-flight work is re-queued, not lost. Every listed id names a queued job.
pub proof fn lemma_recover_requeues_in_flight(m: Map<u128, Job>, persisted: Seq<Job>)
    ensures
        forall|i: int|
            #![trigger persisted[i]]
            0 <= i < persisted.len() && !m.contains_key(persisted[i].id) && (forall|j: int|
                0 <= j < i ==> persisted[j].id != persisted[i].id) ==> if persisted[i].status.terminal() {
                recover_spec(m, persisted).0[persisted[i].id] == persisted[i]
            } else {
                &&& recover_spec(m, persisted).0[persisted[i].id] == requeued(persisted[i])
                &&& recover_spec(m, persisted).1.contains(persisted[i].id)
            },
        forall|k: int|
            0 <= k < recover_spec(m, persisted).1.len() ==> recover_spec(m, persisted).0.contains_key(
                #[trigger] recover_spec(m, persisted).1[k],
            ) && recover_spec(m, persisted).0[recover_spec(m, persisted).1[k]].status
                == JobStatus::Queued,
{
    assert forall|i: int|
        #![trigger persisted[i]]
        0 <= i < persisted.len() && !m.contains_key(persisted[i].id) && (forall|j: int|
            0 <= j < i ==> persisted[j].id != persisted[i].id) implies if persisted[i].status.terminal() {
        recover_spec(m, persisted).0[persisted[i].id] == persisted[i]
    } else {
        &&& recover_spec(m, persisted).0[persisted[i].id] == requeued(persisted[i])
        &&& recover_spec(m, persisted).1.contains(persisted[i].id)
    } by {
        lemma_recover_first_occurrence(m, persisted, i);
    }
    assert forall|k: int| 0 <= k < recover_spec(m, persisted).1.len() implies recover_spec(
        m,
        persisted,
    ).0.contains_key(#[trigger] recover_spec(m, persisted).1[k]) && recover_spec(
        m,
        persisted,
    ).0[recover_spec(m, persisted).1[k]].status == JobStatus::Queued by {
        lemma_recover_listed_queued(m, persisted, k);
    }
}

/// Decides which progress reports are worth recording: reports are clamped to
/// `0..=100%`, and one is recorded only when it moved by at least half a percent since
/// the last recorded one, or reached 100%.
pub struct ProgressThrottle {
    last: i64,
}

impl View for ProgressThrottle {
    type V = i64;

    closed spec fn view(&self) -> i64 {
        self.last
    }
}

/// A progress value clamped to `0..=100%` (in millionths of a percent).
pub open spec fn clamp_progress(p: i64) -> i64 {
    if p < 0 {
        0
    } else if p > PROGRESS_DONE {
        PROGRESS_DONE
    } else {
        p
    }
}

/// Whether a clamped report `p` is recorded after `last`.
pub open spec fn worth_recording(last: i64, p: i64) -> bool {
    let d = if p >= last { p - last } else { last - p };
    !(d < 500_000 && p < PROGRESS_DONE)
}

impl ProgressThrottle {
    /// The last recorded value is always a clamped progress value.
    #[verifier::type_invariant]
    spec fn recorded_in_range(self) -> bool {
        0 <= self.last <= PROGRESS_DONE
    }

    /// A throttle that has recorded nothing (as if 0% had been recorded).
    pub fn new() -> (r: Self)
        ensures
            r@ == 0,
    {
        ProgressThrottle { last: 0 }
    }

    /// Take a report (millionths of a percent); answers with the value to record, if any.
    pub fn report(&mut self, progress: i64) -> (r: Option<i64>)
        ensures
            0 <= final(self)@ <= PROGRESS_DONE,
            worth_recording(old(self)@, clamp_progress(progress)) ==> r == Some(
                clamp_progress(progress),
            ) && final(self)@ == clamp_progress(progress),
            !worth_recording(old(self)@, clamp_progress(progress)) ==> r is None && final(self)@
                == old(self)@,
    {
        proof {
            use_type_invariant(&*self);
        }
        let p = if progress < 0 {
            0
        } else if progress > PROGRESS_DONE {
            PROGRESS_DONE
        } else {
            progress
        };
        let d = if p >= self.last {
            p - self.last
        } else {
            self.last - p
        };
        if d < 500_000 && p < PROGRESS_DONE {
            return None;
        }
        self.last = p;
        Some(p)
    }
}

proof fn lemma_lookup_first<V>(pairs: Seq<(String, V)>, i: int, key: Seq<char>)
    requires
        0 <= i < pairs.len(),
        pairs[i].0@ == key,
        forall|j: int| 0 <= j < i ==> (#[trigger] pairs[j]).0@ != key,
    ensures
        lookup(pairs, key) == Some(pairs[i].1),
    decreases i,
{
    if i > 0 {
        assert forall|j: int| 0 <= j < i - 1 implies (#[trigger] pairs.drop_first()[j]).0@
            != key by {
            assert(pairs.drop_first()[j] == pairs[j + 1]);
        }
        assert(pairs[0].0@ != key);
        lemma_lookup_first(pairs.drop_first(), i - 1, key);
    }
}

proof fn lemma_lookup_set_at<V>(pairs: Seq<(String, V)>, i: int, p: (String, V), k: Seq<char>)
    requires
        0 <= i < pairs.len(),
        pairs[i].0@ == p.0@,
        forall|j: int| 0 <= j < i ==> (#[trigger] pairs[j]).0@ != p.0@,
    ensures
        lookup(pairs.update(i, p), k) == if k == p.0@ {
            Some(p.1)
        } else {
            lookup(pairs, k)
        },
    decreases pairs.len(),
{
    let q = pairs.update(i, p);
    if i == 0 {
        assert(q.drop_first() =~= pairs.drop_first());
    } else {
        assert(pairs[0].0@ != p.0@);
        assert forall|j: int| 0 <= j < i - 1 implies (#[trigger] pairs.drop_first()[j]).0@
            != p.0@ by {
            assert(pairs.drop_first()[j] == pairs[j + 1]);
        }
        lemma_lookup_set_at(pairs.drop_first(), i - 1, p, k);
        assert(q.drop_first() =~= pairs.drop_first().update(i - 1, p));
    }
}

proof fn lemma_lookup_set<V>(pairs: Seq<(String, V)>, i: int, p: (String, V))
    requires
        0 <= i < pairs.len(),
        pairs[i].0@ == p.0@,
        forall|j: int| 0 <= j < i ==> (#[trigger] pairs[j]).0@ != p.0@,
    ensures
        forall|k: Seq<char>|
            #![trigger lookup(pairs.update(i, p), k)]
            lookup(pairs.update(i, p), k) == if k == p.0@ {
                Some(p.1)
            } else {
                lookup(pairs, k)
            },
{
    assert forall|k: Seq<char>|
        #![trigger lookup(pairs.update(i, p), k)]
        lookup(pairs.update(i, p), k) == if k == p.0@ {
            Some(p.1)
        } else {
            lookup(pairs, k)
        } by {
        lemma_lookup_set_at(pairs, i, p, k);
    }
}

proof fn lemma_lookup_push_at<V>(pairs: Seq<(String, V)>, p: (String, V), k: Seq<char>)
    requires
        lookup(pairs, p.0@) is None,
    ensures
        lookup(pairs.push(p), k) == if k == p.0@ {
            Some(p.1)
        } else {
            lookup(pairs, k)
        },
    decreases pairs.len(),
{
    if pairs.len() == 0 {
        assert(pairs.push(p).drop_first() =~= Seq::<(String, V)>::empty());
        assert(lookup(pairs.push(p).drop_first(), k) is None);
    } else {
        assert(pairs[0].0@ != p.0@);
        lemma_lookup_push_at(pairs.drop_first(), p, k);
        assert(pairs.push(p).drop_first() =~= pairs.drop_first().push(p));
        assert(pairs.push(p)[0] == pairs[0]);
    }
}

proof fn lemma_lookup_push<V>(pairs: Seq<(String, V)>, p: (String, V))
    requires
        lookup(pairs, p.0@) is None,
    ensures
        forall|k: Seq<char>|
            #![trigger lookup(pairs.push(p), k)]
            lookup(pairs.push(p), k) == if k == p.0@ {
                Some(p.1)
            } else {
                lookup(pairs, k)
            },
{
    assert forall|k: Seq<char>|
        #![trigger lookup(pairs.push(p), k)]
        lookup(pairs.push(p), k) == if k == p.0@ {
            Some(p.1)
        } else {
            lookup(pairs, k)
        } by {
        lemma_lookup_push_at(pairs, p, k);
    }
}

} // verus!
