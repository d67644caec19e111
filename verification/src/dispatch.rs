//! [`FfmpegHandler`]: turns a [`UniversalRequest`] into an [`Operation`] and decides
//! what to execute for it against the subprocess engine.
//!
//! Inline operations (probe/capabilities/presets) are answered with JSON; everything
//! else produces an output file in the managed output directory. The handler's answer
//! is a [`Plan`]: the caller carries it out (runs ffmpeg, writes the concat list, probes
//! for the duration) and then calls [`finalize_output`].

use vstd::prelude::*;
use crate::api_queue::{Attachment, JobResult, UniversalRequest};
use crate::container::Container;
use crate::error::MediaError;
use crate::ffmpeg::command::{
    concat_args, extract_audio_args, extract_audio_args_spec, filter_args, thumbnail_args,
    thumbnail_args_spec, transcode_args, transcode_args_spec,
};
use crate::ffmpeg::Engine;
use crate::operation::{route, route_bitrate_fits, CapKind, Operation, OperationView, RouteFault, reports_route_fault};
use crate::path::{extension, extension_of, file_stem, file_stem_of, join_path, push_text};
use crate::security::{
    confine_path, confined, ensure_safe_input_token, escape_message, first_raw_problem,
    names_denied_protocol, protocol_message, validate_raw_args,
};
use crate::text::{
    chars_of, eq_str, push_all, push_arg, push_arg_string, push_str, string_of, strings_view,
    trim_start_char, trim_start_matches,
};

verus! {

/// Executes universal requests against the FFmpeg engine.
pub struct FfmpegHandler {
    engine: Engine,
    output_dir: String,
    raw_enabled: bool,
}

impl FfmpegHandler {
    pub fn new(engine: Engine, output_dir: String, raw_enabled: bool) -> (r: Self)
        ensures
            r.engine_spec() == engine,
            r.output_dir_spec() == output_dir@,
            r.raw_enabled_spec() == raw_enabled,
    {
        FfmpegHandler { engine, output_dir, raw_enabled }
    }

    pub closed spec fn engine_spec(&self) -> Engine {
        self.engine
    }

    pub closed spec fn output_dir_spec(&self) -> Seq<char> {
        self.output_dir@
    }

    pub closed spec fn raw_enabled_spec(&self) -> bool {
        self.raw_enabled
    }

    /// The engine this handler runs jobs on.
    pub fn engine(&self) -> (r: &Engine)
        ensures
            *r == self.engine_spec(),
    {
        &self.engine
    }

    /// The managed directory outputs are written to.
    pub fn output_dir(&self) -> (r: &str)
        ensures
            r@ == self.output_dir_spec(),
    {
        self.output_dir.as_str()
    }

    /// Whether the gated raw passthrough is permitted.
    pub fn raw_enabled(&self) -> (r: bool)
        ensures
            r == self.raw_enabled_spec(),
    {
        self.raw_enabled
    }
}

// ───────────────────────── helpers ─────────────────────────

/// The path of the first attachment, when there is one.
pub open spec fn primary_input_spec(atts: Seq<Attachment>) -> Option<Seq<char>> {
    if atts.len() > 0 {
        Some(atts[0].path@)
    } else {
        None
    }
}

/// The first attachment's path, or an error if none is present.
pub fn primary_input(request: &UniversalRequest) -> (r: Result<String, MediaError>)
    ensures
        match r {
            Ok(p) => primary_input_spec(request.attachments@) == Some(p@),
            Err(e) => primary_input_spec(request.attachments@) is None && (e matches MediaError::Other(
                m,
            ) && m@ == "operation requires an input file"@),
        },
{
    if request.attachments.len() > 0 {
        Ok(request.attachments[0].path.clone())
    } else {
        Err(MediaError::Other("operation requires an input file".to_owned()))
    }
}

/// The first attachment's original file name, when there is one.
pub fn input_filename(request: &UniversalRequest) -> (r: Option<String>)
    ensures
        match r {
            Some(n) => request.attachments@.len() > 0 && n@ == request.attachments@[0].filename@,
            None => request.attachments@.len() == 0,
        },
{
    if request.attachments.len() > 0 {
        Some(request.attachments[0].filename.clone())
    } else {
        None
    }
}

/// The name of a job's output file: the job id, a dot, the extension.
pub open spec fn output_name_for(job_id: Seq<char>, ext: Seq<char>) -> Seq<char> {
    job_id + "."@ + ext
}

/// The confined path of a job's output file in `dir`.
pub fn output_path(dir: &str, job_id: &str, ext: &str) -> (r: Result<String, MediaError>)
    ensures
        match r {
            Ok(p) => confined(dir@, output_name_for(job_id@, ext@)) == Some(p@),
            Err(e) => confined(dir@, output_name_for(job_id@, ext@)) is None && (e matches MediaError::Security(
                m,
            ) && m@ == escape_message(dir@, output_name_for(job_id@, ext@))),
        },
{
    let mut name = chars_of(job_id);
    push_str(&mut name, ".");
    push_str(&mut name, ext);
    let name = string_of(&name);
    confine_path(dir, name.as_str())
}

/// The download name suggested for an output: the stem of the input's original name
/// (or `output`), a dot, and the output's extension (or `out`).
pub open spec fn download_name(output: Seq<char>, original_name: Option<Seq<char>>) -> Seq<char> {
    let ext = match extension(output) {
        Some(e) => e,
        None => "out"@,
    };
    let stem = match original_name {
        Some(n) => match file_stem(n) {
            Some(s) => s,
            None => "output"@,
        },
        None => "output"@,
    };
    stem + "."@ + ext
}

/// The MIME type recorded for an output of `container` (unknown: octet stream).
pub open spec fn output_content_type(container: Option<Container>) -> Seq<char> {
    match container {
        Some(c) => c.mime_text(),
        None => "application/octet-stream"@,
    }
}

/// The result recorded for a produced output file of `size` bytes.
pub fn finalize_output(
    output: String,
    container: Option<Container>,
    original_name: Option<String>,
    size: u64,
) -> (r: JobResult)
    ensures
        r.output_path matches Some(p) && p@ == output@,
        r.output_name matches Some(n) && n@ == download_name(
            output@,
            crate::format::opt_text(original_name),
        ),
        r.content_type matches Some(t) && t@ == output_content_type(container),
        r.body is None,
        r.size == size,
{
    let content_type = match container {
        Some(c) => c.mime_type().to_owned(),
        None => "application/octet-stream".to_owned(),
    };
    let ov = chars_of(output.as_str());
    let ext = match extension_of(&ov) {
        Some(e) => e,
        None => chars_of("out"),
    };
    let stem = match &original_name {
        Some(n) => match file_stem_of(&chars_of(n.as_str())) {
            Some(s) => s,
            None => chars_of("output"),
        },
        None => chars_of("output"),
    };
    let mut name = stem;
    push_str(&mut name, ".");
    push_all(&mut name, &ext);
    JobResult {
        output_path: Some(output),
        output_name: Some(string_of(&name)),
        content_type: Some(content_type),
        body: None,
        size,
    }
}

/// A path quoted for a concat-demuxer list: each `'` becomes `'\''`.
pub open spec fn concat_escape(p: Seq<char>) -> Seq<char>
    decreases p.len(),
{
    if p.len() == 0 {
        Seq::empty()
    } else if p.last() == '\'' {
        concat_escape(p.drop_last()) + "'\\''"@
    } else {
        concat_escape(p.drop_last()).push(p.last())
    }
}

/// The concat-demuxer list naming each attachment, in order: `file '<path>'` lines.
pub open spec fn concat_list(atts: Seq<Attachment>) -> Seq<char>
    decreases atts.len(),
{
    if atts.len() == 0 {
        Seq::empty()
    } else {
        concat_list(atts.drop_last()) + "file '"@ + concat_escape(atts.last().path@) + "'\n"@
    }
}

fn escape_for_concat(p: &String) -> (r: Vec<char>)
    ensures
        r@ == concat_escape(p@),
{
    let v = chars_of(p.as_str());
    let mut out: Vec<char> = Vec::new();
    let mut i: usize = 0;
    proof {
        reveal_strlit("'\\''");
    }
    while i < v.len()
        invariant
            i <= v.len(),
            out@ == concat_escape(v@.take(i as int)),
        decreases v.len() - i,
    {
        proof {
            assert(v@.take(i + 1).drop_last() =~= v@.take(i as int));
            assert(v@.take(i + 1).last() == v@[i as int]);
        }
        if v[i] == '\'' {
            push_str(&mut out, "'\\''");
        } else {
            out.push(v[i]);
        }
        i = i + 1;
    }
    assert(v@.take(v.len() as int) =~= v@);
    out
}

/// The concat-demuxer list for the attachments.
pub fn concat_list_text(atts: &Vec<Attachment>) -> (r: String)
    ensures
        r@ == concat_list(atts@),
{
    let mut out: Vec<char> = Vec::new();
    let mut i: usize = 0;
    while i < atts.len()
        invariant
            i <= atts.len(),
            out@ == concat_list(atts@.take(i as int)),
        decreases atts.len() - i,
    {
        proof {
            assert(atts@.take(i + 1).drop_last() =~= atts@.take(i as int));
            assert(atts@.take(i + 1).last() == atts@[i as int]);
        }
        push_str(&mut out, "file '");
        push_all(&mut out, &escape_for_concat(&atts[i].path));
        push_str(&mut out, "'\n");
        i = i + 1;
    }
    assert(atts@.take(atts.len() as int) =~= atts@);
    string_of(&out)
}

/// Whether a raw argument is one of the `INPUT`/`OUTPUT` placeholders.
pub open spec fn is_placeholder(a: Seq<char>) -> bool {
    a == "INPUT"@ || a == "OUTPUT"@
}

/// The raw arguments that are not placeholders, in order.
pub open spec fn non_placeholders(args: Seq<Seq<char>>) -> Seq<Seq<char>>
    decreases args.len(),
{
    if args.len() == 0 {
        Seq::empty()
    } else {
        non_placeholders(args.drop_last()) + if is_placeholder(args.last()) {
            Seq::empty()
        } else {
            seq![args.last()]
        }
    }
}

/// The raw arguments with `INPUT` replaced by `input` and `OUTPUT` by `output`.
pub open spec fn substituted(args: Seq<Seq<char>>, input: Seq<char>, output: Seq<char>) -> Seq<
    Seq<char>,
> {
    args.map_values(
        |a: Seq<char>|
            if a == "INPUT"@ {
                input
            } else if a == "OUTPUT"@ {
                output
            } else {
                a
            },
    )
}

/// The raw arguments to validate: every one but the placeholders.
pub fn raw_args_to_check(args: &Vec<String>) -> (r: Vec<String>)
    ensures
        strings_view(r@) == non_placeholders(strings_view(args@)),
{
    let ghost all = strings_view(args@);
    let mut out: Vec<String> = Vec::new();
    let mut i: usize = 0;
    while i < args.len()
        invariant
            i <= args.len(),
            all == strings_view(args@),
            strings_view(out@) == non_placeholders(all.take(i as int)),
        decreases args.len() - i,
    {
        proof {
            assert(all.take(i + 1).drop_last() =~= all.take(i as int));
            assert(all.take(i + 1).last() == args@[i as int]@);
        }
        let a = chars_of(args[i].as_str());
        let ghost before = strings_view(out@);
        if !(eq_str(&a, "INPUT") || eq_str(&a, "OUTPUT")) {
            push_arg_string(&mut out, args[i].clone());
        }
        assert(strings_view(out@) =~= non_placeholders(all.take(i + 1)));
        i = i + 1;
    }
    assert(all.take(args.len() as int) =~= all);
    out
}

/// The raw arguments with the placeholders replaced by the input and output paths.
pub fn substitute_placeholders(args: &Vec<String>, input: &str, output: &str) -> (r: Vec<String>)
    ensures
        strings_view(r@) == substituted(strings_view(args@), input@, output@),
{
    let ghost all = strings_view(args@);
    let mut out: Vec<String> = Vec::new();
    let mut i: usize = 0;
    while i < args.len()
        invariant
            i <= args.len(),
            all == strings_view(args@),
            strings_view(out@) == substituted(all, input@, output@).take(i as int),
        decreases args.len() - i,
    {
        let a = chars_of(args[i].as_str());
        if eq_str(&a, "INPUT") {
            push_arg(&mut out, input);
        } else if eq_str(&a, "OUTPUT") {
            push_arg(&mut out, output);
        } else {
            push_arg_string(&mut out, args[i].clone());
        }
        assert(strings_view(out@) =~= substituted(all, input@, output@).take(i + 1));
        i = i + 1;
    }
    assert(substituted(all, input@, output@).take(args.len() as int) =~= substituted(
        all,
        input@,
        output@,
    ));
    out
}


// ───────────────────────── planning ─────────────────────────

/// What to do for a request.
#[derive(Debug)]
pub enum Plan {
    /// Probe `input` and answer with its stream/format information as JSON.
    Probe { input: String },
    /// Answer with the slice `kind` of the engine's capabilities as JSON.
    Capabilities { kind: CapKind },
    /// Answer with the built-in presets as JSON.
    Presets,
    /// Run ffmpeg with `args` (the engine adds its global flags) to produce `output`:
    /// first write `list_file` (path, contents) when given, and probe `probe_input` for
    /// the total duration when given; afterwards remove the list file and record the
    /// output with `container`'s MIME type and a download name from `original_name`.
    Run {
        args: Vec<String>,
        output: String,
        probe_input: Option<String>,
        list_file: Option<(String, String)>,
        container: Option<Container>,
        original_name: Option<String>,
    },
}

/// The value of a [`Plan`], its strings taken as text.
pub enum PlanView {
    Probe { input: Seq<char> },
    Capabilities { kind: CapKind },
    Presets,
    Run {
        args: Seq<Seq<char>>,
        output: Seq<char>,
        probe_input: Option<Seq<char>>,
        list_file: Option<(Seq<char>, Seq<char>)>,
        container: Option<Container>,
        original_name: Option<Seq<char>>,
    },
}

/// The text of an optional pair of strings.
pub open spec fn opt_pair_text(p: Option<(String, String)>) -> Option<(Seq<char>, Seq<char>)> {
    match p {
        Some((a, b)) => Some((a@, b@)),
        None => None,
    }
}

impl View for Plan {
    type V = PlanView;

    open spec fn view(&self) -> PlanView {
        match self {
            Plan::Probe { input } => PlanView::Probe { input: input@ },
            Plan::Capabilities { kind } => PlanView::Capabilities { kind: *kind },
            Plan::Presets => PlanView::Presets,
            Plan::Run { args, output, probe_input, list_file, container, original_name } =>
                PlanView::Run {
                args: strings_view(args@),
                output: output@,
                probe_input: crate::format::opt_text(*probe_input),
                list_file: opt_pair_text(*list_file),
                container: *container,
                original_name: crate::format::opt_text(*original_name),
            },
        }
    }
}

/// Why a request cannot be carried out.
pub enum PlanFault {
    Route(RouteFault),
    NoInput,
    UnsafeInput(Seq<char>),
    Escape(Seq<char>, Seq<char>),
    RawDisabled,
    RawArg(Seq<char>),
    ConcatNeedsTwo,
}

/// The error each planning fault is reported as.
pub open spec fn reports_plan_fault(e: MediaError, f: PlanFault) -> bool {
    match f {
        PlanFault::Route(r) => reports_route_fault(e, r),
        PlanFault::NoInput => e matches MediaError::Other(m) && m@
            == "operation requires an input file"@,
        PlanFault::UnsafeInput(t) => e matches MediaError::Security(m) && m@ == protocol_message(t),
        PlanFault::Escape(base, cand) => e matches MediaError::Security(m) && m@ == escape_message(
            base,
            cand,
        ),
        PlanFault::RawDisabled => e matches MediaError::Security(m) && m@
            == "raw passthrough is disabled on this server"@,
        PlanFault::RawArg(p) => e matches MediaError::Security(m) && m@ == p,
        PlanFault::ConcatNeedsTwo => e matches MediaError::Other(m) && m@
            == "concat requires at least 2 inputs"@,
    }
}

/// The ffmpeg arguments and the output's container of a file-producing operation.
pub open spec fn file_op_args(op: OperationView, input: Seq<char>, output: Seq<char>) -> (Seq<
    Seq<char>,
>, Option<Container>) {
    match op {
        OperationView::Convert { format, trim } => (
            transcode_args_spec(input, output, format, trim),
            Some(format.container),
        ),
        OperationView::ExtractAudio { codec, container } => (
            extract_audio_args_spec(input, output, codec),
            Some(container),
        ),
        OperationView::Thumbnail { time, width } => (
            thumbnail_args_spec(input, output, time, width),
            None,
        ),
        OperationView::Filter { graph, container } => (
            seq!["-i"@, input, "-vf"@, graph, output],
            container,
        ),
        _ => (Seq::empty(), None),
    }
}

/// The plan of a file-producing operation (convert, extract-audio, thumbnail, filter):
/// the primary input must exist and be a local path; the output is named after the job
/// and confined to the output directory.
pub open spec fn file_plan(
    dir: Seq<char>,
    job_id: Seq<char>,
    op: OperationView,
    req: UniversalRequest,
) -> Result<PlanView, PlanFault> {
    match primary_input_spec(req.attachments@) {
        None => Err(PlanFault::NoInput),
        Some(input) => if names_denied_protocol(input) {
            Err(PlanFault::UnsafeInput(input))
        } else {
            let cand = output_name_for(
                job_id,
                crate::operation::output_extension_spec(op, extension(input)),
            );
            match confined(dir, cand) {
                None => Err(PlanFault::Escape(dir, cand)),
                Some(output) => Ok(
                    PlanView::Run {
                        args: file_op_args(op, input, output).0,
                        output,
                        probe_input: Some(input),
                        list_file: None,
                        container: file_op_args(op, input, output).1,
                        original_name: Some(req.attachments@[0].filename@),
                    },
                ),
            }
        },
    }
}

/// The path of the first attachment that names a denied protocol, if any.
pub open spec fn first_unsafe(atts: Seq<Attachment>) -> Option<Seq<char>>
    decreases atts.len(),
{
    if atts.len() == 0 {
        None
    } else if names_denied_protocol(atts[0].path@) {
        Some(atts[0].path@)
    } else {
        first_unsafe(atts.drop_first())
    }
}

/// The path of the concat list of a job.
pub open spec fn concat_list_path(dir: Seq<char>, job_id: Seq<char>) -> Seq<char> {
    push_text(dir, job_id + ".concat.txt"@)
}

/// The plan of a concat: at least two local inputs, the output confined to the output
/// directory, the inputs listed for the concat demuxer in a file next to it.
pub open spec fn concat_plan(
    dir: Seq<char>,
    job_id: Seq<char>,
    container: Container,
    req: UniversalRequest,
) -> Result<PlanView, PlanFault> {
    if req.attachments@.len() < 2 {
        Err(PlanFault::ConcatNeedsTwo)
    } else {
        match first_unsafe(req.attachments@) {
            Some(t) => Err(PlanFault::UnsafeInput(t)),
            None => {
                let cand = output_name_for(job_id, container.extension_text());
                match confined(dir, cand) {
                    None => Err(PlanFault::Escape(dir, cand)),
                    Some(output) => Ok(
                        PlanView::Run {
                            args: seq![
                                "-f"@,
                                "concat"@,
                                "-safe"@,
                                "0"@,
                                "-i"@,
                                concat_list_path(dir, job_id),
                                output,
                            ],
                            output,
                            probe_input: None,
                            list_file: Some(
                                (concat_list_path(dir, job_id), concat_list(req.attachments@)),
                            ),
                            container: Some(container),
                            original_name: None,
                        },
                    ),
                }
            },
        }
    }
}

/// The plan of a raw passthrough: only when enabled; the primary input must be a local
/// path; every argument but the placeholders passes the raw-argument policy; the output
/// is confined to the output directory; the placeholders are replaced by the paths.
pub open spec fn raw_plan(
    dir: Seq<char>,
    raw_enabled: bool,
    job_id: Seq<char>,
    args: Seq<Seq<char>>,
    output_ext: Seq<char>,
    req: UniversalRequest,
) -> Result<PlanView, PlanFault> {
    if !raw_enabled {
        Err(PlanFault::RawDisabled)
    } else {
        match primary_input_spec(req.attachments@) {
            None => Err(PlanFault::NoInput),
            Some(input) => if names_denied_protocol(input) {
                Err(PlanFault::UnsafeInput(input))
            } else {
                match first_raw_problem(non_placeholders(args)) {
                    Some(p) => Err(PlanFault::RawArg(p)),
                    None => {
                        let cand = output_name_for(job_id, trim_start_char(output_ext, '.'));
                        match confined(dir, cand) {
                            None => Err(PlanFault::Escape(dir, cand)),
                            Some(output) => Ok(
                                PlanView::Run {
                                    args: substituted(args, input, output),
                                    output,
                                    probe_input: Some(input),
                                    list_file: None,
                                    container: None,
                                    original_name: None,
                                },
                            ),
                        }
                    },
                }
            },
        }
    }
}

/// What a handler with output directory `dir` and raw permission `raw_enabled` decides
/// for request `req` of job `job_id`: the request is routed to an operation first; then
/// inline operations are answered, and the others planned as above.
pub open spec fn plan_spec(
    dir: Seq<char>,
    raw_enabled: bool,
    job_id: Seq<char>,
    req: UniversalRequest,
) -> Result<PlanView, PlanFault> {
    match route(req) {
        Err(f) => Err(PlanFault::Route(f)),
        Ok(op) => match op {
            OperationView::Probe => match primary_input_spec(req.attachments@) {
                None => Err(PlanFault::NoInput),
                Some(input) => if names_denied_protocol(input) {
                    Err(PlanFault::UnsafeInput(input))
                } else {
                    Ok(PlanView::Probe { input })
                },
            },
            OperationView::Capabilities { kind } => Ok(PlanView::Capabilities { kind }),
            OperationView::Presets => Ok(PlanView::Presets),
            OperationView::Raw { args, output_ext } => raw_plan(
                dir,
                raw_enabled,
                job_id,
                args,
                output_ext,
                req,
            ),
            OperationView::Concat { container } => concat_plan(dir, job_id, container, req),
            _ => file_plan(dir, job_id, op, req),
        },
    }
}

fn check_all_safe(atts: &Vec<Attachment>) -> (r: Result<(), MediaError>)
    ensures
        match r {
            Ok(_) => first_unsafe(atts@) is None,
            Err(e) => first_unsafe(atts@) matches Some(t) && (e matches MediaError::Security(m)
                && m@ == protocol_message(t)),
        },
{
    let mut i: usize = 0;
    assert(atts@.skip(0) =~= atts@);
    while i < atts.len()
        invariant
            i <= atts.len(),
            first_unsafe(atts@) == first_unsafe(atts@.skip(i as int)),
        decreases atts.len() - i,
    {
        proof {
            assert(atts@.skip(i as int)[0] == atts@[i as int]);
            assert(atts@.skip(i as int).drop_first() =~= atts@.skip(i + 1));
        }
        match ensure_safe_input_token(atts[i].path.as_str()) {
            Ok(_) => {},
            Err(e) => {
                return Err(e);
            },
        }
        i = i + 1;
    }
    Ok(())
}

impl FfmpegHandler {
    fn plan_file_op(&self, job_id: &str, request: &UniversalRequest, op: Operation) -> (r: Result<
        Plan,
        MediaError,
    >)
        requires
            op@ is Convert || op@ is ExtractAudio || op@ is Thumbnail || op@ is Filter,
        ensures
            match (r, file_plan(self.output_dir@, job_id@, op@, *request)) {
                (Ok(p), Ok(v)) => p@ == v,
                (Err(e), Err(f)) => reports_plan_fault(e, f),
                _ => false,
            },
    {
        let input = match primary_input(request) {
            Ok(i) => i,
            Err(e) => {
                return Err(e);
            },
        };
        match ensure_safe_input_token(input.as_str()) {
            Ok(_) => {},
            Err(e) => {
                return Err(e);
            },
        }
        let input_ext = extension_of(&chars_of(input.as_str()));
        let ext = match &input_ext {
            Some(e) => {
                let es = string_of(e);
                op.output_extension(Some(es.as_str()))
            },
            None => op.output_extension(None),
        };
        let output = match output_path(self.output_dir.as_str(), job_id, ext.as_str()) {
            Ok(o) => o,
            Err(e) => {
                return Err(e);
            },
        };
        let original_name = input_filename(request);
        let (args, container) = match &op {
            Operation::Convert { format, trim } => (
                transcode_args(input.as_str(), output.as_str(), format, trim),
                Some(format.container),
            ),
            Operation::ExtractAudio { codec, container } => {
                let a = match codec {
                    Some(c) => extract_audio_args(input.as_str(), output.as_str(), Some(c.as_str())),
                    None => extract_audio_args(input.as_str(), output.as_str(), None),
                };
                (a, Some(*container))
            },
            Operation::Thumbnail { time, width } => (
                thumbnail_args(input.as_str(), output.as_str(), *time, *width),
                None,
            ),
            Operation::Filter { graph, container } => (
                filter_args(input.as_str(), output.as_str(), graph.as_str()),
                *container,
            ),
            _ => (Vec::new(), None),
        };
        Ok(
            Plan::Run {
                args,
                output,
                probe_input: Some(input),
                list_file: None,
                container,
                original_name,
            },
        )
    }

    fn plan_concat(&self, job_id: &str, request: &UniversalRequest, container: Container) -> (r:
        Result<Plan, MediaError>)
        ensures
            match (r, concat_plan(self.output_dir@, job_id@, container, *request)) {
                (Ok(p), Ok(v)) => p@ == v,
                (Err(e), Err(f)) => reports_plan_fault(e, f),
                _ => false,
            },
    {
        if request.attachments.len() < 2 {
            return Err(MediaError::Other("concat requires at least 2 inputs".to_owned()));
        }
        match check_all_safe(&request.attachments) {
            Ok(_) => {},
            Err(e) => {
                return Err(e);
            },
        }
        let output = match output_path(self.output_dir.as_str(), job_id, container.extension()) {
            Ok(o) => o,
            Err(e) => {
                return Err(e);
            },
        };
        let mut list_name = chars_of(job_id);
        push_str(&mut list_name, ".concat.txt");
        let list_name = string_of(&list_name);
        let list_path = join_path(self.output_dir.as_str(), list_name.as_str());
        let list = concat_list_text(&request.attachments);
        let args = concat_args(list_path.as_str(), output.as_str());
        Ok(
            Plan::Run {
                args,
                output,
                probe_input: None,
                list_file: Some((list_path, list)),
                container: Some(container),
                original_name: None,
            },
        )
    }

    fn plan_raw(
        &self,
        job_id: &str,
        request: &UniversalRequest,
        args: Vec<String>,
        output_ext: String,
    ) -> (r: Result<Plan, MediaError>)
        ensures
            match (
                r,
                raw_plan(
                    self.output_dir@,
                    self.raw_enabled,
                    job_id@,
                    strings_view(args@),
                    output_ext@,
                    *request,
                ),
            ) {
                (Ok(p), Ok(v)) => p@ == v,
                (Err(e), Err(f)) => reports_plan_fault(e, f),
                _ => false,
            },
    {
        if !self.raw_enabled {
            return Err(
                MediaError::Security("raw passthrough is disabled on this server".to_owned()),
            );
        }
        let input = match primary_input(request) {
            Ok(i) => i,
            Err(e) => {
                return Err(e);
            },
        };
        match ensure_safe_input_token(input.as_str()) {
            Ok(_) => {},
            Err(e) => {
                return Err(e);
            },
        }
        let to_check = raw_args_to_check(&args);
        match validate_raw_args(&to_check) {
            Ok(_) => {},
            Err(e) => {
                return Err(e);
            },
        }
        let ext = string_of(&trim_start_matches(&chars_of(output_ext.as_str()), '.'));
        let output = match output_path(self.output_dir.as_str(), job_id, ext.as_str()) {
            Ok(o) => o,
            Err(e) => {
                return Err(e);
            },
        };
        let built = substitute_placeholders(&args, input.as_str(), output.as_str());
        Ok(
            Plan::Run {
                args: built,
                output,
                probe_input: Some(input),
                list_file: None,
                container: None,
                original_name: None,
            },
        )
    }

    /// Decide what to do for `request`, run as job `job_id` (the id's text).
    pub fn plan(&self, job_id: &str, request: &UniversalRequest) -> (r: Result<Plan, MediaError>)
        requires
            route_bitrate_fits(*request),
        ensures
            match (r, plan_spec(self.output_dir_spec(), self.raw_enabled_spec(), job_id@, *request)) {
                (Ok(p), Ok(v)) => p@ == v,
                (Err(e), Err(f)) => reports_plan_fault(e, f),
                _ => false,
            },
    {
        let op = match Operation::from_request(request) {
            Ok(op) => op,
            Err(e) => {
                return Err(e);
            },
        };
        match op {
            Operation::Probe => {
                let input = match primary_input(request) {
                    Ok(i) => i,
                    Err(e) => {
                        return Err(e);
                    },
                };
                match ensure_safe_input_token(input.as_str()) {
                    Ok(_) => Ok(Plan::Probe { input }),
                    Err(e) => Err(e),
                }
            },
            Operation::Capabilities { kind } => Ok(Plan::Capabilities { kind }),
            Operation::Presets => Ok(Plan::Presets),
            Operation::Raw { args, output_ext } => self.plan_raw(job_id, request, args, output_ext),
            Operation::Concat { container } => self.plan_concat(job_id, request, container),
            other => self.plan_file_op(job_id, request, other),
        }
    }
}


// ───────────────────────── laws ─────────────────────────

/// The raw passthrough is gated: a handler without raw permission refuses every request
/// that routes to it, with a security error, before looking at anything else.
pub proof fn lemma_raw_gated_off(dir: Seq<char>, job_id: Seq<char>, req: UniversalRequest)
    requires
        route(req) matches Ok(OperationView::Raw { .. }),
    ensures
        plan_spec(dir, false, job_id, req) matches Err(PlanFault::RawDisabled),
{
}

/// Every output a plan writes is confined to the output directory: it is the confined
/// form of some name under `dir` (see [`confined`]: the normalized joined path, which
/// begins with the normalized directory).
pub proof fn lemma_outputs_confined(
    dir: Seq<char>,
    raw_enabled: bool,
    job_id: Seq<char>,
    req: UniversalRequest,
)
    ensures
        plan_spec(dir, raw_enabled, job_id, req) matches Ok(PlanView::Run { output, .. })
            ==> exists|cand: Seq<char>| confined(dir, cand) == Some(output),
{
    match plan_spec(dir, raw_enabled, job_id, req) {
        Ok(PlanView::Run { output, .. }) => {
            let op = route(req)->Ok_0;
            match op {
                OperationView::Raw { args, output_ext } => {
                    let cand = output_name_for(job_id, trim_start_char(output_ext, '.'));
                    assert(confined(dir, cand) == Some(output));
                },
                OperationView::Concat { container } => {
                    let cand = output_name_for(job_id, container.extension_text());
                    assert(confined(dir, cand) == Some(output));
                },
                _ => {
                    let input = primary_input_spec(req.attachments@)->0;
                    let cand = output_name_for(
                        job_id,
                        crate::operation::output_extension_spec(op, extension(input)),
                    );
                    assert(confined(dir, cand) == Some(output));
                },
            }
        },
        _ => {},
    }
}

/// Nothing that names a non-local protocol is ever handed to ffmpeg or ffprobe as an
/// input: a probed input, the input a run reads, and every concatenated input are
/// local paths.
pub proof fn lemma_inputs_local(
    dir: Seq<char>,
    raw_enabled: bool,
    job_id: Seq<char>,
    req: UniversalRequest,
)
    ensures
        plan_spec(dir, raw_enabled, job_id, req) matches Ok(PlanView::Probe { input })
            ==> !names_denied_protocol(input),
        plan_spec(dir, raw_enabled, job_id, req) matches Ok(
            PlanView::Run { probe_input: Some(input), .. },
        ) ==> !names_denied_protocol(input),
        plan_spec(dir, raw_enabled, job_id, req) matches Ok(
            PlanView::Run { list_file: Some(_), .. },
        ) ==> first_unsafe(req.attachments@) is None,
{
}

/// A raw passthrough that is planned passed the raw-argument policy: no argument but the
/// placeholders is refused by it.
pub proof fn lemma_raw_args_checked(
    dir: Seq<char>,
    job_id: Seq<char>,
    args: Seq<Seq<char>>,
    output_ext: Seq<char>,
    req: UniversalRequest,
)
    requires
        route(req) == Ok::<OperationView, RouteFault>(OperationView::Raw { args, output_ext }),
        plan_spec(dir, true, job_id, req) is Ok,
    ensures
        first_raw_problem(non_placeholders(args)) is None,
{
}

} // verus!
