//! The control plane's decisions: how command-line arguments become requests, how a
//! batch manifest is read, and how the server is configured when the CLI starts it.

use vstd::prelude::*;
use crate::api_queue::Attachment;
use crate::config::Config;
use crate::container::Container;
use crate::dispatch::FfmpegHandler;
use crate::ffmpeg::Engine;
use crate::path::push_text;
use crate::path::{extension, extension_of, file_name, file_name_of};
use crate::text::{
    chars_of, decimal, decimal_u64, lines, lines_of, parse_u64_max, parse_unsigned, push_all,
    push_arg, push_arg_string, starts_with, starts_with_str, string_of, strings_view, trim,
    trim_ws, words, words_of, trim_end_char, trim_start_char, trim_end_matches,
    trim_start_matches, eq_str, push_str,
};

verus! {

/// Options controlling how the server is launched.
#[derive(Debug, Clone, Copy, PartialEq, Eq, Structural)]
pub struct StartOptions {
    pub foreground: bool,
    pub quiet: bool,
    pub verbose: bool,
}

/// The log level for a verbosity choice: verbose wins over quiet.
pub open spec fn log_level_spec(verbose: bool, quiet: bool) -> Seq<char> {
    if verbose {
        "debug"@
    } else if quiet {
        "warn"@
    } else {
        "info"@
    }
}

/// The log level for a verbosity choice: verbose wins over quiet.
pub fn log_level(verbose: bool, quiet: bool) -> (r: &'static str)
    ensures
        r@ == log_level_spec(verbose, quiet),
{
    if verbose {
        "debug"
    } else if quiet {
        "warn"
    } else {
        "info"
    }
}

/// A handler over the located `engine`, writing outputs under `config`'s output
/// directory, with raw passthrough as asked. (The caller creates the work directories
/// and locates the tools first.)
pub fn build_handler(config: &Config, engine: Engine, raw_enabled: bool) -> (r: FfmpegHandler)
    ensures
        r.engine_spec() == engine,
        r.output_dir_spec() == push_text(config.work_dir@, "output"@),
        r.raw_enabled_spec() == raw_enabled,
{
    FfmpegHandler::new(engine, config.output_dir(), raw_enabled)
}

/// The overrides `server start` takes.
pub struct StartOverrides {
    pub host: Option<String>,
    pub port: Option<u16>,
    pub workers: Option<usize>,
    pub token: Option<String>,
    pub enable_raw: bool,
}

/// The configuration `server start` launches with: host, port and workers when given;
/// the start command's token, else the global token; raw passthrough as asked; every
/// other setting as `config` has it.
pub fn start_config(config: Config, o: StartOverrides, global_token: Option<String>) -> (r: Config)
    ensures
        r == (Config {
            host: match o.host {
                Some(h) => h,
                None => config.host,
            },
            port: match o.port {
                Some(p) => p,
                None => config.port,
            },
            workers: match o.workers {
                Some(w) => w,
                None => config.workers,
            },
            token: match o.token {
                Some(t) => Some(t),
                None => global_token,
            },
            raw_enabled: o.enable_raw,
            ..config
        }),
{
    let mut c = config;
    if let Some(h) = o.host {
        c.host = h;
    }
    if let Some(p) = o.port {
        c.port = p;
    }
    if let Some(w) = o.workers {
        c.workers = w;
    }
    c.token = match o.token {
        Some(t) => Some(t),
        None => global_token,
    };
    c.raw_enabled = o.enable_raw;
    c
}

/// The process id a pidfile holds, when its trimmed text is one.
pub fn parse_pid(text: &str) -> (r: Option<u32>)
    ensures
        match r {
            Some(p) => parse_unsigned(trim(text@), u32::MAX as nat) == Some(p as nat),
            None => parse_unsigned(trim(text@), u32::MAX as nat) is None,
        },
{
    match parse_u64_max(&trim_ws(&chars_of(text)), u32::MAX as u64) {
        Some(p) => Some(p as u32),
        None => None,
    }
}

/// The file name an attachment made from a local path records: the path's file name,
/// or `input` when it has none.
pub open spec fn attachment_name(path: Seq<char>) -> Seq<char> {
    match file_name(path) {
        Some(n) => n,
        None => "input"@,
    }
}

/// An attachment that points directly at a user-provided local file (no copy). The
/// caller checks that the file exists.
pub fn local_attachment(field: &str, path: &str) -> (r: Attachment)
    ensures
        r.field@ == field@,
        r.filename@ == attachment_name(path@),
        r.path@ == path@,
{
    let filename = match file_name_of(&chars_of(path)) {
        Some(n) => string_of(&n),
        None => "input".to_owned(),
    };
    Attachment { field: field.to_owned(), filename, path: path.to_owned() }
}

/// The form field of the `i`-th input: `file`, then `file2`, `file3`, …
pub open spec fn input_field_spec(i: nat) -> Seq<char> {
    if i == 0 {
        "file"@
    } else {
        "file"@ + decimal(i + 1)
    }
}

/// The form field of the `i`-th input: `file`, then `file2`, `file3`, …
pub fn input_field(i: usize) -> (r: String)
    requires
        i < usize::MAX,
    ensures
        r@ == input_field_spec(i as nat),
{
    if i == 0 {
        "file".to_owned()
    } else {
        let mut t = chars_of("file");
        push_all(&mut t, &decimal_u64((i + 1) as u64));
        string_of(&t)
    }
}

/// The raw passthrough's argument vector: the user's arguments between the input and
/// output placeholders.
pub fn raw_cli_args(user_args: &Vec<String>) -> (r: Vec<String>)
    ensures
        strings_view(r@) == seq!["-i"@, "INPUT"@] + strings_view(user_args@) + seq!["OUTPUT"@],
{
    let mut a: Vec<String> = Vec::new();
    push_arg(&mut a, "-i");
    push_arg(&mut a, "INPUT");
    let ghost head = strings_view(a@);
    let mut i: usize = 0;
    while i < user_args.len()
        invariant
            i <= user_args.len(),
            strings_view(a@) == head + strings_view(user_args@).take(i as int),
        decreases user_args.len() - i,
    {
        push_arg_string(&mut a, user_args[i].clone());
        assert(strings_view(a@) =~= head + strings_view(user_args@).take(i + 1));
        i = i + 1;
    }
    assert(strings_view(user_args@).take(user_args.len() as int) =~= strings_view(user_args@));
    push_arg(&mut a, "OUTPUT");
    assert(head =~= seq!["-i"@, "INPUT"@]);
    assert(strings_view(a@) =~= seq!["-i"@, "INPUT"@] + strings_view(user_args@) + seq![
        "OUTPUT"@,
    ]);
    a
}

/// The output extension a raw passthrough writes: the output path's, or `mkv`.
pub fn raw_output_ext(output: &str) -> (r: String)
    ensures
        r@ == (match extension(output@) {
            Some(e) => e,
            None => "mkv"@,
        }),
{
    match extension_of(&chars_of(output)) {
        Some(e) => string_of(&e),
        None => "mkv".to_owned(),
    }
}

/// The container a convert targets: the explicit format, else (when no preset is
/// named) the extension of the container the output path implies.
pub fn convert_format(format: Option<&str>, has_preset: bool, output: &str) -> (r: Option<String>)
    ensures
        match r {
            Some(f) => match format {
                Some(g) => f@ == g@,
                None => !has_preset && (Container::from_path_spec(output@) matches Some(c) && f@
                    == c.extension_text()),
            },
            None => format is None && (has_preset || Container::from_path_spec(output@) is None),
        },
{
    match format {
        Some(f) => Some(f.to_owned()),
        None => {
            if has_preset {
                None
            } else {
                match Container::from_path(output) {
                    Some(c) => Some(c.extension().to_owned()),
                    None => None,
                }
            }
        },
    }
}

/// One line of a batch manifest.
#[derive(Debug)]
pub enum ManifestLine {
    /// `INPUT OUTPUT [PRESET]`.
    Job { input: String, output: String, preset: Option<String> },
    /// A line with fewer than two words, kept for its warning.
    Invalid(String),
}

/// The view of a manifest line.
pub enum ManifestLineView {
    Job { input: Seq<char>, output: Seq<char>, preset: Option<Seq<char>> },
    Invalid(Seq<char>),
}

impl View for ManifestLine {
    type V = ManifestLineView;

    open spec fn view(&self) -> ManifestLineView {
        match self {
            ManifestLine::Job { input, output, preset } => ManifestLineView::Job {
                input: input@,
                output: output@,
                preset: crate::format::opt_text(*preset),
            },
            ManifestLine::Invalid(l) => ManifestLineView::Invalid(l@),
        }
    }
}

/// Whether a trimmed manifest line is read at all (not empty, not a `#` comment).
pub open spec fn manifest_kept(t: Seq<char>) -> bool {
    t.len() > 0 && !starts_with(t, "#"@)
}

/// What a kept, trimmed manifest line says.
pub open spec fn manifest_line(t: Seq<char>) -> ManifestLineView {
    let w = words(t);
    if w.len() < 2 {
        ManifestLineView::Invalid(t)
    } else {
        ManifestLineView::Job {
            input: w[0],
            output: w[1],
            preset: if w.len() > 2 {
                Some(w[2])
            } else {
                None
            },
        }
    }
}

/// The entries of a manifest's lines: each trimmed line that is kept, read in order.
pub open spec fn manifest_entries(ls: Seq<Seq<char>>) -> Seq<ManifestLineView>
    decreases ls.len(),
{
    if ls.len() == 0 {
        Seq::empty()
    } else {
        manifest_entries(ls.drop_last()) + if manifest_kept(trim(ls.last())) {
            seq![manifest_line(trim(ls.last()))]
        } else {
            Seq::empty()
        }
    }
}

/// The views of a list of manifest lines.
pub open spec fn manifest_views(v: Seq<ManifestLine>) -> Seq<ManifestLineView> {
    v.map_values(|l: ManifestLine| l@)
}

/// Read a batch manifest (lines `INPUT OUTPUT [PRESET]`; blank lines and `#` comments
/// are skipped).
pub fn parse_manifest(content: &str) -> (r: Vec<ManifestLine>)
    ensures
        manifest_views(r@) == manifest_entries(lines(content@)),
{
    let ls = lines_of(&chars_of(content));
    let ghost all = lines(content@);
    let mut out: Vec<ManifestLine> = Vec::new();
    let mut i: usize = 0;
    proof {
        reveal_strlit("#");
    }
    while i < ls.len()
        invariant
            i <= ls.len(),
            ls@.len() == all.len(),
            all == lines(content@),
            forall|j: int| 0 <= j < ls@.len() ==> #[trigger] ls@[j]@ == all[j],
            manifest_views(out@) == manifest_entries(all.take(i as int)),
        decreases ls.len() - i,
    {
        proof {
            assert(all.take(i + 1).drop_last() =~= all.take(i as int));
            assert(all.take(i + 1).last() == ls@[i as int]@);
        }
        let t = trim_ws(&ls[i]);
        let ghost before = manifest_views(out@);
        if t.len() > 0 && !starts_with_str(&t, "#") {
            let w = words_of(&t);
            let entry = if w.len() < 2 {
                ManifestLine::Invalid(string_of(&t))
            } else {
                let preset = if w.len() > 2 {
                    Some(string_of(&w[2]))
                } else {
                    None
                };
                ManifestLine::Job { input: string_of(&w[0]), output: string_of(&w[1]), preset }
            };
            assert(entry@ == manifest_line(t@));
            out.push(entry);
            assert(manifest_views(out@) =~= before.push(manifest_line(t@)));
        }
        assert(manifest_views(out@) =~= manifest_entries(all.take(i + 1)));
        i = i + 1;
    }
    assert(all.take(ls.len() as int) =~= all);
    out
}

// ───────────────────────── remote mode ─────────────────────────

/// The API URL of `path` on the server at `base`: `base` without trailing slashes,
/// `/api/v1/`, then `path` without leading slashes.
pub open spec fn api_url_spec(base: Seq<char>, path: Seq<char>) -> Seq<char> {
    trim_end_char(base, '/') + "/api/v1/"@ + trim_start_char(path, '/')
}

/// The API URL of `path` on the server at `base`.
pub fn api_url(base: &str, path: &str) -> (r: String)
    ensures
        r@ == api_url_spec(base@, path@),
{
    let mut u = trim_end_matches(&chars_of(base), '/');
    push_str(&mut u, "/api/v1/");
    push_all(&mut u, &trim_start_matches(&chars_of(path), '/'));
    string_of(&u)
}

/// What one poll of a remote job's status leads to.
#[derive(Debug)]
pub enum WaitStep {
    /// The job completed.
    Done,
    /// The job failed; the message to stop with.
    Failed(String),
    /// The job was cancelled.
    Cancelled,
    /// Still running: poll again.
    Poll,
}

/// The value of a [`WaitStep`].
pub enum WaitStepView {
    Done,
    Failed(Seq<char>),
    Cancelled,
    Poll,
}

impl View for WaitStep {
    type V = WaitStepView;

    open spec fn view(&self) -> WaitStepView {
        match self {
            WaitStep::Done => WaitStepView::Done,
            WaitStep::Failed(m) => WaitStepView::Failed(m@),
            WaitStep::Cancelled => WaitStepView::Cancelled,
            WaitStep::Poll => WaitStepView::Poll,
        }
    }
}

/// What a poll that reads `status` (and `error`) leads to: done when completed; a
/// failure naming the error (`unknown error` when none is given) when failed; cancelled
/// when cancelled; otherwise another poll.
pub open spec fn wait_step_spec(status: Seq<char>, error: Option<Seq<char>>) -> WaitStepView {
    if status == "completed"@ {
        WaitStepView::Done
    } else if status == "failed"@ {
        WaitStepView::Failed(
            "job failed: "@ + match error {
                Some(e) => e,
                None => "unknown error"@,
            },
        )
    } else if status == "cancelled"@ {
        WaitStepView::Cancelled
    } else {
        WaitStepView::Poll
    }
}

/// What a poll of a remote job leads to, from the `status` and `error` it reads.
pub fn wait_step(status: &str, error: Option<&str>) -> (r: WaitStep)
    ensures
        r@ == wait_step_spec(
            status@,
            match error {
                Some(e) => Some(e@),
                None => None,
            },
        ),
{
    let v = chars_of(status);
    if eq_str(&v, "completed") {
        WaitStep::Done
    } else if eq_str(&v, "failed") {
        let mut m = chars_of("job failed: ");
        match error {
            Some(e) => push_str(&mut m, e),
            None => push_str(&mut m, "unknown error"),
        }
        WaitStep::Failed(string_of(&m))
    } else if eq_str(&v, "cancelled") {
        WaitStep::Cancelled
    } else {
        WaitStep::Poll
    }
}

} // verus!
