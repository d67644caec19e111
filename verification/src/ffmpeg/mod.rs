//! The subprocess FFmpeg engine: tool resolution, capability discovery, argument-vector
//! builders, and the decisions taken while a job runs.

use vstd::prelude::*;
use crate::config::Config;
use crate::security::PROTOCOL_WHITELIST;
use crate::text::{decimal, decimal_u64, push_arg, push_arg_chars, push_arg_string, strings_view};
use std::sync::atomic::{AtomicBool, Ordering};
use std::sync::Arc;

pub mod capabilities;
pub mod command;
pub mod locate;
pub mod run;

pub use capabilities::{Capabilities, CodecEntry, FilterEntry, MediaKind};
pub use locate::Tools;

verus! {

/// A cancellation token shared across threads and clones: cancelling any clone cancels
/// them all. Its state is set by other threads, so nothing is claimed of what
/// `is_cancelled` reads.
#[derive(Debug, Clone)]
pub struct CancelToken {
    cancelled: Arc<AtomicBool>,
}

impl CancelToken {
    pub fn new() -> (r: Self) {
        CancelToken { cancelled: Arc::new(AtomicBool::new(false)) }
    }

    /// Signal cancellation.
    pub fn cancel(&self) {
        self.cancelled.store(true, Ordering::SeqCst);
    }

    /// Whether cancellation has been requested.
    pub fn is_cancelled(&self) -> bool {
        self.cancelled.load(Ordering::SeqCst)
    }
}

/// The high-level FFmpeg engine: resolved tools, discovered capabilities, run policy.
#[derive(Debug, Clone)]
pub struct Engine {
    tools: Tools,
    caps: Capabilities,
    threads: u32,
    job_timeout_secs: u64,
}

/// The global flags every ffmpeg run gets before its operation arguments: no banner, no
/// stdin, overwrite, errors only, demuxer protocols confined to local files,
/// machine-readable progress on stdout, no stats line, and the thread count when one
/// is configured.
pub open spec fn global_flags(threads: u32) -> Seq<Seq<char>> {
    seq![
        "-hide_banner"@,
        "-nostdin"@,
        "-y"@,
        "-loglevel"@,
        "error"@,
        "-protocol_whitelist"@,
        "file,crypto"@,
        "-progress"@,
        "pipe:1"@,
        "-nostats"@,
    ] + if threads > 0 {
        seq!["-threads"@, decimal(threads as nat)]
    } else {
        Seq::empty()
    }
}

impl Engine {
    /// An engine over the located `tools` and their discovered `caps`, with the thread
    /// count and job timeout of `config`.
    pub fn new(config: &Config, tools: Tools, caps: Capabilities) -> (r: Self)
        ensures
            r.tools_spec() == tools,
            r.capabilities_spec() == caps,
            r.threads_spec() == config.threads,
            r.job_timeout_secs_spec() == config.job_timeout_secs,
    {
        Engine { tools, caps, threads: config.threads, job_timeout_secs: config.job_timeout_secs }
    }

    pub closed spec fn tools_spec(&self) -> Tools {
        self.tools
    }

    pub closed spec fn capabilities_spec(&self) -> Capabilities {
        self.caps
    }

    pub closed spec fn threads_spec(&self) -> u32 {
        self.threads
    }

    pub closed spec fn job_timeout_secs_spec(&self) -> u64 {
        self.job_timeout_secs
    }

    /// The resolved binary paths and version string.
    pub fn tools(&self) -> (r: &Tools)
        ensures
            *r == self.tools_spec(),
    {
        &self.tools
    }

    /// The discovered capability set (encoders, decoders, filters, …).
    pub fn capabilities(&self) -> (r: &Capabilities)
        ensures
            *r == self.capabilities_spec(),
    {
        &self.caps
    }

    /// The per-job wall-clock limit in seconds (0 = none).
    pub fn job_timeout_secs(&self) -> (r: u64)
        ensures
            r == self.job_timeout_secs_spec(),
    {
        self.job_timeout_secs
    }

    /// The full argument vector of a run: the global safety flags, then `op_args`.
    pub fn run_args(&self, op_args: &Vec<String>) -> (r: Vec<String>)
        ensures
            strings_view(r@) == global_flags(self.threads_spec()) + strings_view(op_args@),
    {
        let mut a: Vec<String> = Vec::new();
        push_arg(&mut a, "-hide_banner");
        push_arg(&mut a, "-nostdin");
        push_arg(&mut a, "-y");
        push_arg(&mut a, "-loglevel");
        push_arg(&mut a, "error");
        push_arg(&mut a, "-protocol_whitelist");
        push_arg(&mut a, PROTOCOL_WHITELIST);
        push_arg(&mut a, "-progress");
        push_arg(&mut a, "pipe:1");
        push_arg(&mut a, "-nostats");
        if self.threads > 0 {
            push_arg(&mut a, "-threads");
            push_arg_chars(&mut a, &decimal_u64(self.threads as u64));
        }
        let ghost head = strings_view(a@);
        assert(head =~= global_flags(self.threads));
        let mut i: usize = 0;
        while i < op_args.len()
            invariant
                i <= op_args.len(),
                strings_view(a@) == head + strings_view(op_args@).take(i as int),
            decreases op_args.len() - i,
        {
            push_arg_string(&mut a, op_args[i].clone());
            assert(strings_view(a@) =~= head + strings_view(op_args@).take(i + 1));
            i = i + 1;
        }
        assert(strings_view(op_args@).take(op_args.len() as int) =~= strings_view(op_args@));
        a
    }
}

} // verus!
