//! A secure shell over the FFmpeg/ffprobe binaries: the data model (codecs, containers,
//! formats, presets), the security policy (filename sanitization, path confinement,
//! protocol denylist, raw-argument allowlist), the argument-vector builders, the
//! request router, and the persistent job queue's state machine.

use vstd::prelude::*;

pub mod text;
pub mod json;
pub mod codec;
pub mod path;
pub mod container;
pub mod error;
pub mod security;
pub mod config;
pub mod format;
pub mod preset;
pub mod ffmpeg;
pub mod api_queue;
pub mod operation;
pub mod filter;
pub mod dispatch;
pub mod detect;
pub mod probe;
pub mod stream;
pub mod transcode;
pub mod audio;
pub mod video;
pub mod progress;
pub mod plugin;
pub mod cli;
pub mod server;
pub mod mcp;
pub mod mcp_request;

verus! {

} // verus!
