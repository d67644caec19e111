//! The resolved `ffmpeg`/`ffprobe` binaries and the version ffmpeg reports.

use vstd::prelude::*;
use crate::text::{chars_of, lines, lines_of, string_of, words, words_of};

verus! {

/// Resolved FFmpeg tooling.
#[derive(Debug, Clone)]
pub struct Tools {
    /// Path to (or bare name of) the `ffmpeg` binary.
    pub ffmpeg: String,
    /// Path to (or bare name of) the `ffprobe` binary.
    pub ffprobe: String,
    /// Version string parsed from `ffmpeg -version` (e.g. `"8.1.2"`).
    pub version: String,
}

/// The version `ffmpeg -version` reports: the third word of its first line
/// (`"ffmpeg version 8.1.2 Copyright …"`).
pub open spec fn version_of(text: Seq<char>) -> Option<Seq<char>> {
    if lines(text).len() == 0 {
        None
    } else if words(lines(text)[0]).len() < 3 {
        None
    } else {
        Some(words(lines(text)[0])[2])
    }
}

/// Extract the version token from the first line of `ffmpeg -version`.
pub fn parse_version(text: &str) -> (r: Option<String>)
    ensures
        match r {
            Some(v) => version_of(text@) == Some(v@),
            None => version_of(text@) is None,
        },
{
    let ls = lines_of(&chars_of(text));
    if ls.len() == 0 {
        return None;
    }
    let w = words_of(&ls[0]);
    if w.len() < 3 {
        return None;
    }
    Some(string_of(&w[2]))
}

/// The binary a tool runs as: the configured path, else its bare name (resolved on
/// `PATH`).
pub open spec fn tool_path(configured: Option<Seq<char>>, name: Seq<char>) -> Seq<char> {
    match configured {
        Some(p) => p,
        None => name,
    }
}

/// The binary a tool runs as: the configured path, else the bare `name`.
pub fn tool_binary(configured: Option<&str>, name: &str) -> (r: String)
    ensures
        r@ == tool_path(
            match configured {
                Some(p) => Some(p@),
                None => None,
            },
            name@,
        ),
{
    match configured {
        Some(p) => p.to_owned(),
        None => name.to_owned(),
    }
}

/// The tools as located: `ffmpeg` and `ffprobe` as given, and the version that
/// `ffmpeg -version` printed in `banner` (`unknown` when it names none).
pub fn located_tools(ffmpeg: String, ffprobe: String, banner: &str) -> (r: Tools)
    ensures
        r.ffmpeg == ffmpeg,
        r.ffprobe == ffprobe,
        r.version@ == (match version_of(banner@) {
            Some(v) => v,
            None => "unknown"@,
        }),
{
    let version = match parse_version(banner) {
        Some(v) => v,
        None => "unknown".to_owned(),
    };
    Tools { ffmpeg, ffprobe, version }
}

} // verus!
