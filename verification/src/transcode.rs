//! A transcode job's specification: its input, output, format, trim window and thread
//! count. Times are in millionths of a second.

use vstd::prelude::*;
use crate::format::MediaFormat;
use crate::stream::{InputSource, NoStream, OutputTarget};

pub use crate::ffmpeg::CancelToken;

verus! {

/// A complete transcode job specification.
pub struct TranscodeJob<R = NoStream, W = NoStream> {
    /// Input media source.
    pub input: InputSource<R>,
    /// Output target.
    pub output: OutputTarget<W>,
    /// Desired output format.
    pub format: MediaFormat,
    /// Optional start time for trimming.
    pub start_time: Option<i64>,
    /// Optional end time for trimming.
    pub end_time: Option<i64>,
    /// Optional duration limit.
    pub duration: Option<i64>,
    /// Number of threads for this job (0 = auto).
    pub threads: u32,
}

impl<R, W> TranscodeJob<R, W> {
    /// A job from input, output and format, untrimmed, with automatic threading.
    pub fn new(input: InputSource<R>, output: OutputTarget<W>, format: MediaFormat) -> (r: Self)
        ensures
            r == (TranscodeJob {
                input,
                output,
                format,
                start_time: None,
                end_time: None,
                duration: None,
                threads: 0,
            }),
    {
        TranscodeJob {
            input,
            output,
            format,
            start_time: None,
            end_time: None,
            duration: None,
            threads: 0,
        }
    }

    pub fn with_start_time(self, t: i64) -> (r: Self)
        ensures
            r == (TranscodeJob { start_time: Some(t), ..self }),
    {
        TranscodeJob { start_time: Some(t), ..self }
    }

    pub fn with_end_time(self, t: i64) -> (r: Self)
        ensures
            r == (TranscodeJob { end_time: Some(t), ..self }),
    {
        TranscodeJob { end_time: Some(t), ..self }
    }

    pub fn with_duration(self, t: i64) -> (r: Self)
        ensures
            r == (TranscodeJob { duration: Some(t), ..self }),
    {
        TranscodeJob { duration: Some(t), ..self }
    }

    pub fn with_threads(self, threads: u32) -> (r: Self)
        ensures
            r == (TranscodeJob { threads, ..self }),
    {
        TranscodeJob { threads, ..self }
    }
}

} // verus!
