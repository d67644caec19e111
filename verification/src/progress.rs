//! Progress reporting for long-running media operations. Positions and durations are in
//! microseconds; percentages in millionths of a percent.

use vstd::prelude::*;
use crate::api_queue::ProgressReporter;

verus! {

/// A progress event emitted while a job runs.
#[derive(Debug, Clone)]
pub struct ProgressEvent {
    /// Current position in the source media, in microseconds.
    pub position_us: u64,
    /// Total duration of the source media (if known), in microseconds.
    pub duration_us: Option<u64>,
    /// Estimated share complete, in millionths of a percent (`0..=100_000_000`).
    pub percent: Option<i64>,
    /// Current encoding speed relative to realtime, as ffmpeg printed it (e.g. `"2.0"`).
    pub speed: Option<String>,
    /// Current output file size in bytes.
    pub output_size: Option<u64>,
}

/// The share of `duration` that `position` covers, in millionths of a percent, rounded
/// down and capped at 100%; a zero duration counts as complete.
pub open spec fn percent_of(position: u64, duration: u64) -> i64 {
    if duration == 0 {
        100_000_000
    } else if position >= duration {
        100_000_000
    } else {
        ((position as int * 100_000_000) / duration as int) as i64
    }
}

/// A progress percentage always lies between 0% and 100%.
pub proof fn lemma_percent_bounded(position: u64, duration: u64)
    ensures
        0 <= percent_of(position, duration) <= 100_000_000,
{
    if duration != 0 && position < duration {
        let q = (position as int * 100_000_000) / duration as int;
        assert(0 <= q < 100_000_000) by (nonlinear_arith)
            requires
                position < duration,
                duration > 0,
                q == (position as int * 100_000_000) / (duration as int),
        ;
    }
}

impl ProgressEvent {
    /// An event at `position`; the percentage is known when the duration is.
    pub fn new(position_us: u64, duration_us: Option<u64>) -> (r: Self)
        ensures
            r.position_us == position_us,
            r.duration_us == duration_us,
            r.percent == match duration_us {
                Some(d) => Some(percent_of(position_us, d)),
                None => None,
            },
            r.speed is None,
            r.output_size is None,
    {
        let percent = match duration_us {
            Some(d) => {
                if d == 0 || position_us >= d {
                    Some(100_000_000i64)
                } else {
                    let prod: u128 = (position_us as u128) * 100_000_000u128;
                    let p: u128 = prod / (d as u128);
                    assert(p < 100_000_000) by (nonlinear_arith)
                        requires
                            prod == position_us * 100_000_000,
                            p as int == prod as int / (d as int),
                            position_us < d,
                            d > 0,
                    ;
                    Some(p as i64)
                }
            },
            None => None,
        };
        ProgressEvent { position_us, duration_us, percent, speed: None, output_size: None }
    }
}

/// Receives progress updates while a job runs. Implement it to display progress bars,
/// log events, or update a UI.
pub trait ProgressHandler {
    /// Called periodically with a progress update.
    fn on_progress(&mut self, event: &ProgressEvent);

    /// Called when the operation completes successfully.
    fn on_complete(&mut self) {
    }

    /// Called when the operation fails.
    fn on_error(&mut self, error: &str) {
    }
}

/// A progress handler that discards all events.
pub struct NoProgress;

impl ProgressHandler for NoProgress {
    fn on_progress(&mut self, event: &ProgressEvent) {
    }
}

/// Feeds the engine's progress events to a queue's reporter: each event whose
/// percentage is known is reported as that percentage.
pub struct ReporterProgress<R: ProgressReporter> {
    pub reporter: R,
}

impl<R: ProgressReporter> ProgressHandler for ReporterProgress<R> {
    fn on_progress(&mut self, event: &ProgressEvent) {
        if let Some(p) = event.percent {
            self.reporter.report(p);
        }
    }
}

} // verus!
