//! Audio conveniences: jobs that extract or convert audio, and the container an output
//! path asks for.

use vstd::prelude::*;
use crate::codec::AudioCodec;
use crate::container::Container;
use crate::format::{audio_only_view, extract_audio_view, AudioSettings, MediaFormat};
use crate::stream::{InputSource, OutputTarget};
use crate::transcode::TranscodeJob;

verus! {

/// Build a job to extract audio from a video file (codec copy, M4A).
pub fn extract_audio_job<R, W>(input: InputSource<R>, output: OutputTarget<W>) -> (r: TranscodeJob<R, W>)
    ensures
        r.input == input,
        r.output == output,
        r.format@ == extract_audio_view(Container::M4a),
        r.start_time is None && r.end_time is None && r.duration is None && r.threads == 0,
{
    TranscodeJob::new(input, output, MediaFormat::extract_audio(Container::M4a))
}

/// Build a job to convert audio to a specific codec/container.
pub fn convert_audio_job<R, W>(
    input: InputSource<R>,
    output: OutputTarget<W>,
    codec: AudioCodec,
    container: Container,
) -> (r: TranscodeJob<R, W>)
    ensures
        r.input == input,
        r.output == output,
        r.format@ == audio_only_view(
            container,
            AudioSettings { codec, bitrate: None, sample_rate: None, channels: None },
        ),
        r.start_time is None && r.end_time is None && r.duration is None && r.threads == 0,
{
    let settings = AudioSettings::new(codec);
    TranscodeJob::new(input, output, MediaFormat::audio_only(container, settings))
}

/// Build a job to convert audio with detailed settings.
pub fn convert_audio_job_with_settings<R, W>(
    input: InputSource<R>,
    output: OutputTarget<W>,
    container: Container,
    settings: AudioSettings,
) -> (r: TranscodeJob<R, W>)
    ensures
        r.input == input,
        r.output == output,
        r.format@ == audio_only_view(container, settings),
        r.start_time is None && r.end_time is None && r.duration is None && r.threads == 0,
{
    TranscodeJob::new(input, output, MediaFormat::audio_only(container, settings))
}

/// Infer the output container from a path's extension, falling back to `default`.
pub fn infer_audio_container(output_path: &str, default: Container) -> (r: Container)
    ensures
        r == match Container::from_path_spec(output_path@) {
            Some(c) => c,
            None => default,
        },
{
    match Container::from_path(output_path) {
        Some(c) => c,
        None => default,
    }
}

} // verus!
