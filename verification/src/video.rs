//! Video conveniences: jobs that convert, take a thumbnail or make a GIF, and the
//! container an output path asks for. Times are in millionths of a second, frame rates
//! in millionths of a frame per second.

use vstd::prelude::*;
use crate::codec::VideoCodec;
use crate::container::Container;
use crate::format::{
    both_streams_view, plain_video, video_only_view, AudioSettings, MediaFormat, MediaFormatView,
    VideoSettings, VideoSettingsView,
};
use crate::stream::{InputSource, OutputTarget};
use crate::transcode::TranscodeJob;

verus! {

/// Build a job to convert video with the given settings.
pub fn convert_video_job<R, W>(
    input: InputSource<R>,
    output: OutputTarget<W>,
    container: Container,
    video: VideoSettings,
    audio: AudioSettings,
) -> (r: TranscodeJob<R, W>)
    ensures
        r.input == input,
        r.output == output,
        r.format@ == both_streams_view(container, video@, audio),
        r.start_time is None && r.end_time is None && r.duration is None && r.threads == 0,
{
    TranscodeJob::new(input, output, MediaFormat::video(container, video, audio))
}

/// The format of a thumbnail job: no audio, no codec settings (the frame is taken
/// specially; the container is a placeholder).
pub open spec fn thumbnail_format() -> MediaFormatView {
    MediaFormatView {
        container: Container::Mp4,
        audio: None,
        video: None,
        copy_audio: false,
        copy_video: false,
        no_audio: true,
        no_video: false,
    }
}

/// Build a job that extracts a single frame at `time`: it seeks there and keeps a
/// tenth of a second.
pub fn thumbnail_job<R, W>(input: InputSource<R>, output: OutputTarget<W>, time: i64) -> (r:
    TranscodeJob<R, W>)
    ensures
        r.input == input,
        r.output == output,
        r.format@ == thumbnail_format(),
        r.start_time == Some(time),
        r.duration == Some(100_000i64),
        r.end_time is None && r.threads == 0,
{
    let format = MediaFormat {
        container: Container::Mp4,
        audio: None,
        video: None,
        copy_audio: false,
        copy_video: false,
        no_audio: true,
        no_video: false,
    };
    TranscodeJob::new(input, output, format).with_start_time(time).with_duration(100_000)
}

/// Build a job that converts a segment to an animated GIF `width` pixels wide at `fps`
/// frames per second (height follows the aspect ratio), from `start` for `duration`.
pub fn gif_job<R, W>(
    input: InputSource<R>,
    output: OutputTarget<W>,
    width: u32,
    fps: i64,
    start: Option<i64>,
    duration: Option<i64>,
) -> (r: TranscodeJob<R, W>)
    ensures
        r.input == input,
        r.output == output,
        r.format@ == video_only_view(
            Container::Gif,
            VideoSettingsView {
                fps: Some(fps),
                width: Some(width),
                height: Some(0),
                ..plain_video(VideoCodec::H264)
            },
        ),
        r.start_time == start,
        r.duration == duration,
        r.end_time is None && r.threads == 0,
{
    let video = VideoSettings::new(VideoCodec::H264).with_fps(fps).with_resolution(width, 0);
    let format = MediaFormat::video_only(Container::Gif, video);
    let mut job = TranscodeJob::new(input, output, format);
    if let Some(s) = start {
        job = job.with_start_time(s);
    }
    if let Some(d) = duration {
        job = job.with_duration(d);
    }
    job
}

/// Infer the output container from a path's extension, falling back to `default`.
pub fn infer_video_container(output_path: &str, default: Container) -> (r: Container)
    ensures
        r == match Container::from_path_spec(output_path@) {
            Some(c) => c,
            None => default,
        },
{
    match Container::from_path(output_path) {
        Some(c) => c,
        None => default,
    }
}

} // verus!
