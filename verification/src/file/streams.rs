//! From what a demuxer reports of the streams of a DV file to the file's
//! metadata.
use vstd::prelude::*;

use crate::ffutil::AVRationalConversionError;
use crate::ffutil::AVRationalConverter;
use crate::file::ratio::lowest_terms;
use crate::file::ratio::reduce_u128;
use crate::file::Info;
use crate::file::Ratio;
use crate::file::ValidInfo;
use crate::report::lines;
use crate::report::Report;
use crate::text::push_text;

verus! {

/// What the demuxer reports of a video stream.
#[derive(Debug, PartialEq, Eq, Clone, Copy, Structural)]
pub struct VideoStream {
    /// The frame rate of the stream.
    pub r_frame_rate: AVRationalConverter,
    /// The duration of the stream in units of the time base, or
    /// [`NO_DURATION`].
    pub duration: i64,
    /// The unit of time of the stream, in seconds.
    pub time_base: AVRationalConverter,
}

/// What the demuxer reports of an audio stream.
#[derive(Debug, PartialEq, Eq, Clone, Copy, Structural)]
pub struct AudioStream {
    /// Samples per second.
    pub sample_rate: i32,
    /// Whether the samples are signed PCM of 16 bits.
    pub is_signed_16_bit: bool,
    /// Whether the channel layout is stereo.
    pub is_stereo: bool,
}

/// The duration of a stream whose duration is unknown.
pub const NO_DURATION: i64 = -0x8000_0000_0000_0000;

/// Why the streams of a file give no metadata.
#[derive(Debug, PartialEq, Eq, Clone, Copy, Structural)]
pub enum StreamError {
    /// There is no video stream, or more than one.
    VideoStreamCount,
    /// The frame rate is missing or negative.
    FrameRate { source: AVRationalConversionError },
    /// The duration is missing or negative, or the time base is.
    Duration,
    /// There are more than 255 audio streams.
    AudioStreamCount,
    /// An audio stream has a negative sample rate.
    SampleRate,
    /// Two audio streams differ in their sample rate.
    SampleRateMismatch,
    /// An audio stream does not hold signed PCM samples of 16 bits.
    SampleFormat,
    /// An audio stream is not stereo.
    ChannelLayout,
}

/// Error type for calls related to reading the metadata of a file.
#[derive(Debug, PartialEq, Eq, Clone)]
pub enum InfoError {
    /// The file size could not be read by seeking within the file.
    Seek,
    /// The demuxer could not open the file.
    Open,
    /// The channel layout of an audio stream could not be compared.
    ChannelLayoutComparison,
    /// The streams give no metadata.
    Stream { source: StreamError },
    /// The metadata breaks a rule.
    Validation { source: Report },
}

impl StreamError {
    /// The text of the message.
    pub open spec fn text(&self) -> Seq<char> {
        match *self {
            StreamError::VideoStreamCount => "Could not find exactly one video stream"@,
            StreamError::FrameRate { source } =>
                "Video stream was missing a frame rate, or it was invalid"@,
            StreamError::Duration => "Video stream was missing a duration, or it was invalid"@,
            StreamError::AudioStreamCount => "There are more than 255 audio streams"@,
            StreamError::SampleRate => "An audio stream has a negative sample rate"@,
            StreamError::SampleRateMismatch => "All audio streams must have the same sample rate"@,
            StreamError::SampleFormat => "All audio streams must have 16-bit signed PCM samples"@,
            StreamError::ChannelLayout => "All audio streams must have a stereo channel layout"@,
        }
    }

    /// The message.
    pub fn message(&self) -> (r: &'static str)
        ensures
            r@ == self.text(),
    {
        match *self {
            StreamError::VideoStreamCount => "Could not find exactly one video stream",
            StreamError::FrameRate { source } =>
                "Video stream was missing a frame rate, or it was invalid",
            StreamError::Duration => "Video stream was missing a duration, or it was invalid",
            StreamError::AudioStreamCount => "There are more than 255 audio streams",
            StreamError::SampleRate => "An audio stream has a negative sample rate",
            StreamError::SampleRateMismatch => "All audio streams must have the same sample rate",
            StreamError::SampleFormat => "All audio streams must have 16-bit signed PCM samples",
            StreamError::ChannelLayout => "All audio streams must have a stereo channel layout",
        }
    }
}

impl InfoError {
    /// The text of the message, without that of its cause.
    pub open spec fn text(&self) -> Seq<char> {
        match self {
            InfoError::Seek => Seq::<char>::empty()
                + "Could not read file size by seeking within the file"@,
            InfoError::Open => Seq::<char>::empty() + "Could not open file using FFmpeg"@,
            InfoError::ChannelLayoutComparison => Seq::<char>::empty()
                + "Error comparing channel layouts"@,
            InfoError::Stream { source } => Seq::<char>::empty() + source.text(),
            InfoError::Validation { source } => Seq::<char>::empty()
                + "Validation failures on the video file metadata"@,
        }
    }

    /// The message, without that of its cause.
    pub fn message(&self) -> (r: String)
        ensures
            r@ == self.text(),
    {
        let mut s = String::new();
        match self {
            InfoError::Seek => {
                push_text(&mut s, "Could not read file size by seeking within the file");
            },
            InfoError::Open => {
                push_text(&mut s, "Could not open file using FFmpeg");
            },
            InfoError::ChannelLayoutComparison => {
                push_text(&mut s, "Error comparing channel layouts");
            },
            InfoError::Stream { source } => {
                push_text(&mut s, source.message());
            },
            InfoError::Validation { source } => {
                push_text(&mut s, "Validation failures on the video file metadata");
            },
        }
        s
    }
}

/// The frame rate of a video stream, as a fraction of 32 bits in lowest
/// terms.
pub open spec fn frame_rate_of(video: VideoStream) -> Result<Ratio<u32>, StreamError> {
    match video.r_frame_rate.unsigned::<u32>() {
        Ok(r) => Ok(Ratio { numer: r.0 as u32, denom: r.1 as u32 }),
        Err(e) => Err(StreamError::FrameRate { source: e }),
    }
}

/// The duration of a video stream in seconds: its duration times its time
/// base, in lowest terms.
pub open spec fn duration_of(video: VideoStream) -> Result<Ratio<u128>, StreamError> {
    if video.duration == NO_DURATION || video.duration < 0 {
        Err(StreamError::Duration)
    } else {
        match video.time_base.unsigned::<u128>() {
            Err(_) => Err(StreamError::Duration),
            Ok(base) => {
                let r = lowest_terms(base.0 * video.duration as nat, base.1);
                Ok(Ratio { numer: r.0 as u128, denom: r.1 as u128 })
            },
        }
    }
}

/// What is wrong with one audio stream, beside the sample rate of the first:
/// its sample rate first, then its samples, then its channels.
pub open spec fn audio_stream_fault(audio: AudioStream, sample_rate: i32) -> Option<StreamError> {
    if audio.sample_rate < 0 {
        Some(StreamError::SampleRate)
    } else if audio.sample_rate != sample_rate {
        Some(StreamError::SampleRateMismatch)
    } else if !audio.is_signed_16_bit {
        Some(StreamError::SampleFormat)
    } else if !audio.is_stereo {
        Some(StreamError::ChannelLayout)
    } else {
        None
    }
}

/// What is wrong with the first audio stream, from the stream `from` on, with
/// which something is wrong.
pub open spec fn audio_fault(audios: Seq<AudioStream>, from: int) -> Option<StreamError>
    decreases audios.len() - from,
{
    if from < 0 || from >= audios.len() {
        None
    } else {
        match audio_stream_fault(audios[from], audios[0].sample_rate) {
            Some(e) => Some(e),
            None => audio_fault(audios, from + 1),
        }
    }
}

/// The metadata that the streams of a file of the given size give.
///
/// There is exactly one video stream, with a frame rate and a duration. There
/// are at most 255 audio streams, all of them stereo, of signed PCM samples of
/// 16 bits and of one sample rate. The first of these that fails is the
/// error.
pub open spec fn info_of_streams(
    file_size: u64,
    videos: Seq<VideoStream>,
    audios: Seq<AudioStream>,
) -> Result<Info, StreamError> {
    if videos.len() != 1 {
        Err(StreamError::VideoStreamCount)
    } else if frame_rate_of(videos[0]) is Err {
        Err(frame_rate_of(videos[0])->Err_0)
    } else if duration_of(videos[0]) is Err {
        Err(duration_of(videos[0])->Err_0)
    } else if audios.len() > 255 {
        Err(StreamError::AudioStreamCount)
    } else if audio_fault(audios, 0) is Some {
        Err(audio_fault(audios, 0)->Some_0)
    } else {
        Ok(
            Info {
                file_size,
                video_frame_rate: frame_rate_of(videos[0])->Ok_0,
                video_duration: duration_of(videos[0])->Ok_0,
                audio_stereo_stream_count: audios.len() as u8,
                audio_sample_rate: if audios.len() > 0 {
                    Some(audios[0].sample_rate as u32)
                } else {
                    None
                },
            },
        )
    }
}

fn video_frame_rate(video: &VideoStream) -> (r: Result<Ratio<u32>, StreamError>)
    ensures
        r == frame_rate_of(*video),
{
    match video.r_frame_rate.try_into_other_ratio::<u32>() {
        Ok(r) => Ok(r),
        Err(e) => Err(StreamError::FrameRate { source: e }),
    }
}

fn video_duration(video: &VideoStream) -> (r: Result<Ratio<u128>, StreamError>)
    ensures
        r == duration_of(*video),
{
    if video.duration == NO_DURATION || video.duration < 0 {
        return Err(StreamError::Duration);
    }
    match video.time_base.try_into_other_ratio::<u128>() {
        Err(_) => Err(StreamError::Duration),
        Ok(base) => {
            proof {
                crate::file::ratio::lemma_lowest_terms_bound(
                    video.time_base.num as nat,
                    video.time_base.den as nat,
                );
            }
            assert(base.numer * video.duration <= 0x7FFF_FFFF * 0x7FFF_FFFF_FFFF_FFFF)
                by (nonlinear_arith)
                requires
                    0 <= base.numer <= 0x7FFF_FFFF,
                    0 <= video.duration <= 0x7FFF_FFFF_FFFF_FFFF,
            ;
            let (numer, denom) = reduce_u128(base.numer * (video.duration as u128), base.denom);
            Ok(Ratio { numer, denom })
        },
    }
}

fn check_audio_streams(audios: &Vec<AudioStream>) -> (r: Option<StreamError>)
    ensures
        r == audio_fault(audios@, 0),
{
    let n = audios.len();
    let mut i: usize = 0;
    while i < n
        invariant
            n == audios@.len(),
            i <= n,
            audio_fault(audios@, 0) == audio_fault(audios@, i as int),
        decreases n - i,
    {
        let audio = audios[i];
        let first = audios[0].sample_rate;
        if audio.sample_rate < 0 {
            return Some(StreamError::SampleRate);
        } else if audio.sample_rate != first {
            return Some(StreamError::SampleRateMismatch);
        } else if !audio.is_signed_16_bit {
            return Some(StreamError::SampleFormat);
        } else if !audio.is_stereo {
            return Some(StreamError::ChannelLayout);
        }
        i = i + 1;
    }
    None
}

impl ValidInfo {
    /// Makes the metadata of a file from its size and from what the demuxer
    /// reports of its streams, and validates it.
    pub fn from_streams(
        file_size: u64,
        videos: &Vec<VideoStream>,
        audios: &Vec<AudioStream>,
    ) -> (r: Result<ValidInfo, InfoError>)
        ensures
            match r {
                Ok(valid) => info_of_streams(file_size, videos@, audios@) == Ok::<
                    Info,
                    StreamError,
                >(valid@) && valid@.is_valid(),
                Err(InfoError::Stream { source }) => info_of_streams(file_size, videos@, audios@)
                    == Err::<Info, StreamError>(source),
                Err(InfoError::Validation { source }) => {
                    &&& info_of_streams(file_size, videos@, audios@) is Ok
                    &&& !info_of_streams(file_size, videos@, audios@)->Ok_0.is_valid()
                    &&& source@ == info_of_streams(
                        file_size,
                        videos@,
                        audios@,
                    )->Ok_0.violations()
                },
                Err(_) => false,
            },
    {
        if videos.len() != 1 {
            return Err(InfoError::Stream { source: StreamError::VideoStreamCount });
        }
        let video_frame_rate = match video_frame_rate(&videos[0]) {
            Ok(r) => r,
            Err(e) => {
                return Err(InfoError::Stream { source: e });
            },
        };
        let video_duration = match video_duration(&videos[0]) {
            Ok(d) => d,
            Err(e) => {
                return Err(InfoError::Stream { source: e });
            },
        };
        if audios.len() > 255 {
            return Err(InfoError::Stream { source: StreamError::AudioStreamCount });
        }
        match check_audio_streams(audios) {
            Some(e) => {
                return Err(InfoError::Stream { source: e });
            },
            None => {},
        }
        let info = Info {
            file_size,
            video_frame_rate,
            video_duration,
            audio_stereo_stream_count: audios.len() as u8,
            audio_sample_rate: if audios.len() > 0 {
                Some(audios[0].sample_rate as u32)
            } else {
                None
            },
        };
        match info.validate() {
            Ok(valid) => Ok(valid),
            Err(report) => Err(InfoError::Validation { source: report }),
        }
    }
}

} // verus!
