//! Top-level metadata of a DV file and the rules it has to meet.
use vstd::prelude::*;

use crate::file::ratio::Ratio;
use crate::report::entry;
use crate::report::Field;
use crate::report::Report;
use crate::report::Violation;
use crate::text::decimal;
use crate::text::fraction;
use crate::text::push_decimal;
use crate::text::push_fraction;
use crate::text::push_text;

verus! {

/// DV system as defined in IEC 61834.
///
/// The system decides the layout of a DV file and how many of its parts are
/// read.
#[derive(Debug, PartialEq, Eq, Clone, Copy, Hash, Structural)]
pub enum System {
    /// IEC 61834-2, SD format for the 525-60 system: 525 lines, 29.97 Hz
    /// (NTSC).
    Sys525_60,
    /// IEC 61834-2, SD format for the 625-50 system: 625 lines, 25 Hz
    /// (PAL/SECAM).
    Sys625_50,
}

impl System {
    /// The name of the system: its lines and its fields per second.
    pub open spec fn name_text(&self) -> Seq<char> {
        match *self {
            System::Sys525_60 => "525-60"@,
            System::Sys625_50 => "625-50"@,
        }
    }

    /// The name of the system: its lines and its fields per second.
    pub fn name(&self) -> (r: &'static str)
        ensures
            r@ == self.name_text(),
    {
        match *self {
            System::Sys525_60 => "525-60",
            System::Sys625_50 => "625-50",
        }
    }

    /// Fields per second: 60 for 525-60, 50 for 625-50.
    pub open spec fn field_count(self) -> u8 {
        match self {
            System::Sys525_60 => 60u8,
            System::Sys625_50 => 50u8,
        }
    }

    /// Largest frame number of a timecode: 29 for 525-60, 24 for 625-50.
    pub open spec fn max_frame_number(self) -> u8 {
        match self {
            System::Sys525_60 => 29u8,
            System::Sys625_50 => 24u8,
        }
    }

    pub fn expected_field_count(self) -> (r: u8)
        ensures
            r == self.field_count(),
    {
        match self {
            System::Sys525_60 => 60,
            System::Sys625_50 => 50,
        }
    }

    pub fn last_frame_number(self) -> (r: u8)
        ensures
            r == self.max_frame_number(),
    {
        match self {
            System::Sys525_60 => 29,
            System::Sys625_50 => 24,
        }
    }
}

/// Top-level metadata about a DV file.
#[derive(Debug, PartialEq, Eq, Clone, Copy, Structural)]
pub struct Info {
    /// Size of the DV file in bytes.
    pub file_size: u64,
    /// Frame rate of the video stream, in frames per second.
    pub video_frame_rate: Ratio<u32>,
    /// Duration of the video stream, in seconds: up to 96 bits in the
    /// numerator and 32 bits in the denominator.
    pub video_duration: Ratio<u128>,
    /// Number of stereo audio streams: 0, 1 or 2.
    pub audio_stereo_stream_count: u8,
    /// Audio sample rate in Hz; present if and only if there is an audio
    /// stream, and then one of 32000, 44100 and 48000.
    pub audio_sample_rate: Option<u32>,
}

/// Whether a sample rate is one that the DV standard knows.
pub open spec fn is_supported_sample_rate(rate: u32) -> bool {
    rate == 32_000 || rate == 44_100 || rate == 48_000
}

/// Size in bytes of the frame with the given channels and DIF sequences:
/// 150 blocks of 80 bytes for each sequence of each channel.
pub open spec fn frame_size_of(channels: u8, dif_sequences: u8) -> int {
    channels as int * dif_sequences as int * 150 * 80
}

impl Info {
    /// The frame rate is exactly that of NTSC, 30000/1001, or that of
    /// PAL/SECAM, 25, whatever the terms it is written in.
    pub open spec fn frame_rate_check(&self) -> Result<(), Violation> {
        let r = self.video_frame_rate;
        if r.denom != 0 && (r.numer as int * 1001 == r.denom as int * 30_000 || r.numer as int
            == r.denom as int * 25) {
            Ok(())
        } else {
            Err(Violation::VideoFrameRateUnsupported { rate: r })
        }
    }

    /// Frame rate times duration, where that is a whole number of 64 bits.
    pub open spec fn frame_count(&self) -> Result<u64, Violation> {
        let rate = self.video_frame_rate;
        let duration = self.video_duration;
        let n = rate.numer as int * duration.numer as int;
        let d = rate.denom as int * duration.denom as int;
        if rate.denom == 0 || duration.denom == 0 {
            Err(Violation::ZeroDenominator)
        } else if duration.numer >= 0x1_0000_0000_0000_0000_0000_0000 || duration.denom
            >= 0x1_0000_0000 {
            Err(Violation::DurationOutOfRange)
        } else if n % d != 0 {
            Err(
                Violation::FrameCountNotInteger {
                    count: Ratio { numer: n as u128, denom: d as u128 },
                    rate,
                    duration,
                },
            )
        } else if n / d > u64::MAX {
            Err(Violation::FrameCountTooLarge { count: (n / d) as u128 })
        } else {
            Ok((n / d) as u64)
        }
    }

    /// File size by frame count, where that divides evenly and fits 32 bits.
    pub open spec fn frame_size(&self) -> Result<u32, Violation> {
        match self.frame_count() {
            Err(v) => Err(v),
            Ok(count) => {
                if count == 0 {
                    Err(Violation::FrameCountZero)
                } else if self.file_size % count != 0 {
                    Err(
                        Violation::FileSizeNotDivisible {
                            file_size: self.file_size,
                            frame_count: count,
                        },
                    )
                } else if self.file_size / count > u32::MAX {
                    Err(Violation::FrameSizeTooLarge { frame_size: self.file_size / count })
                } else {
                    Ok((self.file_size / count) as u32)
                }
            },
        }
    }

    /// Channel count and DIF sequences per channel, from the frame size.
    pub open spec fn frame_info(&self) -> Result<(u8, u8), Violation> {
        match self.frame_size() {
            Err(v) => Err(v),
            Ok(s) => {
                if s == frame_size_of(1, 10) {
                    Ok((1u8, 10u8))
                } else if s == frame_size_of(1, 12) {
                    Ok((1u8, 12u8))
                } else if s == frame_size_of(2, 10) {
                    Ok((2u8, 10u8))
                } else if s == frame_size_of(2, 12) {
                    Ok((2u8, 12u8))
                } else {
                    Err(Violation::FrameSizeUnsupported { frame_size: s })
                }
            },
        }
    }

    /// The system: 525-60 with 10 DIF sequences, 625-50 with 12.
    pub open spec fn system(&self) -> Result<System, Violation> {
        match self.frame_info() {
            Err(v) => Err(v),
            Ok((_, sequences)) => if sequences == 10 {
                Ok(System::Sys525_60)
            } else {
                Ok(System::Sys625_50)
            },
        }
    }

    /// The duration is such that count, size and system can be derived.
    pub open spec fn duration_check(&self) -> Result<(), Violation> {
        match self.system() {
            Err(v) => Err(v),
            Ok(_) => Ok(()),
        }
    }

    /// There are at most two stereo streams.
    pub open spec fn stream_count_check(&self) -> Result<(), Violation> {
        if self.audio_stereo_stream_count > 2 {
            Err(Violation::GreaterThan { max: 2 })
        } else {
            Ok(())
        }
    }

    /// The sample rate is present exactly with audio streams, and supported.
    pub open spec fn sample_rate_check(&self) -> Result<(), Violation> {
        match self.audio_sample_rate {
            None => if self.audio_stereo_stream_count == 0 {
                Ok(())
            } else {
                Err(Violation::SampleRateMissing)
            },
            Some(rate) => if self.audio_stereo_stream_count == 0 {
                Err(Violation::SampleRateUnexpected)
            } else if is_supported_sample_rate(rate) {
                Ok(())
            } else {
                Err(Violation::SampleRateUnsupported { rate })
            },
        }
    }

    /// Every rule that the metadata breaks, one entry for each field.
    pub open spec fn violations(&self) -> Seq<crate::report::FieldError> {
        entry(Field::AudioSampleRate, self.sample_rate_check()) + entry(
            Field::AudioStereoStreamCount,
            self.stream_count_check(),
        ) + entry(Field::VideoDuration, self.duration_check()) + entry(
            Field::VideoFrameRate,
            self.frame_rate_check(),
        )
    }

    pub open spec fn is_valid(&self) -> bool {
        self.violations().len() == 0
    }

    pub fn check_video_frame_rate(&self) -> (r: Result<(), Violation>)
        ensures
            r == self.frame_rate_check(),
    {
        let r = self.video_frame_rate;
        let n: u64 = r.numer as u64;
        let d: u64 = r.denom as u64;
        if r.denom != 0 && (n * 1001 == d * 30_000 || n == d * 25) {
            Ok(())
        } else {
            Err(Violation::VideoFrameRateUnsupported { rate: r })
        }
    }

    pub fn try_video_frame_count(&self) -> (r: Result<u64, Violation>)
        ensures
            r == self.frame_count(),
    {
        let rate = self.video_frame_rate;
        let duration = self.video_duration;
        if rate.denom == 0 || duration.denom == 0 {
            return Err(Violation::ZeroDenominator);
        }
        if duration.numer >= 0x1_0000_0000_0000_0000_0000_0000 || duration.denom
            >= 0x1_0000_0000 {
            return Err(Violation::DurationOutOfRange);
        }
        assert(rate.numer as int * duration.numer as int <= 0xFFFF_FFFF
            * 0xFFFF_FFFF_FFFF_FFFF_FFFF_FFFF) by (nonlinear_arith)
            requires
                rate.numer <= 0xFFFF_FFFF,
                duration.numer <= 0xFFFF_FFFF_FFFF_FFFF_FFFF_FFFF,
        ;
        assert(0 < rate.denom as int * duration.denom as int <= 0xFFFF_FFFF * 0xFFFF_FFFF)
            by (nonlinear_arith)
            requires
                0 < rate.denom <= 0xFFFF_FFFF,
                0 < duration.denom <= 0xFFFF_FFFF,
        ;
        let n: u128 = (rate.numer as u128) * duration.numer;
        let d: u128 = (rate.denom as u128) * duration.denom;
        if n % d != 0 {
            return Err(
                Violation::FrameCountNotInteger {
                    count: Ratio { numer: n, denom: d },
                    rate,
                    duration,
                },
            );
        }
        let count: u128 = n / d;
        if count > u64::MAX as u128 {
            return Err(Violation::FrameCountTooLarge { count });
        }
        Ok(count as u64)
    }

    pub fn try_video_frame_size(&self) -> (r: Result<u32, Violation>)
        ensures
            r == self.frame_size(),
    {
        let count = match self.try_video_frame_count() {
            Err(v) => {
                return Err(v);
            },
            Ok(c) => c,
        };
        if count == 0 {
            return Err(Violation::FrameCountZero);
        }
        if self.file_size % count != 0 {
            return Err(
                Violation::FileSizeNotDivisible { file_size: self.file_size, frame_count: count },
            );
        }
        let size: u64 = self.file_size / count;
        if size > u32::MAX as u64 {
            return Err(Violation::FrameSizeTooLarge { frame_size: size });
        }
        Ok(size as u32)
    }

    /// Channel count and DIF sequences per channel of the video frame.
    pub fn try_video_frame_info(&self) -> (r: Result<(u8, u8), Violation>)
        ensures
            r == self.frame_info(),
    {
        match self.try_video_frame_size() {
            Err(v) => Err(v),
            Ok(s) => {
                if s == 120_000 {
                    Ok((1, 10))
                } else if s == 144_000 {
                    Ok((1, 12))
                } else if s == 240_000 {
                    Ok((2, 10))
                } else if s == 288_000 {
                    Ok((2, 12))
                } else {
                    Err(Violation::FrameSizeUnsupported { frame_size: s })
                }
            },
        }
    }

    pub fn try_system(&self) -> (r: Result<System, Violation>)
        ensures
            r == self.system(),
    {
        match self.try_video_frame_info() {
            Err(v) => Err(v),
            Ok((_, sequences)) => if sequences == 10 {
                Ok(System::Sys525_60)
            } else {
                Ok(System::Sys625_50)
            },
        }
    }

    pub fn check_video_duration(&self) -> (r: Result<(), Violation>)
        ensures
            r == self.duration_check(),
    {
        match self.try_system() {
            Err(v) => Err(v),
            Ok(_) => Ok(()),
        }
    }

    pub fn check_audio_stereo_stream_count(&self) -> (r: Result<(), Violation>)
        ensures
            r == self.stream_count_check(),
    {
        if self.audio_stereo_stream_count > 2 {
            Err(Violation::GreaterThan { max: 2 })
        } else {
            Ok(())
        }
    }

    pub fn check_audio_sample_rate(&self) -> (r: Result<(), Violation>)
        ensures
            r == self.sample_rate_check(),
    {
        match self.audio_sample_rate {
            None => if self.audio_stereo_stream_count == 0 {
                Ok(())
            } else {
                Err(Violation::SampleRateMissing)
            },
            Some(rate) => if self.audio_stereo_stream_count == 0 {
                Err(Violation::SampleRateUnexpected)
            } else if rate == 32_000 || rate == 44_100 || rate == 48_000 {
                Ok(())
            } else {
                Err(Violation::SampleRateUnsupported { rate })
            },
        }
    }

    /// Checks every rule and hands the metadata back as validated, or reports
    /// each field that breaks one.
    pub fn validate(self) -> (r: Result<ValidInfo, Report>)
        ensures
            r is Ok <==> self.is_valid(),
            r is Ok ==> r->Ok_0@ == self,
            r is Err ==> r->Err_0@ == self.violations(),
    {
        let mut report = Report::new();
        report.record(Field::AudioSampleRate, self.check_audio_sample_rate());
        report.record(Field::AudioStereoStreamCount, self.check_audio_stereo_stream_count());
        report.record(Field::VideoDuration, self.check_video_duration());
        report.record(Field::VideoFrameRate, self.check_video_frame_rate());
        assert(report@ =~= self.violations());
        if report.is_empty() {
            Ok(ValidInfo { info: self })
        } else {
            Err(report)
        }
    }
}

/// Metadata of a DV file that has passed [`Info::validate`].
#[derive(Debug, Clone, Copy)]
pub struct ValidInfo {
    info: Info,
}

impl View for ValidInfo {
    type V = Info;

    closed spec fn view(&self) -> Info {
        self.info
    }
}

/// Why one file's metadata is not of the same format as another's: the first
/// property that differs, with the other file's value and this one's. Channel
/// count, DIF sequence count and system follow from the frame size, and
/// differ only where it does.
#[derive(Debug, PartialEq, Eq, Clone, Copy, Structural)]
#[allow(inconsistent_fields)]
pub enum DissimilarError {
    VideoFrameRate { other: Ratio<u32>, this: Ratio<u32> },
    VideoFrameSize { other: u32, this: u32 },
    AudioStereoStreamCount { other: u8, this: u8 },
    AudioSampleRate { other: Option<u32>, this: Option<u32> },
}

/// A sample rate that may be absent, as text: the number, or `None`.
pub open spec fn optional_rate_text(rate: Option<u32>) -> Seq<char> {
    match rate {
        Some(r) => Seq::<char>::empty() + decimal(r as nat),
        None => Seq::<char>::empty() + "None"@,
    }
}

/// The text of [`optional_rate_text`].
pub fn optional_rate(rate: Option<u32>) -> (r: String)
    ensures
        r@ == optional_rate_text(rate),
{
    let mut s = String::new();
    match rate {
        Some(r) => {
            push_decimal(&mut s, r as u128);
        },
        None => {
            push_text(&mut s, "None");
        },
    }
    s
}

impl DissimilarError {
    /// The text of the message that names the difference.
    pub open spec fn text(&self) -> Seq<char> {
        match *self {
            DissimilarError::VideoFrameRate { other, this } => Seq::<char>::empty()
                + "Video frame rate "@
                + fraction(other.numer as nat, other.denom as nat)
                + " does not match "@
                + fraction(this.numer as nat, this.denom as nat),
            DissimilarError::VideoFrameSize { other, this } => Seq::<char>::empty()
                + "Video frame size "@
                + decimal(other as nat)
                + " does not match "@
                + decimal(this as nat),
            DissimilarError::AudioStereoStreamCount { other, this } => Seq::<char>::empty()
                + "Audio stereo stream count "@
                + decimal(other as nat)
                + " does not match "@
                + decimal(this as nat),
            DissimilarError::AudioSampleRate { other, this } => Seq::<char>::empty()
                + "Audio sample rate "@
                + optional_rate_text(other)
                + " does not match "@
                + optional_rate_text(this),
        }
    }

    /// The message that names the difference.
    pub fn message(&self) -> (r: String)
        ensures
            r@ == self.text(),
    {
        let mut s = String::new();
        match *self {
            DissimilarError::VideoFrameRate { other, this } => {
                push_text(&mut s, "Video frame rate ");
                push_fraction(&mut s, other.numer as u128, other.denom as u128);
                push_text(&mut s, " does not match ");
                push_fraction(&mut s, this.numer as u128, this.denom as u128);
            },
            DissimilarError::VideoFrameSize { other, this } => {
                push_text(&mut s, "Video frame size ");
                push_decimal(&mut s, other as u128);
                push_text(&mut s, " does not match ");
                push_decimal(&mut s, this as u128);
            },
            DissimilarError::AudioStereoStreamCount { other, this } => {
                push_text(&mut s, "Audio stereo stream count ");
                push_decimal(&mut s, other as u128);
                push_text(&mut s, " does not match ");
                push_decimal(&mut s, this as u128);
            },
            DissimilarError::AudioSampleRate { other, this } => {
                push_text(&mut s, "Audio sample rate ");
                push_text(&mut s, optional_rate(other).as_str());
                push_text(&mut s, " does not match ");
                push_text(&mut s, optional_rate(this).as_str());
            },
        }
        s
    }
}

/// The sample rate of valid metadata divided by its frame rate, in lowest
/// terms: at 25 frames per second 1280, 1764 or 1920 samples, at 30000/1001
/// frames per second 16016/15, 147147/100 or 8008/5.
pub open spec fn ideal_samples(info: Info) -> Option<Ratio<u32>> {
    match info.audio_sample_rate {
        None => None,
        Some(sample_rate) => Some(
            if info.video_frame_rate.numer as int == info.video_frame_rate.denom as int * 25 {
                Ratio { numer: (sample_rate / 25) as u32, denom: 1u32 }
            } else if sample_rate == 32_000 {
                Ratio { numer: 16_016u32, denom: 15u32 }
            } else if sample_rate == 44_100 {
                Ratio { numer: 147_147u32, denom: 100u32 }
            } else {
                Ratio { numer: 8_008u32, denom: 5u32 }
            },
        ),
    }
}

/// Whether two fractions have one value, whatever the terms they are written
/// in.
pub open spec fn same_value(a: Ratio<u32>, b: Ratio<u32>) -> bool {
    a.numer as int * b.denom as int == b.numer as int * a.denom as int
}

/// The first difference between two files' metadata, the file size aside.
pub open spec fn dissimilarity(this: Info, other: Info) -> Option<DissimilarError> {
    if !same_value(this.video_frame_rate, other.video_frame_rate) {
        Some(
            DissimilarError::VideoFrameRate {
                other: other.video_frame_rate,
                this: this.video_frame_rate,
            },
        )
    } else if this.frame_size() != other.frame_size() {
        Some(
            DissimilarError::VideoFrameSize {
                other: other.frame_size()->Ok_0,
                this: this.frame_size()->Ok_0,
            },
        )
    } else if this.audio_stereo_stream_count != other.audio_stereo_stream_count {
        Some(
            DissimilarError::AudioStereoStreamCount {
                other: other.audio_stereo_stream_count,
                this: this.audio_stereo_stream_count,
            },
        )
    } else if this.audio_sample_rate != other.audio_sample_rate {
        Some(
            DissimilarError::AudioSampleRate {
                other: other.audio_sample_rate,
                this: this.audio_sample_rate,
            },
        )
    } else {
        None
    }
}

impl ValidInfo {
    #[verifier::type_invariant]
    spec fn inv(self) -> bool {
        self.info.is_valid()
    }

    /// The system of the file, as [`Info::system`] derives it.
    pub closed spec fn system_spec(&self) -> System {
        match self@.system() {
            Ok(s) => s,
            Err(_) => System::Sys525_60,
        }
    }

    /// Metadata without violations has a frame count, a frame size and a
    /// system.
    pub proof fn lemma_valid(info: Info)
        requires
            info.is_valid(),
        ensures
            info.system() is Ok,
            info.frame_info() is Ok,
            info.frame_size() is Ok,
            info.frame_count() is Ok,
    {
        assert(entry(Field::VideoDuration, info.duration_check()).len() == 0);
    }

    /// The metadata itself.
    pub fn get(&self) -> (r: Info)
        ensures
            r == self@,
            r.is_valid(),
    {
        proof {
            use_type_invariant(self);
        }
        self.info
    }

    /// Total number of frames in the video stream.
    pub fn video_frame_count(&self) -> (r: u64)
        ensures
            self@.frame_count() == Ok::<u64, Violation>(r),
    {
        proof {
            use_type_invariant(self);
            Self::lemma_valid(self.info);
        }
        match self.info.try_video_frame_count() {
            Ok(c) => c,
            Err(_) => 0,
        }
    }

    /// Size of a single DV frame in bytes; all frames of a file have it.
    pub fn video_frame_size(&self) -> (r: u32)
        ensures
            self@.frame_size() == Ok::<u32, Violation>(r),
    {
        proof {
            use_type_invariant(self);
            Self::lemma_valid(self.info);
        }
        match self.info.try_video_frame_size() {
            Ok(s) => s,
            Err(_) => 0,
        }
    }

    /// Number of channels in the file: 1 for 25 Mbit/s, 2 for 50 Mbit/s.
    pub fn video_frame_channel_count(&self) -> (r: u8)
        ensures
            self@.frame_info() is Ok,
            r == self@.frame_info()->Ok_0.0,
    {
        proof {
            use_type_invariant(self);
            Self::lemma_valid(self.info);
        }
        match self.info.try_video_frame_info() {
            Ok((channels, _)) => channels,
            Err(_) => 0,
        }
    }

    /// Number of DIF sequences per frame and channel: 10 for 525-60, 12 for
    /// 625-50.
    pub fn video_frame_dif_sequence_count(&self) -> (r: u8)
        ensures
            self@.frame_info() is Ok,
            r == self@.frame_info()->Ok_0.1,
    {
        proof {
            use_type_invariant(self);
            Self::lemma_valid(self.info);
        }
        match self.info.try_video_frame_info() {
            Ok((_, sequences)) => sequences,
            Err(_) => 0,
        }
    }

    /// The DV system that is in use within this file.
    #[verifier::when_used_as_spec(system_spec)]
    pub fn system(&self) -> (r: System)
        ensures
            r == self.system(),
            self@.system() == Ok::<System, Violation>(r),
    {
        proof {
            use_type_invariant(self);
            Self::lemma_valid(self.info);
        }
        match self.info.try_system() {
            Ok(s) => s,
            Err(_) => System::Sys525_60,
        }
    }

    /// Ideal number of audio samples per video frame: the sample rate
    /// divided by the frame rate, in lowest terms, or nothing for a file
    /// without audio.
    ///
    /// Files with locked audio follow this number strictly. Files with
    /// unlocked audio, such as most videos of consumer equipment, drift round
    /// it. At 30000/1001 frames per second and 32 kHz, 15 frames hold 16016
    /// audio samples, and no fewer frames hold a whole number of them.
    pub fn ideal_audio_samples_per_frame(&self) -> (r: Option<Ratio<u32>>)
        ensures
            r == ideal_samples(self@),
            r is Some ==> r->Some_0.numer as int * self@.video_frame_rate.numer
                == self@.audio_sample_rate->Some_0 as int * self@.video_frame_rate.denom
                * r->Some_0.denom,
    {
        proof {
            use_type_invariant(self);
            Self::lemma_valid(self.info);
            assert(entry(Field::AudioSampleRate, self.info.sample_rate_check()).len() == 0);
            assert(entry(Field::VideoFrameRate, self.info.frame_rate_check()).len() == 0);
        }
        let rate = self.info.video_frame_rate;
        let whole = rate.numer as u64 == rate.denom as u64 * 25;
        match self.info.audio_sample_rate {
            None => None,
            Some(sample_rate) => {
                let r = if whole {
                    Ratio { numer: sample_rate / 25, denom: 1 }
                } else if sample_rate == 32_000 {
                    Ratio { numer: 16_016, denom: 15 }
                } else if sample_rate == 44_100 {
                    Ratio { numer: 147_147, denom: 100 }
                } else {
                    Ratio { numer: 8_008, denom: 5 }
                };
                assert(r.numer as int * rate.numer == sample_rate as int * rate.denom * r.denom)
                    by (nonlinear_arith)
                    requires
                        rate.denom != 0,
                        whole ==> rate.numer as int == rate.denom as int * 25 && r.denom == 1
                            && r.numer * 25 == sample_rate,
                        !whole ==> rate.numer as int * 1001 == rate.denom as int * 30_000
                            && r.numer * 30_000 == sample_rate * 1001 * r.denom,
                ;
                Some(r)
            },
        }
    }

    /// Compares this metadata with another file's: the file size may differ,
    /// everything else has to agree. The error names the first difference.
    pub fn check_similar(&self, other: &ValidInfo) -> (r: Result<(), DissimilarError>)
        ensures
            r == match dissimilarity(self@, other@) {
                Some(e) => Err::<(), DissimilarError>(e),
                None => Ok(()),
            },
            r is Ok ==> self.system() == other.system(),
    {
        let a = self.get();
        let b = other.get();
        assert(a.video_frame_rate.numer as int * b.video_frame_rate.denom as int <= 0xFFFF_FFFF
            * 0xFFFF_FFFF) by (nonlinear_arith)
            requires
                a.video_frame_rate.numer <= 0xFFFF_FFFF,
                b.video_frame_rate.denom <= 0xFFFF_FFFF,
        ;
        assert(b.video_frame_rate.numer as int * a.video_frame_rate.denom as int <= 0xFFFF_FFFF
            * 0xFFFF_FFFF) by (nonlinear_arith)
            requires
                b.video_frame_rate.numer <= 0xFFFF_FFFF,
                a.video_frame_rate.denom <= 0xFFFF_FFFF,
        ;
        let left: u128 = (a.video_frame_rate.numer as u128) * (b.video_frame_rate.denom as u128);
        let right: u128 = (b.video_frame_rate.numer as u128) * (a.video_frame_rate.denom as u128);
        if left != right {
            return Err(
                DissimilarError::VideoFrameRate {
                    other: b.video_frame_rate,
                    this: a.video_frame_rate,
                },
            );
        }
        let size_a = self.video_frame_size();
        let size_b = other.video_frame_size();
        if size_a != size_b {
            return Err(DissimilarError::VideoFrameSize { other: size_b, this: size_a });
        }
        if a.audio_stereo_stream_count != b.audio_stereo_stream_count {
            return Err(
                DissimilarError::AudioStereoStreamCount {
                    other: b.audio_stereo_stream_count,
                    this: a.audio_stereo_stream_count,
                },
            );
        }
        let same_rate = match (a.audio_sample_rate, b.audio_sample_rate) {
            (None, None) => true,
            (Some(x), Some(y)) => x == y,
            _ => false,
        };
        if !same_rate {
            return Err(
                DissimilarError::AudioSampleRate {
                    other: b.audio_sample_rate,
                    this: a.audio_sample_rate,
                },
            );
        }
        Ok(())
    }
}

/// Informational functions on validated metadata.
pub trait ValidInfoMethods {
    /// The metadata that was validated.
    spec fn info(&self) -> Info;

    /// Total number of frames in the video stream.
    fn video_frame_count(&self) -> (r: u64)
        ensures
            self.info().frame_count() == Ok::<u64, Violation>(r),
    ;

    /// Size of a single DV frame in bytes.
    fn video_frame_size(&self) -> (r: u32)
        ensures
            self.info().frame_size() == Ok::<u32, Violation>(r),
    ;

    /// Number of channels in the file: 1 for 25 Mbit/s, 2 for 50 Mbit/s.
    fn video_frame_channel_count(&self) -> (r: u8)
        ensures
            self.info().frame_info() is Ok,
            r == self.info().frame_info()->Ok_0.0,
    ;

    /// Number of DIF sequences per frame and channel.
    fn video_frame_dif_sequence_count(&self) -> (r: u8)
        ensures
            self.info().frame_info() is Ok,
            r == self.info().frame_info()->Ok_0.1,
    ;

    /// The DV system that is in use within this file.
    fn system(&self) -> (r: System)
        ensures
            self.info().system() == Ok::<System, Violation>(r),
    ;

    /// Ideal number of audio samples per video frame.
    fn ideal_audio_samples_per_frame(&self) -> (r: Option<Ratio<u32>>)
        ensures
            r == ideal_samples(self.info()),
    ;

    /// Compares this metadata with another file's.
    fn check_similar(&self, other: &Self) -> (r: Result<(), DissimilarError>)
        ensures
            r == match dissimilarity(self.info(), other.info()) {
                Some(e) => Err::<(), DissimilarError>(e),
                None => Ok(()),
            },
    ;
}

impl ValidInfoMethods for ValidInfo {
    open spec fn info(&self) -> Info {
        self@
    }

    fn video_frame_count(&self) -> (r: u64) {
        ValidInfo::video_frame_count(self)
    }

    fn video_frame_size(&self) -> (r: u32) {
        ValidInfo::video_frame_size(self)
    }

    fn video_frame_channel_count(&self) -> (r: u8) {
        ValidInfo::video_frame_channel_count(self)
    }

    fn video_frame_dif_sequence_count(&self) -> (r: u8) {
        ValidInfo::video_frame_dif_sequence_count(self)
    }

    fn system(&self) -> (r: System) {
        ValidInfo::system(self)
    }

    fn ideal_audio_samples_per_frame(&self) -> (r: Option<Ratio<u32>>) {
        ValidInfo::ideal_audio_samples_per_frame(self)
    }

    fn check_similar(&self, other: &Self) -> (r: Result<(), DissimilarError>) {
        ValidInfo::check_similar(self, other)
    }
}

} // verus!
