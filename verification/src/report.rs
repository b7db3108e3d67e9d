//! Field-scoped validation reports.
//!
//! Validation never stops at the first problem: every violated field adds one
//! [`FieldError`] to a [`Report`], in the alphabetical order of the field paths.
use vstd::prelude::*;

use crate::file::System;
use crate::file::Ratio;
use crate::pack::Date;
use crate::pack::Weekday;
use crate::text::decimal;
use crate::text::fraction;
use crate::text::hexadecimal;
use crate::text::push_decimal;
use crate::text::push_fraction;
use crate::text::push_hexadecimal;
use crate::text::push_signed_decimal;
use crate::text::push_tenths;
use crate::text::push_text;
use crate::text::signed_decimal;
use crate::text::tenths;

verus! {

/// Name of a field of a validated structure; one segment of a [`FieldPath`].
#[derive(Debug, PartialEq, Eq, Clone, Copy, Structural)]
pub enum Field {
    AudioBlockChannelCount,
    AudioFrameSize,
    AudioMode,
    AudioSampleRate,
    AudioStereoStreamCount,
    AutoGainControl,
    BlankFlag,
    BroadcastSystem,
    Date,
    DaylightSavingTime,
    DisplayMode,
    FieldCount,
    FirstSecond,
    FocusPosition,
    Frame,
    GenreCategory,
    GroupData,
    Hour,
    Iris,
    Minute,
    PlaybackSpeed,
    Reserved,
    Second,
    SourceCode,
    Time,
    Timecode,
    Timezone,
    TunerCategory,
    TvChannel,
    VideoDuration,
    VideoFrameRate,
    Weekday,
}

impl Field {
    /// The name of the field.
    pub open spec fn name_text(&self) -> Seq<char> {
        match *self {
            Field::AudioBlockChannelCount => "audio_block_channel_count"@,
            Field::AudioFrameSize => "audio_frame_size"@,
            Field::AudioMode => "audio_mode"@,
            Field::AudioSampleRate => "audio_sample_rate"@,
            Field::AudioStereoStreamCount => "audio_stereo_stream_count"@,
            Field::AutoGainControl => "auto_gain_control"@,
            Field::BlankFlag => "blank_flag"@,
            Field::BroadcastSystem => "broadcast_system"@,
            Field::Date => "date"@,
            Field::DaylightSavingTime => "daylight_saving_time"@,
            Field::DisplayMode => "display_mode"@,
            Field::FieldCount => "field_count"@,
            Field::FirstSecond => "first_second"@,
            Field::FocusPosition => "focus_position"@,
            Field::Frame => "frame"@,
            Field::GenreCategory => "genre_category"@,
            Field::GroupData => "group_data"@,
            Field::Hour => "hour"@,
            Field::Iris => "iris"@,
            Field::Minute => "minute"@,
            Field::PlaybackSpeed => "playback_speed"@,
            Field::Reserved => "reserved"@,
            Field::Second => "second"@,
            Field::SourceCode => "source_code"@,
            Field::Time => "time"@,
            Field::Timecode => "timecode"@,
            Field::Timezone => "timezone"@,
            Field::TunerCategory => "tuner_category"@,
            Field::TvChannel => "tv_channel"@,
            Field::VideoDuration => "video_duration"@,
            Field::VideoFrameRate => "video_frame_rate"@,
            Field::Weekday => "weekday"@,
        }
    }

    /// The name of the field.
    pub fn name(&self) -> (r: &'static str)
        ensures
            r@ == self.name_text(),
    {
        match *self {
            Field::AudioBlockChannelCount => "audio_block_channel_count",
            Field::AudioFrameSize => "audio_frame_size",
            Field::AudioMode => "audio_mode",
            Field::AudioSampleRate => "audio_sample_rate",
            Field::AudioStereoStreamCount => "audio_stereo_stream_count",
            Field::AutoGainControl => "auto_gain_control",
            Field::BlankFlag => "blank_flag",
            Field::BroadcastSystem => "broadcast_system",
            Field::Date => "date",
            Field::DaylightSavingTime => "daylight_saving_time",
            Field::DisplayMode => "display_mode",
            Field::FieldCount => "field_count",
            Field::FirstSecond => "first_second",
            Field::FocusPosition => "focus_position",
            Field::Frame => "frame",
            Field::GenreCategory => "genre_category",
            Field::GroupData => "group_data",
            Field::Hour => "hour",
            Field::Iris => "iris",
            Field::Minute => "minute",
            Field::PlaybackSpeed => "playback_speed",
            Field::Reserved => "reserved",
            Field::Second => "second",
            Field::SourceCode => "source_code",
            Field::Time => "time",
            Field::Timecode => "timecode",
            Field::Timezone => "timezone",
            Field::TunerCategory => "tuner_category",
            Field::TvChannel => "tv_channel",
            Field::VideoDuration => "video_duration",
            Field::VideoFrameRate => "video_frame_rate",
            Field::Weekday => "weekday",
        }
    }
}

/// Where a violated field sits: its own name, below the names of up to two
/// structures that contain it (outermost first).
#[derive(Debug, PartialEq, Eq, Clone, Copy, Structural)]
pub struct FieldPath {
    pub outer: Option<Field>,
    pub inner: Option<Field>,
    pub leaf: Field,
}

impl FieldPath {
    /// The path of a field of the structure that is validated.
    pub open spec fn root(leaf: Field) -> FieldPath {
        FieldPath { outer: None, inner: None, leaf }
    }

    /// The same path, seen from the structure that holds the validated one in
    /// its field `parent`.
    pub open spec fn within(self, parent: Field) -> FieldPath {
        match self.inner {
            Some(i) => FieldPath { outer: Some(parent), inner: Some(i), leaf: self.leaf },
            None => FieldPath { outer: None, inner: Some(parent), leaf: self.leaf },
        }
    }

    /// The names of the path, outermost first, with a full stop between them.
    pub open spec fn text(self) -> Seq<char> {
        let head = match self.outer {
            Some(o) => Seq::<char>::empty() + o.name_text() + "."@,
            None => Seq::<char>::empty(),
        };
        let middle = match self.inner {
            Some(i) => head + i.name_text() + "."@,
            None => head,
        };
        middle + self.leaf.name_text()
    }

    /// Appends the names of the path, outermost first, with a full stop
    /// between them.
    pub fn push_to(&self, s: &mut String)
        ensures
            final(s)@ == old(s)@ + self.text(),
    {
        match self.outer {
            Some(o) => {
                push_text(s, o.name());
                push_text(s, ".");
            },
            None => {},
        }
        match self.inner {
            Some(i) => {
                push_text(s, i.name());
                push_text(s, ".");
            },
            None => {},
        }
        push_text(s, self.leaf.name());
        assert(s@ =~= old(s)@ + self.text());
    }

    pub fn at_root(leaf: Field) -> (r: FieldPath)
        ensures
            r == FieldPath::root(leaf),
    {
        FieldPath { outer: None, inner: None, leaf }
    }

    pub fn nested_in(self, parent: Field) -> (r: FieldPath)
        ensures
            r == self.within(parent),
    {
        match self.inner {
            Some(i) => FieldPath { outer: Some(parent), inner: Some(i), leaf: self.leaf },
            None => FieldPath { outer: None, inner: Some(parent), leaf: self.leaf },
        }
    }
}

/// The rule that a field broke, with the values that the message quotes.
#[derive(Debug, PartialEq, Eq, Clone, Copy, Structural)]
#[allow(inconsistent_fields)]
pub enum Violation {
    /// The value is below the smallest one allowed.
    LowerThan { min: u16 },
    /// The value is above the largest one allowed.
    GreaterThan { max: u16 },
    /// The "no information" bit pattern was given as a value.
    SentinelValue { sentinel: u8 },
    /// The field count is not the one of the file's system.
    FieldCountMismatch { field_count: u8, expected: u8, system: System },
    /// The audio sample rate is none of 32000, 44100 and 48000 Hz.
    AudioSampleRateUnsupported { rate: u32 },
    /// No window of audio frame sizes exists for the sample rate.
    AudioFrameSizeUnknownRate,
    /// Fewer audio samples in the frame than the system and rate allow.
    AudioFrameSizeBelow { size: u16, min: u16, system: System, rate: u32 },
    /// More audio samples in the frame than the system and rate allow.
    AudioFrameSizeAbove { size: u16, max: u16, system: System, rate: u32 },
    /// The year cannot be written with two digits: it is before 1975.
    YearBeforeMinimum { year: i32 },
    /// The year cannot be written with two digits: it is after 2074.
    YearAfterMaximum { year: i32 },
    /// No such day exists in the calendar.
    DateNotValid { date: Date },
    /// A weekday stands beside an absent date.
    WeekdayWithoutDate,
    /// The weekday is not the one on which the date falls.
    WeekdayMismatch { weekday: Weekday, date: Date, actual: Weekday },
    /// The time zone lies west of Greenwich.
    TimezoneNegative { offset: i32 },
    /// The time zone is no multiple of thirty minutes.
    TimezoneNotHalfHour { offset: i32 },
    /// The time zone is a whole day or more.
    TimezoneTooLarge { offset: i32 },
    /// A time zone is present without the daylight saving flag.
    DaylightSavingTimeMissing,
    /// The daylight saving flag is present without a time zone.
    DaylightSavingTimeUnexpected,
    /// The frame number is above the largest one of the system.
    FrameNumberTooLarge { frame: u8, max: u8, system: System },
    /// Drop frame is set and the frame number is one that is skipped.
    DroppedFrameNumber { frame: u8 },
    /// Blank flag and colour frame flag share one bit and differ.
    BlankFlagMismatch { blank_flag: u8, color_frame: u8 },
    /// A TV channel stands beside a source code that has none.
    TvChannelUnexpected,
    /// The source code needs a TV channel.
    TvChannelRequired,
    /// A tuner category stands beside a source code that is no tuner.
    TunerCategoryUnexpected,
    /// The tuner source code needs a tuner category.
    TunerCategoryRequired,
    /// The playback speed has no code.
    PlaybackSpeedUnsupported { speed: Ratio<u8> },
    /// The iris value, in tenths, has no code.
    IrisUnsupported { iris: u16 },
    /// The focus position has no code.
    FocusPositionUnsupported { position: u16 },
    /// The video frame rate is neither 30000/1001 nor 25.
    VideoFrameRateUnsupported { rate: Ratio<u32> },
    /// A ratio has the denominator zero.
    ZeroDenominator,
    /// The duration needs more than 96 bits above or 32 bits below the line.
    DurationOutOfRange,
    /// Frame rate times duration is no whole number.
    FrameCountNotInteger { count: Ratio<u128>, rate: Ratio<u32>, duration: Ratio<u128> },
    /// The frame count needs more than 64 bits.
    FrameCountTooLarge { count: u128 },
    /// The file holds no frame.
    FrameCountZero,
    /// The file size is no multiple of the frame count.
    FileSizeNotDivisible { file_size: u64, frame_count: u64 },
    /// The frame size needs more than 32 bits.
    FrameSizeTooLarge { frame_size: u64 },
    /// The frame size is none that the format knows.
    FrameSizeUnsupported { frame_size: u32 },
    /// Audio streams exist and their sample rate is unknown.
    SampleRateMissing,
    /// A sample rate is given and no audio stream exists.
    SampleRateUnexpected,
    /// The file's sample rate is none of 32000, 44100 and 48000 Hz.
    SampleRateUnsupported { rate: u32 },
}

impl Violation {
    /// The text of the message that names the rule and quotes the values.
    pub open spec fn text(&self) -> Seq<char> {
        match *self {
            Violation::LowerThan { min } => Seq::<char>::empty()
                + "lower than "@
                + decimal(min as nat),
            Violation::GreaterThan { max } => Seq::<char>::empty()
                + "greater than "@
                + decimal(max as nat),
            Violation::SentinelValue { sentinel } => Seq::<char>::empty()
                + "instead of specifying Some(0x"@
                + hexadecimal(sentinel as nat)
                + "), use None to indicate no information"@,
            Violation::FieldCountMismatch { field_count, expected, system } => Seq::<char>::empty()
                + "field count of "@
                + decimal(field_count as nat)
                + " does not match the expected value of "@
                + decimal(expected as nat)
                + " for system "@
                + system.name_text(),
            Violation::AudioSampleRateUnsupported { rate } => Seq::<char>::empty()
                + "audio sample rate of "@
                + decimal(rate as nat)
                + " is not one of the supported values of 32000, 44100, or 48000 Hz"@,
            Violation::AudioFrameSizeUnknownRate => Seq::<char>::empty()
                + "cannot validate the audio frame size because the audio sample rate is unsupported"@,
            Violation::AudioFrameSizeBelow { size, min, system, rate } => Seq::<char>::empty()
                + "video frame contains "@
                + decimal(size as nat)
                + " audio samples, which is below the required minimum of "@
                + decimal(min as nat)
                + " for video system "@
                + system.name_text()
                + " and audio sample rate "@
                + decimal(rate as nat)
                + " Hz"@,
            Violation::AudioFrameSizeAbove { size, max, system, rate } => Seq::<char>::empty()
                + "video frame contains "@
                + decimal(size as nat)
                + " audio samples, which is above the maximum of "@
                + decimal(max as nat)
                + " for video system "@
                + system.name_text()
                + " and audio sample rate "@
                + decimal(rate as nat)
                + " Hz"@,
            Violation::YearBeforeMinimum { year } => Seq::<char>::empty()
                + "the year "@
                + signed_decimal(year as int)
                + " is before the minimum allowed year 1975"@,
            Violation::YearAfterMaximum { year } => Seq::<char>::empty()
                + "the year "@
                + signed_decimal(year as int)
                + " is after the maximum allowed year 2074"@,
            Violation::DateNotValid { date } => Seq::<char>::empty()
                + "the date "@
                + signed_decimal(date.year as int)
                + "-"@
                + decimal(date.month as nat)
                + "-"@
                + decimal(date.day as nat)
                + " is not a valid date"@,
            Violation::WeekdayWithoutDate => Seq::<char>::empty()
                + "a weekday must not be provided if the date is otherwise absent."@,
            Violation::WeekdayMismatch { weekday, date, actual } => Seq::<char>::empty()
                + "the weekday field value of "@
                + weekday.name_text()
                + " does not match the date weekday of "@
                + date.text()
                + " which is "@
                + actual.name_text(),
            Violation::TimezoneNegative { offset } => Seq::<char>::empty()
                + "the time zone offset of "@
                + signed_decimal(offset as int)
                + " seconds must be a positive offset from GMT"@,
            Violation::TimezoneNotHalfHour { offset } => Seq::<char>::empty()
                + "the time zone offset of "@
                + signed_decimal(offset as int)
                + " seconds must be a multiple of 30 minutes, or 1800 seconds"@,
            Violation::TimezoneTooLarge { offset } => Seq::<char>::empty()
                + "the time zone offset of "@
                + signed_decimal(offset as int)
                + " seconds must be less than 24 hours"@,
            Violation::DaylightSavingTimeMissing => Seq::<char>::empty()
                + "daylight saving time value must be specified if time zone is present"@,
            Violation::DaylightSavingTimeUnexpected => Seq::<char>::empty()
                + "daylight saving time value must be not specified if time zone is absent"@,
            Violation::FrameNumberTooLarge { frame, max, system } => Seq::<char>::empty()
                + "frame number "@
                + decimal(frame as nat)
                + " is greater than "@
                + decimal(max as nat)
                + ", which is the maximum valid frame number for system "@
                + system.name_text(),
            Violation::DroppedFrameNumber { frame } => Seq::<char>::empty()
                + "the drop frame flag was set, but a dropped frame number "@
                + decimal(frame as nat)
                + " was provided"@,
            Violation::BlankFlagMismatch { blank_flag, color_frame } => Seq::<char>::empty()
                + "Blank flag integer value of "@
                + decimal(blank_flag as nat)
                + " must be equal to the color frame flag integer value of "@
                + decimal(color_frame as nat)
                + " because they occupy the same physical bit positions on the tape.  Change one value to match the other."@,
            Violation::TvChannelUnexpected => Seq::<char>::empty()
                + "a TV channel number must not be provided for this source code value"@,
            Violation::TvChannelRequired => Seq::<char>::empty()
                + "a TV channel number is required for this source code value"@,
            Violation::TunerCategoryUnexpected => Seq::<char>::empty()
                + "a tuner category must not be provided if the source code is not a tuner"@,
            Violation::TunerCategoryRequired => Seq::<char>::empty()
                + "a tuner category must be provided if the source code is a tuner"@,
            Violation::PlaybackSpeedUnsupported { speed } => Seq::<char>::empty()
                + "playback speed "@
                + fraction(speed.numer as nat, speed.denom as nat)
                + " not supported: only playback speeds returned by the valid_playback_speeds function are supported"@,
            Violation::IrisUnsupported { iris } => Seq::<char>::empty()
                + "iris value "@
                + tenths(iris as nat)
                + " not supported: only iris values returned by the valid_iris_values function are supported"@,
            Violation::FocusPositionUnsupported { position } => Seq::<char>::empty()
                + "focus position "@
                + decimal(position as nat)
                + " not supported: only focus positions returned by the valid_focus_positions function are supported"@,
            Violation::VideoFrameRateUnsupported { rate } => Seq::<char>::empty()
                + "Video frame rate "@
                + fraction(rate.numer as nat, rate.denom as nat)
                + " is not a supported NTSC/PAL/SECAM rate"@,
            Violation::ZeroDenominator => Seq::<char>::empty()
                + "Video frame rate and video duration must not have a zero denominator"@,
            Violation::DurationOutOfRange => Seq::<char>::empty()
                + "Video duration does not fit in 96 bits over 32 bits"@,
            Violation::FrameCountNotInteger { count, rate, duration } => Seq::<char>::empty()
                + "Total video frame count "@
                + fraction(count.numer as nat, count.denom as nat)
                + " is not an integer; it resulted from multiplying video frame rate "@
                + fraction(rate.numer as nat, rate.denom as nat)
                + " by video duration "@
                + fraction(duration.numer as nat, duration.denom as nat),
            Violation::FrameCountTooLarge { count } => Seq::<char>::empty()
                + "Frame count "@
                + decimal(count as nat)
                + " does not fit in a 64-bit integer"@,
            Violation::FrameCountZero => Seq::<char>::empty()
                + "Video frame count is zero, so cannot calculate the frame size"@,
            Violation::FileSizeNotDivisible { file_size, frame_count } => Seq::<char>::empty()
                + "File size "@
                + decimal(file_size as nat)
                + " is not evenly divisible by video frame count "@
                + decimal(frame_count as nat),
            Violation::FrameSizeTooLarge { frame_size } => Seq::<char>::empty()
                + "Video frame size count "@
                + decimal(frame_size as nat)
                + " does not fit in a 64-bit integer"@,
            Violation::FrameSizeUnsupported { frame_size } => Seq::<char>::empty()
                + "Unsupported frame size "@
                + decimal(frame_size as nat),
            Violation::SampleRateMissing => Seq::<char>::empty()
                + "Could not detect sample rate for audio streams"@,
            Violation::SampleRateUnexpected => Seq::<char>::empty()
                + "Audio sample rate cannot be provided if there are no audio streams"@,
            Violation::SampleRateUnsupported { rate } => Seq::<char>::empty()
                + "Unsupported audio sample rate "@
                + decimal(rate as nat),
        }
    }

    /// The message that names the rule and quotes the values.
    pub fn message(&self) -> (r: String)
        ensures
            r@ == self.text(),
    {
        let mut s = String::new();
        match *self {
            Violation::LowerThan { min } => {
                push_text(&mut s, "lower than ");
                push_decimal(&mut s, min as u128);
            },
            Violation::GreaterThan { max } => {
                push_text(&mut s, "greater than ");
                push_decimal(&mut s, max as u128);
            },
            Violation::SentinelValue { sentinel } => {
                push_text(&mut s, "instead of specifying Some(0x");
                push_hexadecimal(&mut s, sentinel as u128);
                push_text(&mut s, "), use None to indicate no information");
            },
            Violation::FieldCountMismatch { field_count, expected, system } => {
                push_text(&mut s, "field count of ");
                push_decimal(&mut s, field_count as u128);
                push_text(&mut s, " does not match the expected value of ");
                push_decimal(&mut s, expected as u128);
                push_text(&mut s, " for system ");
                push_text(&mut s, system.name());
            },
            Violation::AudioSampleRateUnsupported { rate } => {
                push_text(&mut s, "audio sample rate of ");
                push_decimal(&mut s, rate as u128);
                push_text(
                    &mut s,
                    " is not one of the supported values of 32000, 44100, or 48000 Hz",
                );
            },
            Violation::AudioFrameSizeUnknownRate => {
                push_text(
                    &mut s,
                    "cannot validate the audio frame size because the audio sample rate is unsupported",
                );
            },
            Violation::AudioFrameSizeBelow { size, min, system, rate } => {
                push_text(&mut s, "video frame contains ");
                push_decimal(&mut s, size as u128);
                push_text(&mut s, " audio samples, which is below the required minimum of ");
                push_decimal(&mut s, min as u128);
                push_text(&mut s, " for video system ");
                push_text(&mut s, system.name());
                push_text(&mut s, " and audio sample rate ");
                push_decimal(&mut s, rate as u128);
                push_text(&mut s, " Hz");
            },
            Violation::AudioFrameSizeAbove { size, max, system, rate } => {
                push_text(&mut s, "video frame contains ");
                push_decimal(&mut s, size as u128);
                push_text(&mut s, " audio samples, which is above the maximum of ");
                push_decimal(&mut s, max as u128);
                push_text(&mut s, " for video system ");
                push_text(&mut s, system.name());
                push_text(&mut s, " and audio sample rate ");
                push_decimal(&mut s, rate as u128);
                push_text(&mut s, " Hz");
            },
            Violation::YearBeforeMinimum { year } => {
                push_text(&mut s, "the year ");
                push_signed_decimal(&mut s, year as i64);
                push_text(&mut s, " is before the minimum allowed year 1975");
            },
            Violation::YearAfterMaximum { year } => {
                push_text(&mut s, "the year ");
                push_signed_decimal(&mut s, year as i64);
                push_text(&mut s, " is after the maximum allowed year 2074");
            },
            Violation::DateNotValid { date } => {
                push_text(&mut s, "the date ");
                push_signed_decimal(&mut s, date.year as i64);
                push_text(&mut s, "-");
                push_decimal(&mut s, date.month as u128);
                push_text(&mut s, "-");
                push_decimal(&mut s, date.day as u128);
                push_text(&mut s, " is not a valid date");
            },
            Violation::WeekdayWithoutDate => {
                push_text(
                    &mut s,
                    "a weekday must not be provided if the date is otherwise absent.",
                );
            },
            Violation::WeekdayMismatch { weekday, date, actual } => {
                push_text(&mut s, "the weekday field value of ");
                push_text(&mut s, weekday.name());
                push_text(&mut s, " does not match the date weekday of ");
                push_text(&mut s, date.message().as_str());
                push_text(&mut s, " which is ");
                push_text(&mut s, actual.name());
            },
            Violation::TimezoneNegative { offset } => {
                push_text(&mut s, "the time zone offset of ");
                push_signed_decimal(&mut s, offset as i64);
                push_text(&mut s, " seconds must be a positive offset from GMT");
            },
            Violation::TimezoneNotHalfHour { offset } => {
                push_text(&mut s, "the time zone offset of ");
                push_signed_decimal(&mut s, offset as i64);
                push_text(&mut s, " seconds must be a multiple of 30 minutes, or 1800 seconds");
            },
            Violation::TimezoneTooLarge { offset } => {
                push_text(&mut s, "the time zone offset of ");
                push_signed_decimal(&mut s, offset as i64);
                push_text(&mut s, " seconds must be less than 24 hours");
            },
            Violation::DaylightSavingTimeMissing => {
                push_text(
                    &mut s,
                    "daylight saving time value must be specified if time zone is present",
                );
            },
            Violation::DaylightSavingTimeUnexpected => {
                push_text(
                    &mut s,
                    "daylight saving time value must be not specified if time zone is absent",
                );
            },
            Violation::FrameNumberTooLarge { frame, max, system } => {
                push_text(&mut s, "frame number ");
                push_decimal(&mut s, frame as u128);
                push_text(&mut s, " is greater than ");
                push_decimal(&mut s, max as u128);
                push_text(&mut s, ", which is the maximum valid frame number for system ");
                push_text(&mut s, system.name());
            },
            Violation::DroppedFrameNumber { frame } => {
                push_text(&mut s, "the drop frame flag was set, but a dropped frame number ");
                push_decimal(&mut s, frame as u128);
                push_text(&mut s, " was provided");
            },
            Violation::BlankFlagMismatch { blank_flag, color_frame } => {
                push_text(&mut s, "Blank flag integer value of ");
                push_decimal(&mut s, blank_flag as u128);
                push_text(&mut s, " must be equal to the color frame flag integer value of ");
                push_decimal(&mut s, color_frame as u128);
                push_text(
                    &mut s,
                    " because they occupy the same physical bit positions on the tape.  Change one value to match the other.",
                );
            },
            Violation::TvChannelUnexpected => {
                push_text(
                    &mut s,
                    "a TV channel number must not be provided for this source code value",
                );
            },
            Violation::TvChannelRequired => {
                push_text(&mut s, "a TV channel number is required for this source code value");
            },
            Violation::TunerCategoryUnexpected => {
                push_text(
                    &mut s,
                    "a tuner category must not be provided if the source code is not a tuner",
                );
            },
            Violation::TunerCategoryRequired => {
                push_text(
                    &mut s,
                    "a tuner category must be provided if the source code is a tuner",
                );
            },
            Violation::PlaybackSpeedUnsupported { speed } => {
                push_text(&mut s, "playback speed ");
                push_fraction(&mut s, speed.numer as u128, speed.denom as u128);
                push_text(
                    &mut s,
                    " not supported: only playback speeds returned by the valid_playback_speeds function are supported",
                );
            },
            Violation::IrisUnsupported { iris } => {
                push_text(&mut s, "iris value ");
                push_tenths(&mut s, iris as u128);
                push_text(
                    &mut s,
                    " not supported: only iris values returned by the valid_iris_values function are supported",
                );
            },
            Violation::FocusPositionUnsupported { position } => {
                push_text(&mut s, "focus position ");
                push_decimal(&mut s, position as u128);
                push_text(
                    &mut s,
                    " not supported: only focus positions returned by the valid_focus_positions function are supported",
                );
            },
            Violation::VideoFrameRateUnsupported { rate } => {
                push_text(&mut s, "Video frame rate ");
                push_fraction(&mut s, rate.numer as u128, rate.denom as u128);
                push_text(&mut s, " is not a supported NTSC/PAL/SECAM rate");
            },
            Violation::ZeroDenominator => {
                push_text(
                    &mut s,
                    "Video frame rate and video duration must not have a zero denominator",
                );
            },
            Violation::DurationOutOfRange => {
                push_text(&mut s, "Video duration does not fit in 96 bits over 32 bits");
            },
            Violation::FrameCountNotInteger { count, rate, duration } => {
                push_text(&mut s, "Total video frame count ");
                push_fraction(&mut s, count.numer as u128, count.denom as u128);
                push_text(
                    &mut s,
                    " is not an integer; it resulted from multiplying video frame rate ",
                );
                push_fraction(&mut s, rate.numer as u128, rate.denom as u128);
                push_text(&mut s, " by video duration ");
                push_fraction(&mut s, duration.numer as u128, duration.denom as u128);
            },
            Violation::FrameCountTooLarge { count } => {
                push_text(&mut s, "Frame count ");
                push_decimal(&mut s, count as u128);
                push_text(&mut s, " does not fit in a 64-bit integer");
            },
            Violation::FrameCountZero => {
                push_text(&mut s, "Video frame count is zero, so cannot calculate the frame size");
            },
            Violation::FileSizeNotDivisible { file_size, frame_count } => {
                push_text(&mut s, "File size ");
                push_decimal(&mut s, file_size as u128);
                push_text(&mut s, " is not evenly divisible by video frame count ");
                push_decimal(&mut s, frame_count as u128);
            },
            Violation::FrameSizeTooLarge { frame_size } => {
                push_text(&mut s, "Video frame size count ");
                push_decimal(&mut s, frame_size as u128);
                push_text(&mut s, " does not fit in a 64-bit integer");
            },
            Violation::FrameSizeUnsupported { frame_size } => {
                push_text(&mut s, "Unsupported frame size ");
                push_decimal(&mut s, frame_size as u128);
            },
            Violation::SampleRateMissing => {
                push_text(&mut s, "Could not detect sample rate for audio streams");
            },
            Violation::SampleRateUnexpected => {
                push_text(
                    &mut s,
                    "Audio sample rate cannot be provided if there are no audio streams",
                );
            },
            Violation::SampleRateUnsupported { rate } => {
                push_text(&mut s, "Unsupported audio sample rate ");
                push_decimal(&mut s, rate as u128);
            },
        }
        s
    }
}

/// One violated field.
#[derive(Debug, PartialEq, Eq, Clone, Copy, Structural)]
pub struct FieldError {
    pub path: FieldPath,
    pub violation: Violation,
}

impl FieldError {
    /// The error of a field of the structure that is validated.
    pub open spec fn of(leaf: Field, violation: Violation) -> FieldError {
        FieldError { path: FieldPath::root(leaf), violation }
    }

    pub open spec fn within(self, parent: Field) -> FieldError {
        FieldError { path: self.path.within(parent), violation: self.violation }
    }

    /// The line of the entry: path, colon, message, line feed.
    pub open spec fn line(self) -> Seq<char> {
        self.path.text() + ": "@ + self.violation.text() + "\n"@
    }

    /// Appends the line of the entry: path, colon, message, line feed.
    pub fn push_to(&self, s: &mut String)
        ensures
            final(s)@ == old(s)@ + self.line(),
    {
        self.path.push_to(s);
        push_text(s, ": ");
        let message = self.violation.message();
        push_text(s, message.as_str());
        push_text(s, "\n");
        assert(s@ =~= old(s)@ + self.line());
    }
}

/// The lines of the entries, one after the other.
pub open spec fn lines(errors: Seq<FieldError>) -> Seq<char>
    decreases errors.len(),
{
    if errors.len() == 0 {
        Seq::empty()
    } else {
        lines(errors.drop_last()) + errors.last().line()
    }
}

/// What one field contributes to a report: nothing, or its violation.
pub open spec fn entry(leaf: Field, check: Result<(), Violation>) -> Seq<FieldError> {
    match check {
        Ok(_) => Seq::empty(),
        Err(v) => seq![FieldError::of(leaf, v)],
    }
}

/// The entries of a contained structure, seen from the one that holds it in
/// its field `parent`.
pub open spec fn nested(parent: Field, errors: Seq<FieldError>) -> Seq<FieldError> {
    errors.map_values(|e: FieldError| e.within(parent))
}

/// The violations found in one structure, in order.
#[derive(Debug, PartialEq, Eq, Clone)]
pub struct Report {
    pub errors: Vec<FieldError>,
}

impl View for Report {
    type V = Seq<FieldError>;

    open spec fn view(&self) -> Seq<FieldError> {
        self.errors@
    }
}

impl Report {
    pub fn new() -> (r: Report)
        ensures
            r@ == Seq::<FieldError>::empty(),
    {
        Report { errors: Vec::new() }
    }

    pub fn is_empty(&self) -> (r: bool)
        ensures
            r == (self@.len() == 0),
    {
        self.errors.len() == 0
    }

    /// Adds what the check of one field found.
    pub fn record(&mut self, leaf: Field, check: Result<(), Violation>)
        ensures
            final(self)@ == old(self)@ + entry(leaf, check),
    {
        match check {
            Ok(_) => {
                assert(self@ =~= self@ + entry(leaf, check));
            },
            Err(v) => {
                self.errors.push(FieldError { path: FieldPath::at_root(leaf), violation: v });
                assert(self@ =~= old(self)@ + entry(leaf, check));
            },
        }
    }

    /// Adds the report of a contained structure, held in the field `parent`.
    pub fn record_nested(&mut self, parent: Field, inner: &Report)
        ensures
            final(self)@ == old(self)@ + nested(parent, inner@),
    {
        let n = inner.errors.len();
        let mut i: usize = 0;
        while i < n
            invariant
                n == inner@.len(),
                i <= n,
                self@ == old(self)@ + nested(parent, inner@.subrange(0, i as int)),
            decreases n - i,
        {
            let e = inner.errors[i];
            self.errors.push(FieldError { path: e.path.nested_in(parent), violation: e.violation });
            assert(inner@.subrange(0, i + 1) =~= inner@.subrange(0, i as int).push(e));
            assert(self@ =~= old(self)@ + nested(parent, inner@.subrange(0, i + 1)));
            i = i + 1;
        }
        assert(inner@.subrange(0, n as int) =~= inner@);
    }

    /// The report as text: a line for each entry, in order.
    pub fn message(&self) -> (r: String)
        ensures
            r@ == lines(self@),
    {
        let mut s = String::new();
        let n = self.errors.len();
        let mut i: usize = 0;
        while i < n
            invariant
                n == self@.len(),
                i <= n,
                s@ == lines(self@.subrange(0, i as int)),
            decreases n - i,
        {
            self.errors[i].push_to(&mut s);
            proof {
                let next = self@.subrange(0, i + 1);
                assert(next.drop_last() =~= self@.subrange(0, i as int));
                assert(next.last() == self@[i as int]);
            }
            i = i + 1;
        }
        assert(self@.subrange(0, n as int) =~= self@);
        s
    }

    /// `Ok` for a report without entries, else the report itself.
    pub fn into_result(self) -> (r: Result<(), Report>)
        ensures
            r is Ok <==> self@.len() == 0,
            r is Err ==> r->Err_0@ == self@,
    {
        if self.errors.len() == 0 {
            Ok(())
        } else {
            Err(self)
        }
    }
}

} // verus!
