//! Why the payload of a pack could not be read.
use vstd::prelude::*;

use crate::pack::util::BcdError;
use crate::report::FieldError;
use crate::report::lines;
use crate::report::Report;
use crate::text::decimal;
use crate::text::push_decimal;
use crate::text::push_text;

verus! {

/// The number that a binary-coded decimal error occurred in.
#[derive(Debug, PartialEq, Eq, Clone, Copy, Structural)]
pub enum BcdField {
    DateYear,
    DateMonth,
    DateDay,
    DateTimezone,
    TimeHour,
    TimeMinute,
    TimeSecond,
    TimeFrame,
    TvChannel,
}

impl BcdField {
    /// What could not be read.
    pub open spec fn name_text(&self) -> Seq<char> {
        match *self {
            BcdField::DateYear => "couldn't read the date's year"@,
            BcdField::DateMonth => "couldn't read the date's month"@,
            BcdField::DateDay => "couldn't read the date's day"@,
            BcdField::DateTimezone => "couldn't read the date's timezone"@,
            BcdField::TimeHour => "couldn't read the time's hour"@,
            BcdField::TimeMinute => "couldn't read the time's minute"@,
            BcdField::TimeSecond => "couldn't read the time's second"@,
            BcdField::TimeFrame => "couldn't read the time's frame number"@,
            BcdField::TvChannel => "couldn't read the TV channel number"@,
        }
    }

    /// What could not be read.
    pub fn name(&self) -> (r: &'static str)
        ensures
            r@ == self.name_text(),
    {
        match *self {
            BcdField::DateYear => "couldn't read the date's year",
            BcdField::DateMonth => "couldn't read the date's month",
            BcdField::DateDay => "couldn't read the date's day",
            BcdField::DateTimezone => "couldn't read the date's timezone",
            BcdField::TimeHour => "couldn't read the time's hour",
            BcdField::TimeMinute => "couldn't read the time's minute",
            BcdField::TimeSecond => "couldn't read the time's second",
            BcdField::TimeFrame => "couldn't read the time's frame number",
            BcdField::TvChannel => "couldn't read the TV channel number",
        }
    }
}

/// A payload that stands for no value of its pack type. Corrupted tape data
/// is expected, so these are values, and the payload is never lost: see
/// [`crate::pack::Pack::Invalid`].
#[derive(Debug, PartialEq, Eq, Clone, Copy, Structural)]
pub enum DecodeError {
    /// A digit of a binary-coded decimal number is above 9.
    Bcd { field: BcdField, source: BcdError },
    /// The time zone's hours make a whole day or more.
    TimezoneOutOfRange { tz_hour: u8 },
    /// Year, month and day are all present and name no day of the calendar.
    DateNotValid { year: u16, month: u8, day: u8 },
    /// Only some of year, month and day are present.
    PartialDate,
    /// Only some of hour, minute and second are present.
    PartialTime,
    /// A frame number is present and the time is not.
    FrameWithoutTime,
    /// The pack needs a time and has none.
    TimeMissing,
    /// The pack needs a frame number and has none.
    FrameMissing,
    /// The code of the audio sample rate is a reserved one.
    UnknownSampleRate { smp: u8 },
    /// The code of the channel count of an audio block is a reserved one.
    UnknownChannelCount { chn: u8 },
    /// The source code says camera and a TV channel is present.
    CameraWithTvChannel,
    /// The source code says line input and the TV channel digits are neither
    /// all `0xE` nor all `0xF`.
    LineWithTvChannel,
}

impl DecodeError {
    /// The text of the message, without that of its cause.
    pub open spec fn text(&self) -> Seq<char> {
        match *self {
            DecodeError::Bcd { field, source } => Seq::<char>::empty() + field.name_text(),
            DecodeError::TimezoneOutOfRange { tz_hour } => Seq::<char>::empty()
                + "timezone hour "@
                + decimal(tz_hour as nat)
                + " is out of range"@,
            DecodeError::DateNotValid { year, month, day } => Seq::<char>::empty()
                + "the date "@
                + decimal(year as nat)
                + "-"@
                + decimal(month as nat)
                + "-"@
                + decimal(day as nat)
                + " is not a valid date"@,
            DecodeError::PartialDate => Seq::<char>::empty()
                + "year/month/day date fields must be fully present or fully absent"@,
            DecodeError::PartialTime => Seq::<char>::empty()
                + "hour/minute/second time fields must be fully present or fully absent"@,
            DecodeError::FrameWithoutTime => Seq::<char>::empty()
                + "frame number cannot be given if the rest of the time is missing"@,
            DecodeError::TimeMissing => Seq::<char>::empty()
                + "required timecode value is missing"@,
            DecodeError::FrameMissing => Seq::<char>::empty() + "required frame number is missing"@,
            DecodeError::UnknownSampleRate { smp } => Seq::<char>::empty()
                + "smp value of "@
                + decimal(smp as nat)
                + " does not correspond to a known audio sample rate"@,
            DecodeError::UnknownChannelCount { chn } => Seq::<char>::empty()
                + "chn value of "@
                + decimal(chn as nat)
                + " does not correspond to a known number of channels per audio block"@,
            DecodeError::CameraWithTvChannel => Seq::<char>::empty()
                + "TV channel must be absent for source code Camera"@,
            DecodeError::LineWithTvChannel => Seq::<char>::empty()
                + "invalid TV channel code specified for line-based source code"@,
        }
    }

    /// The message, without that of its cause.
    pub fn message(&self) -> (r: String)
        ensures
            r@ == self.text(),
    {
        let mut s = String::new();
        match *self {
            DecodeError::Bcd { field, source } => {
                push_text(&mut s, field.name());
            },
            DecodeError::TimezoneOutOfRange { tz_hour } => {
                push_text(&mut s, "timezone hour ");
                push_decimal(&mut s, tz_hour as u128);
                push_text(&mut s, " is out of range");
            },
            DecodeError::DateNotValid { year, month, day } => {
                push_text(&mut s, "the date ");
                push_decimal(&mut s, year as u128);
                push_text(&mut s, "-");
                push_decimal(&mut s, month as u128);
                push_text(&mut s, "-");
                push_decimal(&mut s, day as u128);
                push_text(&mut s, " is not a valid date");
            },
            DecodeError::PartialDate => {
                push_text(
                    &mut s,
                    "year/month/day date fields must be fully present or fully absent",
                );
            },
            DecodeError::PartialTime => {
                push_text(
                    &mut s,
                    "hour/minute/second time fields must be fully present or fully absent",
                );
            },
            DecodeError::FrameWithoutTime => {
                push_text(
                    &mut s,
                    "frame number cannot be given if the rest of the time is missing",
                );
            },
            DecodeError::TimeMissing => {
                push_text(&mut s, "required timecode value is missing");
            },
            DecodeError::FrameMissing => {
                push_text(&mut s, "required frame number is missing");
            },
            DecodeError::UnknownSampleRate { smp } => {
                push_text(&mut s, "smp value of ");
                push_decimal(&mut s, smp as u128);
                push_text(&mut s, " does not correspond to a known audio sample rate");
            },
            DecodeError::UnknownChannelCount { chn } => {
                push_text(&mut s, "chn value of ");
                push_decimal(&mut s, chn as u128);
                push_text(
                    &mut s,
                    " does not correspond to a known number of channels per audio block",
                );
            },
            DecodeError::CameraWithTvChannel => {
                push_text(&mut s, "TV channel must be absent for source code Camera");
            },
            DecodeError::LineWithTvChannel => {
                push_text(&mut s, "invalid TV channel code specified for line-based source code");
            },
        }
        s
    }

    /// The cause of the error, if it has one: the digit that is no digit.
    pub open spec fn cause(&self) -> Option<BcdError> {
        match *self {
            DecodeError::Bcd { field, source } => Some(source),
            _ => None,
        }
    }

    /// The cause of the error, if it has one.
    pub fn source(&self) -> (r: Option<BcdError>)
        ensures
            r == self.cause(),
    {
        match *self {
            DecodeError::Bcd { field, source } => Some(source),
            _ => None,
        }
    }
}

/// Why raw bytes did not become a validated pack.
#[derive(Debug, PartialEq, Eq, Clone)]
pub enum RawError {
    /// The bytes were read into a value, which then failed validation.
    PackValidation { source: Report },
    /// The bytes stand for no value.
    Malformed { source: DecodeError },
}

/// What a [`RawError`] says, without the storage of its report.
pub enum Failure {
    Invalid(Seq<FieldError>),
    Malformed(DecodeError),
}

/// What stands between an error and its cause in [`RawError::chain`].
pub open spec fn caused_by() -> Seq<char> {
    "\nCaused by:\n  -> "@
}

impl RawError {
    /// The text of the message, without that of its cause.
    pub open spec fn text(&self) -> Seq<char> {
        match self {
            RawError::PackValidation { source } => Seq::<char>::empty()
                + "Pack failed validation during deserialization of raw bytes"@,
            RawError::Malformed { source } => Seq::<char>::empty()
                + "Pack failed deserialization of raw bytes: "@ + source.text(),
        }
    }

    /// The text of the message and of its causes, each after
    /// [`caused_by`]: for a failed validation the lines of the report, for a
    /// digit that is no digit its message.
    pub open spec fn chain_text(&self) -> Seq<char> {
        match self {
            RawError::PackValidation { source } => self.text() + caused_by() + lines(source@),
            RawError::Malformed { source } => match source.cause() {
                Some(cause) => self.text() + caused_by() + cause.text(),
                None => self.text(),
            },
        }
    }

    /// The message, without that of its cause.
    pub fn message(&self) -> (r: String)
        ensures
            r@ == self.text(),
    {
        let mut s = String::new();
        match self {
            RawError::PackValidation { source } => {
                push_text(&mut s, "Pack failed validation during deserialization of raw bytes");
            },
            RawError::Malformed { source } => {
                push_text(&mut s, "Pack failed deserialization of raw bytes: ");
                let inner = source.message();
                push_text(&mut s, inner.as_str());
            },
        }
        s
    }

    /// The message with those of its causes: see [`RawError::chain_text`].
    pub fn chain(&self) -> (r: String)
        ensures
            r@ == self.chain_text(),
    {
        let mut s = self.message();
        match self {
            RawError::PackValidation { source } => {
                push_text(&mut s, "\nCaused by:\n  -> ");
                let inner = source.message();
                push_text(&mut s, inner.as_str());
            },
            RawError::Malformed { source } => match source.source() {
                Some(cause) => {
                    push_text(&mut s, "\nCaused by:\n  -> ");
                    let inner = cause.message();
                    push_text(&mut s, inner.as_str());
                },
                None => {},
            },
        }
        s
    }
}

impl View for RawError {
    type V = Failure;

    open spec fn view(&self) -> Failure {
        match self {
            RawError::PackValidation { source } => Failure::Invalid(source@),
            RawError::Malformed { source } => Failure::Malformed(*source),
        }
    }
}

} // verus!
