use dv_toolbox_core::file::Ratio;
use dv_toolbox_core::file::System;
use dv_toolbox_core::pack::BcdField;
use dv_toolbox_core::pack::Date;
use dv_toolbox_core::pack::DecodeError;
use dv_toolbox_core::pack::RawError;
use dv_toolbox_core::pack::Weekday;
use dv_toolbox_core::pack::util::BcdError;
use dv_toolbox_core::pack::util::BcdPlace;
use dv_toolbox_core::report::Field;
use dv_toolbox_core::report::FieldError;
use dv_toolbox_core::report::FieldPath;
use dv_toolbox_core::report::Report;
use dv_toolbox_core::report::Violation;
use dv_toolbox_core::text::push_decimal;
use dv_toolbox_core::text::push_fraction;
use dv_toolbox_core::text::push_hexadecimal;
use dv_toolbox_core::text::push_signed_decimal;
use dv_toolbox_core::text::push_tenths;

fn text_of(f: impl Fn(&mut String)) -> String {
    let mut s = String::from(">");
    f(&mut s);
    s
}

#[test]
fn numbers_as_text() {
    assert_eq!(text_of(|s| push_decimal(s, 0)), ">0");
    assert_eq!(text_of(|s| push_decimal(s, 9)), ">9");
    assert_eq!(text_of(|s| push_decimal(s, 10)), ">10");
    assert_eq!(text_of(|s| push_decimal(s, 1_234_567_890)), ">1234567890");
    assert_eq!(
        text_of(|s| push_decimal(s, u128::MAX)),
        ">340282366920938463463374607431768211455"
    );
    assert_eq!(text_of(|s| push_signed_decimal(s, -3600)), ">-3600");
    assert_eq!(text_of(|s| push_signed_decimal(s, 900)), ">900");
    assert_eq!(text_of(|s| push_signed_decimal(s, i64::MIN)), ">-9223372036854775808");
    assert_eq!(text_of(|s| push_hexadecimal(s, 0x7F)), ">7F");
    assert_eq!(text_of(|s| push_hexadecimal(s, 0xF)), ">F");
    assert_eq!(text_of(|s| push_hexadecimal(s, 0xABC)), ">ABC");
    assert_eq!(text_of(|s| push_fraction(s, 99, 100)), ">99/100");
    assert_eq!(text_of(|s| push_fraction(s, 5005, 30_000)), ">1001/6000");
    assert_eq!(text_of(|s| push_fraction(s, 50, 2)), ">25");
    assert_eq!(text_of(|s| push_fraction(s, 0, 7)), ">0");
    assert_eq!(text_of(|s| push_fraction(s, 0, 0)), ">0/0");
    assert_eq!(text_of(|s| push_tenths(s, 502)), ">50.2");
    assert_eq!(text_of(|s| push_tenths(s, 0)), ">0.0");
    assert_eq!(text_of(|s| push_tenths(s, 9999)), ">999.9");
}

#[test]
fn messages_of_violations() {
    let cases = [
        (Violation::LowerThan { min: 1 }, "lower than 1"),
        (Violation::GreaterThan { max: 999 }, "greater than 999"),
        (
            Violation::SentinelValue { sentinel: 0xF },
            "instead of specifying Some(0xF), use None to indicate no information",
        ),
        (
            Violation::FieldCountMismatch { field_count: 50, expected: 60, system: System::Sys525_60 },
            "field count of 50 does not match the expected value of 60 for system 525-60",
        ),
        (
            Violation::DateNotValid { date: Date { year: 2023, month: 2, day: 30 } },
            "the date 2023-2-30 is not a valid date",
        ),
        (
            Violation::WeekdayMismatch {
                weekday: Weekday::Sun,
                date: Date { year: 1997, month: 8, day: 27 },
                actual: Weekday::Wed,
            },
            "the weekday field value of Sun does not match the date weekday of 1997-08-27 which \
             is Wed",
        ),
        (
            Violation::TimezoneTooLarge { offset: 90_000 },
            "the time zone offset of 90000 seconds must be less than 24 hours",
        ),
        (
            Violation::FrameNumberTooLarge { frame: 25, max: 24, system: System::Sys625_50 },
            "frame number 25 is greater than 24, which is the maximum valid frame number for \
             system 625-50",
        ),
        (
            Violation::PlaybackSpeedUnsupported { speed: Ratio { numer: 6, denom: 8 } },
            "playback speed 3/4 not supported: only playback speeds returned by the \
             valid_playback_speeds function are supported",
        ),
        (
            Violation::FrameCountNotInteger {
                count: Ratio { numer: 30_000 * 5006, denom: 1001 * 30_000 },
                rate: Ratio { numer: 30_000, denom: 1001 },
                duration: Ratio { numer: 5006, denom: 30_000 },
            },
            "Total video frame count 5006/1001 is not an integer; it resulted from multiplying \
             video frame rate 30000/1001 by video duration 2503/15000",
        ),
        (Violation::FrameSizeUnsupported { frame_size: 120_001 }, "Unsupported frame size 120001"),
    ];
    for (violation, expected) in cases {
        assert_eq!(violation.message(), expected);
    }
}

#[test]
fn reports_as_text() {
    let report = Report {
        errors: vec![
            FieldError {
                path: FieldPath { outer: None, inner: None, leaf: Field::BlankFlag },
                violation: Violation::BlankFlagMismatch { blank_flag: 1, color_frame: 0 },
            },
            FieldError {
                path: FieldPath {
                    outer: Some(Field::Timecode),
                    inner: Some(Field::Time),
                    leaf: Field::Hour,
                },
                violation: Violation::GreaterThan { max: 23 },
            },
            FieldError {
                path: FieldPath { outer: None, inner: Some(Field::Time), leaf: Field::Frame },
                violation: Violation::DroppedFrameNumber { frame: 1 },
            },
        ],
    };
    assert_eq!(
        report.message(),
        "blank_flag: Blank flag integer value of 1 must be equal to the color frame flag integer \
         value of 0 because they occupy the same physical bit positions on the tape.  Change one \
         value to match the other.\n\
         timecode.time.hour: greater than 23\n\
         time.frame: the drop frame flag was set, but a dropped frame number 1 was provided\n"
    );
    assert_eq!(Report::new().message(), "");
    assert!(Report::new().is_empty());
    assert_eq!(Report::new().into_result(), Ok(()));
    let path = FieldPath::at_root(Field::Frame).nested_in(Field::Time).nested_in(Field::Timecode);
    assert_eq!(
        path,
        FieldPath { outer: Some(Field::Timecode), inner: Some(Field::Time), leaf: Field::Frame }
    );
    let mut outer = Report::new();
    outer.record(Field::AudioMode, Err(Violation::GreaterThan { max: 15 }));
    outer.record(Field::Reserved, Ok(()));
    outer.record_nested(Field::Timecode, &report);
    assert_eq!(outer.errors.len(), 4);
    assert_eq!(outer.errors[3].path.outer, Some(Field::Timecode));
    assert_eq!(outer.errors[1].path.inner, Some(Field::Timecode));
    assert_eq!(outer.clone().into_result(), Err(outer));
}

#[test]
fn messages_of_errors() {
    let digit = BcdError { place: BcdPlace::Units, value: 10 };
    assert_eq!(digit.message(), "units place value of 10 is greater than 9");
    let cases = [
        (
            DecodeError::Bcd { field: BcdField::TimeFrame, source: digit },
            "couldn't read the time's frame number",
            Some(digit),
        ),
        (DecodeError::TimezoneOutOfRange { tz_hour: 30 }, "timezone hour 30 is out of range", None),
        (
            DecodeError::DateNotValid { year: 2074, month: 12, day: 39 },
            "the date 2074-12-39 is not a valid date",
            None,
        ),
        (
            DecodeError::PartialDate,
            "year/month/day date fields must be fully present or fully absent",
            None,
        ),
        (
            DecodeError::PartialTime,
            "hour/minute/second time fields must be fully present or fully absent",
            None,
        ),
        (
            DecodeError::FrameWithoutTime,
            "frame number cannot be given if the rest of the time is missing",
            None,
        ),
        (DecodeError::TimeMissing, "required timecode value is missing", None),
        (DecodeError::FrameMissing, "required frame number is missing", None),
        (
            DecodeError::UnknownSampleRate { smp: 3 },
            "smp value of 3 does not correspond to a known audio sample rate",
            None,
        ),
        (
            DecodeError::UnknownChannelCount { chn: 2 },
            "chn value of 2 does not correspond to a known number of channels per audio block",
            None,
        ),
        (
            DecodeError::CameraWithTvChannel,
            "TV channel must be absent for source code Camera",
            None,
        ),
        (
            DecodeError::LineWithTvChannel,
            "invalid TV channel code specified for line-based source code",
            None,
        ),
    ];
    for (error, expected, cause) in cases {
        assert_eq!(error.message(), expected);
        assert_eq!(error.source(), cause);
        let raw = RawError::Malformed { source: error };
        assert_eq!(
            raw.message(),
            format!("Pack failed deserialization of raw bytes: {}", expected)
        );
        match cause {
            None => assert_eq!(raw.chain(), raw.message()),
            Some(c) => assert_eq!(
                raw.chain(),
                format!("{}\nCaused by:\n  -> {}", raw.message(), c.message())
            ),
        }
    }
    let mut report = Report::new();
    report.record(Field::Weekday, Err(Violation::WeekdayWithoutDate));
    let raw = RawError::PackValidation { source: report };
    assert_eq!(raw.message(), "Pack failed validation during deserialization of raw bytes");
    assert_eq!(
        raw.chain(),
        "Pack failed validation during deserialization of raw bytes\nCaused by:\n  -> weekday: a \
         weekday must not be provided if the date is otherwise absent.\n"
    );
}
