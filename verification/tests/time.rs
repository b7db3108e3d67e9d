use dv_toolbox_core::file::Info;
use dv_toolbox_core::file::Ratio;
use dv_toolbox_core::pack::BinaryGroupFlag;
use dv_toolbox_core::pack::BlankFlag;
use dv_toolbox_core::pack::ColorFrame;
use dv_toolbox_core::pack::Pack;
use dv_toolbox_core::pack::PackContext;
use dv_toolbox_core::pack::PackData;
use dv_toolbox_core::pack::PolarityCorrection;
use dv_toolbox_core::pack::RecordingTime;
use dv_toolbox_core::pack::TimeValue;
use dv_toolbox_core::pack::TimeValueWithOptionalFrame;
use dv_toolbox_core::pack::TimeValueWithRequiredFrame;
use dv_toolbox_core::pack::Timecode;
use dv_toolbox_core::pack::TitleTimecode;
use dv_toolbox_core::pack::Type;
use dv_toolbox_core::pack::Unparsed;
use dv_toolbox_core::pack::ValidPack;

fn ntsc() -> PackContext {
    PackContext {
        file_info: Info {
            file_size: 120_000,
            video_frame_rate: Ratio { numer: 30_000, denom: 1_001 },
            video_duration: Ratio { numer: 1_001, denom: 30_000 },
            audio_stereo_stream_count: 1,
            audio_sample_rate: Some(48_000),
        }
        .validate()
        .unwrap(),
    }
}

fn pal() -> PackContext {
    PackContext {
        file_info: Info {
            file_size: 144_000,
            video_frame_rate: Ratio { numer: 25, denom: 1 },
            video_duration: Ratio { numer: 1, denom: 25 },
            audio_stereo_stream_count: 1,
            audio_sample_rate: Some(48_000),
        }
        .validate()
        .unwrap(),
    }
}

fn from_hex(text: &str) -> [u8; 5] {
    let bytes: Vec<u8> =
        text.split_whitespace().map(|b| u8::from_str_radix(b, 16).unwrap()).collect();
    [bytes[0], bytes[1], bytes[2], bytes[3], bytes[4]]
}

fn validated<T: PackData>(value: T, ctx: PackContext) -> ValidPack<T> {
    ValidPack::validate(value, &ctx).unwrap()
}

/// Round trip of a pack: read it from binary, compare what was read, and
/// write it back to binary.
fn run_pack_binary_test_case(
    name: &str,
    input: &str,
    parsed: Option<Pack>,
    err: Option<&str>,
    output: Option<&str>,
    ctx: PackContext,
) {
    let input = from_hex(input);
    let (deserialized, error) = Pack::from_raw(&input, &ctx);
    assert_eq!(error.map(|e| e.chain()), err.map(String::from), "error of case {}", name);
    let expected = match parsed {
        None => Pack::Invalid(
            Type::from(input[0]),
            validated(Unparsed { data: [input[1], input[2], input[3], input[4]] }, ntsc()),
        ),
        Some(p) => p,
    };
    assert_eq!(deserialized, expected, "pack of case {}", name);
    let serialized = deserialized.to_raw(&ctx);
    let expected_output = output.map_or(input, from_hex);
    assert_eq!(serialized, expected_output, "bytes of case {}", name);
}

/// Validation of a value that breaks a rule: the report names it.
fn run_validate_failure_test_case<T: PackData>(name: &str, value: T, err: &str, ctx: PackContext) {
    let result = value.validate_with(&ctx);
    assert_eq!(result.map_err(|e| e.message()), Err(String::from(err)), "case {}", name);
}

const ZERO_TIMECODE: TitleTimecode = TitleTimecode {
    timecode: Timecode::<TimeValueWithRequiredFrame> {
        time: TimeValueWithRequiredFrame {
            hour: 0,
            minute: 0,
            second: 0,
            drop_frame: false,
            frame: 0,
        },
        color_frame: ColorFrame::Unsynchronized,
        polarity_correction: PolarityCorrection::Even,
        binary_group_flag: BinaryGroupFlag::TimeUnspecifiedGroupUnspecified,
    },
    blank_flag: BlankFlag::Discontinuous,
};

fn zero_tc<F>(f: F, ctx: PackContext) -> Option<Pack>
where
    F: FnOnce(&mut TitleTimecode),
{
    let mut tc = ZERO_TIMECODE;
    f(&mut tc);
    Some(Pack::TitleTimecode(validated(tc, ctx)))
}

#[test]
fn test_title_timecode_binary() {
    run_pack_binary_test_case(
        "success_ntsc_basic",
        "13 D5 B4 D7 D3",
        Some(Pack::TitleTimecode(validated(
            TitleTimecode {
                timecode: Timecode::<TimeValueWithRequiredFrame> {
                    time: TimeValueWithRequiredFrame {
                        hour: 13,
                        minute: 57,
                        second: 34,
                        drop_frame: true,
                        frame: 15,
                    },
                    color_frame: ColorFrame::Synchronized,
                    polarity_correction: PolarityCorrection::Odd,
                    binary_group_flag: BinaryGroupFlag::TimeClockGroupPageLine,
                },
                blank_flag: BlankFlag::Continuous,
            },
            ntsc()
        ))),
        None,
        None,
        ntsc(),
    );
    run_pack_binary_test_case(
        "success_ntsc_do_not_drop",
        "13 41 00 10 00",
        Some(Pack::TitleTimecode(validated(
            TitleTimecode {
                timecode: Timecode::<TimeValueWithRequiredFrame> {
                    time: TimeValueWithRequiredFrame {
                        hour: 0,
                        minute: 10,
                        second: 0,
                        drop_frame: true,
                        frame: 1,
                    },
                    color_frame: ColorFrame::Unsynchronized,
                    polarity_correction: PolarityCorrection::Even,
                    binary_group_flag: BinaryGroupFlag::TimeUnspecifiedGroupUnspecified,
                },
                blank_flag: BlankFlag::Discontinuous,
            },
            ntsc()
        ))),
        None,
        None,
        ntsc(),
    );
    run_pack_binary_test_case(
        "success_pal_do_not_drop",
        "13 01 00 09 00",
        Some(Pack::TitleTimecode(validated(
            TitleTimecode {
                timecode: Timecode::<TimeValueWithRequiredFrame> {
                    time: TimeValueWithRequiredFrame {
                        hour: 0,
                        minute: 9,
                        second: 0,
                        drop_frame: false,
                        frame: 1,
                    },
                    color_frame: ColorFrame::Unsynchronized,
                    polarity_correction: PolarityCorrection::Even,
                    binary_group_flag: BinaryGroupFlag::TimeUnspecifiedGroupUnspecified,
                },
                blank_flag: BlankFlag::Discontinuous,
            },
            pal()
        ))),
        None,
        None,
        pal(),
    );
    run_pack_binary_test_case(
        "max_bounds_ntsc",
        "13 29 D9 D9 E3",
        Some(Pack::TitleTimecode(validated(
            TitleTimecode {
                timecode: Timecode::<TimeValueWithRequiredFrame> {
                    time: TimeValueWithRequiredFrame {
                        hour: 23,
                        minute: 59,
                        second: 59,
                        drop_frame: false,
                        frame: 29,
                    },
                    color_frame: ColorFrame::Unsynchronized,
                    polarity_correction: PolarityCorrection::Odd,
                    binary_group_flag: BinaryGroupFlag::TimeClockGroupPageLine,
                },
                blank_flag: BlankFlag::Discontinuous,
            },
            ntsc()
        ))),
        None,
        None,
        ntsc(),
    );
    run_pack_binary_test_case(
        "max_bounds_pal",
        "13 A4 D9 D9 E3",
        Some(Pack::TitleTimecode(validated(
            TitleTimecode {
                timecode: Timecode::<TimeValueWithRequiredFrame> {
                    time: TimeValueWithRequiredFrame {
                        hour: 23,
                        minute: 59,
                        second: 59,
                        drop_frame: false,
                        frame: 24,
                    },
                    color_frame: ColorFrame::Synchronized,
                    polarity_correction: PolarityCorrection::Odd,
                    binary_group_flag: BinaryGroupFlag::TimeClockGroupPageLine,
                },
                blank_flag: BlankFlag::Continuous,
            },
            pal()
        ))),
        None,
        None,
        pal(),
    );
    run_pack_binary_test_case(
        "high_frame_tens",
        "13 30 59 59 23",
        None,
        Some(
            "Pack failed validation during deserialization of raw bytes\n\
            Caused by:\n  \
            -> timecode.time.frame: frame number 30 is greater than 29, which is the maximum \
               valid frame number for system 525-60\n"
        ),
        None,
        ntsc(),
    );
    run_pack_binary_test_case(
        "high_frame_units",
        "13 1A 59 59 23",
        None,
        Some(
            "Pack failed deserialization of raw bytes: couldn't read the time's frame number\n\
            Caused by:\n  \
            -> units place value of 10 is greater than 9"
        ),
        None,
        ntsc(),
    );
    run_pack_binary_test_case(
        "high_frame_pal",
        "13 25 59 59 23",
        None,
        Some(
            "Pack failed validation during deserialization of raw bytes\n\
            Caused by:\n  \
            -> timecode.time.frame: frame number 25 is greater than 24, which is the maximum \
               valid frame number for system 625-50\n"
        ),
        None,
        pal(),
    );
    run_pack_binary_test_case(
        "high_second_tens",
        "13 29 60 59 23",
        None,
        Some(
            "Pack failed validation during deserialization of raw bytes\n\
            Caused by:\n  \
            -> timecode.time.second: greater than 59\n"
        ),
        None,
        ntsc(),
    );
    run_pack_binary_test_case(
        "high_second_units",
        "13 29 4A 59 23",
        None,
        Some(
            "Pack failed deserialization of raw bytes: couldn't read the time's second\n\
            Caused by:\n  \
            -> units place value of 10 is greater than 9"
        ),
        None,
        ntsc(),
    );
    run_pack_binary_test_case(
        "high_minute_tens",
        "13 29 59 60 23",
        None,
        Some(
            "Pack failed validation during deserialization of raw bytes\n\
            Caused by:\n  \
            -> timecode.time.minute: greater than 59\n"
        ),
        None,
        ntsc(),
    );
    run_pack_binary_test_case(
        "high_minute_units",
        "13 29 59 4A 23",
        None,
        Some(
            "Pack failed deserialization of raw bytes: couldn't read the time's minute\n\
            Caused by:\n  \
            -> units place value of 10 is greater than 9"
        ),
        None,
        ntsc(),
    );
    run_pack_binary_test_case(
        "high_hour_tens",
        "13 29 59 59 30",
        None,
        Some(
            "Pack failed validation during deserialization of raw bytes\n\
            Caused by:\n  \
            -> timecode.time.hour: greater than 23\n"
        ),
        None,
        ntsc(),
    );
    run_pack_binary_test_case(
        "high_hour_units",
        "13 29 59 59 1A",
        None,
        Some(
            "Pack failed deserialization of raw bytes: couldn't read the time's hour\n\
            Caused by:\n  \
            -> units place value of 10 is greater than 9"
        ),
        None,
        ntsc(),
    );
    run_pack_binary_test_case(
        "dropped_frame_number_0_provided",
        "13 40 00 01 00",
        None,
        Some(
            "Pack failed validation during deserialization of raw bytes\n\
            Caused by:\n  \
            -> timecode.time.frame: the drop frame flag was set, but a dropped frame number 0 \
            was provided\n"
        ),
        None,
        ntsc(),
    );
    run_pack_binary_test_case(
        "dropped_frame_number_1_provided",
        "13 41 00 01 00",
        None,
        Some(
            "Pack failed validation during deserialization of raw bytes\n\
            Caused by:\n  \
            -> timecode.time.frame: the drop frame flag was set, but a dropped frame number 1 \
            was provided\n"
        ),
        None,
        ntsc(),
    );
    run_pack_binary_test_case(
        "no_dropout",
        "13 00 00 00 00",
        Some(Pack::TitleTimecode(validated(ZERO_TIMECODE, ntsc()))),
        None,
        None,
        ntsc(),
    );
    run_pack_binary_test_case(
        "obvious_dropout_1",
        "13 00 00 00 FF",
        None,
        Some(
            "Pack failed deserialization of raw bytes: hour/minute/second time fields must be \
            fully present or fully absent"
        ),
        None,
        ntsc(),
    );
    run_pack_binary_test_case(
        "obvious_dropout_2",
        "13 00 00 FF FF",
        None,
        Some(
            "Pack failed deserialization of raw bytes: hour/minute/second time fields must be \
            fully present or fully absent"
        ),
        None,
        ntsc(),
    );
    run_pack_binary_test_case(
        "obvious_dropout_3",
        "13 00 FF FF FF",
        None,
        Some(
            "Pack failed deserialization of raw bytes: frame number cannot be given if \
            the rest of the time is missing"
        ),
        None,
        ntsc(),
    );
    run_pack_binary_test_case(
        "obvious_dropout_4",
        "13 FF FF FF FF",
        None,
        Some("Pack failed deserialization of raw bytes: required timecode value is missing"),
        None,
        ntsc(),
    );
    run_pack_binary_test_case(
        "missing_frame_number",
        "13 FF 00 00 00",
        None,
        Some("Pack failed deserialization of raw bytes: required frame number is missing"),
        None,
        ntsc(),
    );
    run_pack_binary_test_case(
        "cf_ntsc",
        "13 80 00 00 00",
        zero_tc(
            |t| {
                t.timecode.color_frame = ColorFrame::Synchronized;
                t.blank_flag = BlankFlag::Continuous;
            },
            ntsc()
        ),
        None,
        None,
        ntsc(),
    );
    run_pack_binary_test_case(
        "cf_pal",
        "13 80 00 00 00",
        zero_tc(
            |t| {
                t.timecode.color_frame = ColorFrame::Synchronized;
                t.blank_flag = BlankFlag::Continuous;
            },
            pal()
        ),
        None,
        None,
        pal(),
    );
    run_pack_binary_test_case(
        "df_ntsc",
        "13 40 00 00 00",
        zero_tc(|t| t.timecode.time.drop_frame = true, ntsc()),
        None,
        None,
        ntsc(),
    );
    run_pack_binary_test_case(
        "df_pal",
        "13 40 00 00 00",
        zero_tc(|t| t.timecode.time.drop_frame = true, pal()),
        None,
        None,
        pal(),
    );
    run_pack_binary_test_case(
        "pc_ntsc",
        "13 00 80 00 00",
        zero_tc(|t| t.timecode.polarity_correction = PolarityCorrection::Odd, ntsc()),
        None,
        None,
        ntsc(),
    );
    run_pack_binary_test_case(
        "pc_pal",
        "13 00 00 00 80",
        zero_tc(|t| t.timecode.polarity_correction = PolarityCorrection::Odd, pal()),
        None,
        None,
        pal(),
    );
    run_pack_binary_test_case(
        "bgf0_ntsc",
        "13 00 00 80 00",
        zero_tc(
            |t| t.timecode.binary_group_flag = BinaryGroupFlag::TimeUnspecifiedGroup8BitCodes,
            ntsc()
        ),
        None,
        None,
        ntsc(),
    );
    run_pack_binary_test_case(
        "bgf0_pal",
        "13 00 80 00 00",
        zero_tc(
            |t| t.timecode.binary_group_flag = BinaryGroupFlag::TimeUnspecifiedGroup8BitCodes,
            pal()
        ),
        None,
        None,
        pal(),
    );
    run_pack_binary_test_case(
        "bgf1_ntsc",
        "13 00 00 00 40",
        zero_tc(
            |t| t.timecode.binary_group_flag = BinaryGroupFlag::TimeClockGroupUnspecified,
            ntsc()
        ),
        None,
        None,
        ntsc(),
    );
    run_pack_binary_test_case(
        "bgf1_pal",
        "13 00 00 00 40",
        zero_tc(
            |t| t.timecode.binary_group_flag = BinaryGroupFlag::TimeClockGroupUnspecified,
            pal()
        ),
        None,
        None,
        pal(),
    );
    run_pack_binary_test_case(
        "bgf2_ntsc",
        "13 00 00 00 80",
        zero_tc(
            |t| t.timecode.binary_group_flag = BinaryGroupFlag::TimeUnspecifiedGroupDateTimeZone,
            ntsc()
        ),
        None,
        None,
        ntsc(),
    );
    run_pack_binary_test_case(
        "bgf2_pal",
        "13 00 00 80 00",
        zero_tc(
            |t| t.timecode.binary_group_flag = BinaryGroupFlag::TimeUnspecifiedGroupDateTimeZone,
            pal()
        ),
        None,
        None,
        pal(),
    );
}

#[test]
fn test_aaux_recording_time_binary() {
    run_pack_binary_test_case(
        "success_ntsc_basic",
        "53 D5 B4 D7 D3",
        Some(Pack::AAUXRecordingTime(validated(
            RecordingTime {
                time: Some(TimeValueWithOptionalFrame {
                    hour: 13,
                    minute: 57,
                    second: 34,
                    drop_frame: true,
                    frame: Some(15),
                }),
                color_frame: ColorFrame::Synchronized,
                polarity_correction: PolarityCorrection::Odd,
                binary_group_flag: BinaryGroupFlag::TimeClockGroupPageLine,
            },
            ntsc()
        ))),
        None,
        None,
        ntsc(),
    );
    run_pack_binary_test_case(
        "success_ntsc_no_frames",
        "53 FF B4 D7 D3",
        Some(Pack::AAUXRecordingTime(validated(
            RecordingTime {
                time: Some(TimeValueWithOptionalFrame {
                    hour: 13,
                    minute: 57,
                    second: 34,
                    drop_frame: true,
                    frame: None,
                }),
                color_frame: ColorFrame::Synchronized,
                polarity_correction: PolarityCorrection::Odd,
                binary_group_flag: BinaryGroupFlag::TimeClockGroupPageLine,
            },
            ntsc()
        ))),
        None,
        None,
        ntsc(),
    );
    run_pack_binary_test_case(
        "success_no_time",
        "53 FF FF FF FF",
        Some(Pack::AAUXRecordingTime(validated(
            RecordingTime {
                time: None,
                color_frame: ColorFrame::Synchronized,
                polarity_correction: PolarityCorrection::Odd,
                binary_group_flag: BinaryGroupFlag::TimeClockGroupPageLine,
            },
            ntsc()
        ))),
        None,
        None,
        ntsc(),
    );
}

#[test]
fn test_vaux_recording_time_binary() {
    run_pack_binary_test_case(
        "success_ntsc_basic",
        "63 D5 B4 D7 D3",
        Some(Pack::VAUXRecordingTime(validated(
            RecordingTime {
                time: Some(TimeValueWithOptionalFrame {
                    hour: 13,
                    minute: 57,
                    second: 34,
                    drop_frame: true,
                    frame: Some(15),
                }),
                color_frame: ColorFrame::Synchronized,
                polarity_correction: PolarityCorrection::Odd,
                binary_group_flag: BinaryGroupFlag::TimeClockGroupPageLine,
            },
            ntsc()
        ))),
        None,
        None,
        ntsc(),
    );
    run_pack_binary_test_case(
        "success_ntsc_no_frames",
        "63 FF B4 D7 D3",
        Some(Pack::VAUXRecordingTime(validated(
            RecordingTime {
                time: Some(TimeValueWithOptionalFrame {
                    hour: 13,
                    minute: 57,
                    second: 34,
                    drop_frame: true,
                    frame: None,
                }),
                color_frame: ColorFrame::Synchronized,
                polarity_correction: PolarityCorrection::Odd,
                binary_group_flag: BinaryGroupFlag::TimeClockGroupPageLine,
            },
            ntsc()
        ))),
        None,
        None,
        ntsc(),
    );
    run_pack_binary_test_case(
        "success_no_time",
        "63 FF FF FF FF",
        Some(Pack::VAUXRecordingTime(validated(
            RecordingTime {
                time: None,
                color_frame: ColorFrame::Synchronized,
                polarity_correction: PolarityCorrection::Odd,
                binary_group_flag: BinaryGroupFlag::TimeClockGroupPageLine,
            },
            ntsc()
        ))),
        None,
        None,
        ntsc(),
    );
}

#[test]
fn test_title_timecode_validation() {
    run_validate_failure_test_case(
        "blank_flag_mismatch",
        {
            let mut v = ZERO_TIMECODE;
            v.blank_flag = BlankFlag::Continuous;
            v
        },
        "blank_flag: Blank flag integer value of 1 must be equal to the color frame flag \
        integer value of 0 because they occupy the same physical bit positions on the tape.  \
        Change one value to match the other.\n",
        ntsc(),
    );
    run_validate_failure_test_case(
        "color_frame_mismatch",
        {
            let mut v = ZERO_TIMECODE;
            v.timecode.color_frame = ColorFrame::Synchronized;
            v
        },
        "blank_flag: Blank flag integer value of 0 must be equal to the color frame flag \
        integer value of 1 because they occupy the same physical bit positions on the tape.  \
        Change one value to match the other.\n",
        ntsc(),
    );
}

#[test]
fn dropped_frame_numbers() {
    let time = |minute: u8, second: u8, frame: u8, drop_frame: bool| TitleTimecode {
        timecode: Timecode {
            time: TimeValue { hour: 0, minute, second, drop_frame, frame },
            ..ZERO_TIMECODE.timecode
        },
        ..ZERO_TIMECODE
    };
    let dropped = |frame: u8| {
        Err(format!(
            "timecode.time.frame: the drop frame flag was set, but a dropped frame number {} was \
             provided\n",
            frame
        ))
    };
    let check = |value: TitleTimecode, ctx: PackContext| {
        value.validate_with(&ctx).map_err(|e| e.message())
    };
    // 00:01:00 with drop frame: frames 0 and 1 are skipped, frame 2 is the first
    assert_eq!(check(time(1, 0, 0, true), ntsc()), dropped(0));
    assert_eq!(check(time(1, 0, 1, true), ntsc()), dropped(1));
    assert_eq!(check(time(1, 0, 2, true), ntsc()), Ok(()));
    // not without drop frame, not in minutes that are multiples of 10, not after second 0
    assert_eq!(check(time(1, 0, 0, false), ntsc()), Ok(()));
    assert_eq!(check(time(10, 0, 0, true), ntsc()), Ok(()));
    assert_eq!(check(time(0, 0, 1, true), ntsc()), Ok(()));
    assert_eq!(check(time(1, 1, 0, true), ntsc()), Ok(()));
    assert_eq!(check(time(59, 0, 1, true), ntsc()), dropped(1));
    // and not at 25 frames per second
    assert_eq!(check(time(1, 0, 0, true), pal()), Ok(()));
}
