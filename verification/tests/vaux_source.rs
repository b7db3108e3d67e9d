use dv_toolbox_core::file::Info;
use dv_toolbox_core::file::Ratio;
use dv_toolbox_core::pack::BlackAndWhiteFlag;
use dv_toolbox_core::pack::ColorFramesID;
use dv_toolbox_core::pack::Pack;
use dv_toolbox_core::pack::PackContext;
use dv_toolbox_core::pack::PackData;
use dv_toolbox_core::pack::SourceCode;
use dv_toolbox_core::pack::SourceType;
use dv_toolbox_core::pack::Type;
use dv_toolbox_core::pack::Unparsed;
use dv_toolbox_core::pack::VAUXSource;
use dv_toolbox_core::pack::ValidPack;

fn ntsc() -> PackContext {
    PackContext {
        file_info: Info {
            file_size: 120_000,
            video_frame_rate: Ratio { numer: 30_000, denom: 1_001 },
            video_duration: Ratio { numer: 1_001, denom: 30_000 },
            audio_stereo_stream_count: 1,
            audio_sample_rate: Some(48_000),
        }
        .validate()
        .unwrap(),
    }
}

fn pal() -> PackContext {
    PackContext {
        file_info: Info {
            file_size: 144_000,
            video_frame_rate: Ratio { numer: 25, denom: 1 },
            video_duration: Ratio { numer: 1, denom: 25 },
            audio_stereo_stream_count: 1,
            audio_sample_rate: Some(48_000),
        }
        .validate()
        .unwrap(),
    }
}

fn from_hex(text: &str) -> [u8; 5] {
    let bytes: Vec<u8> =
        text.split_whitespace().map(|b| u8::from_str_radix(b, 16).unwrap()).collect();
    [bytes[0], bytes[1], bytes[2], bytes[3], bytes[4]]
}

fn validated<T: PackData>(value: T, ctx: PackContext) -> ValidPack<T> {
    ValidPack::validate(value, &ctx).unwrap()
}

/// Round trip of a pack: read it from binary, compare what was read, and
/// write it back to binary.
fn run_pack_binary_test_case(
    name: &str,
    input: &str,
    parsed: Option<Pack>,
    err: Option<&str>,
    output: Option<&str>,
    ctx: PackContext,
) {
    let input = from_hex(input);
    let (deserialized, error) = Pack::from_raw(&input, &ctx);
    assert_eq!(error.map(|e| e.chain()), err.map(String::from), "error of case {}", name);
    let expected = match parsed {
        None => Pack::Invalid(
            Type::from(input[0]),
            validated(Unparsed { data: [input[1], input[2], input[3], input[4]] }, ntsc()),
        ),
        Some(p) => p,
    };
    assert_eq!(deserialized, expected, "pack of case {}", name);
    let serialized = deserialized.to_raw(&ctx);
    let expected_output = output.map_or(input, from_hex);
    assert_eq!(serialized, expected_output, "bytes of case {}", name);
}

/// Validation of a value that breaks a rule: the report names it.
fn run_validate_failure_test_case<T: PackData>(name: &str, value: T, err: &str, ctx: PackContext) {
    let result = value.validate_with(&ctx);
    assert_eq!(result.map_err(|e| e.message()), Err(String::from(err)), "case {}", name);
}

#[test]
fn test_vaux_source_binary() {
    run_pack_binary_test_case(
        "basic_success",
        "60 FF FF 00 FF",
        Some(Pack::VAUXSource(validated(
            VAUXSource {
                source_code: Some(SourceCode::Camera),
                tv_channel: None,
                tuner_category: None,
                source_type: SourceType::StandardDefinitionCompressedChroma,
                field_count: 60,
                bw_flag: BlackAndWhiteFlag::Color,
                color_frames_id: None,
            },
            ntsc()
        ))),
        None,
        None,
        ntsc(),
    );
    run_pack_binary_test_case(
        "dvcpro50",
        "60 FF FF 04 FF",
        Some(Pack::VAUXSource(validated(
            VAUXSource {
                source_code: Some(SourceCode::Camera),
                tv_channel: None,
                tuner_category: None,
                source_type: SourceType::StandardDefinitionMoreChroma,
                field_count: 60,
                bw_flag: BlackAndWhiteFlag::Color,
                color_frames_id: None,
            },
            ntsc()
        ))),
        None,
        None,
        ntsc(),
    );
    run_pack_binary_test_case(
        "source_code_camera",
        "60 FF FF 00 FF",
        Some(Pack::VAUXSource(validated(
            VAUXSource {
                source_code: Some(SourceCode::Camera),
                tv_channel: None,
                tuner_category: None,
                source_type: SourceType::StandardDefinitionCompressedChroma,
                field_count: 60,
                bw_flag: BlackAndWhiteFlag::Color,
                color_frames_id: None,
            },
            ntsc()
        ))),
        None,
        None,
        ntsc(),
    );
    run_pack_binary_test_case(
        "source_code_line_muse",
        "60 EE FE 40 FF",
        Some(Pack::VAUXSource(validated(
            VAUXSource {
                source_code: Some(SourceCode::LineMUSE),
                tv_channel: None,
                tuner_category: None,
                source_type: SourceType::StandardDefinitionCompressedChroma,
                field_count: 60,
                bw_flag: BlackAndWhiteFlag::Color,
                color_frames_id: None,
            },
            ntsc()
        ))),
        None,
        None,
        ntsc(),
    );
    run_pack_binary_test_case(
        "source_code_line",
        "60 FF FF 40 FF",
        Some(Pack::VAUXSource(validated(
            VAUXSource {
                source_code: Some(SourceCode::Line),
                tv_channel: None,
                tuner_category: None,
                source_type: SourceType::StandardDefinitionCompressedChroma,
                field_count: 60,
                bw_flag: BlackAndWhiteFlag::Color,
                color_frames_id: None,
            },
            ntsc()
        ))),
        None,
        None,
        ntsc(),
    );
    run_pack_binary_test_case(
        "source_code_cable",
        "60 36 F4 80 FF",
        Some(Pack::VAUXSource(validated(
            VAUXSource {
                source_code: Some(SourceCode::Cable),
                tv_channel: Some(436),
                tuner_category: None,
                source_type: SourceType::StandardDefinitionCompressedChroma,
                field_count: 60,
                bw_flag: BlackAndWhiteFlag::Color,
                color_frames_id: None,
            },
            ntsc()
        ))),
        None,
        None,
        ntsc(),
    );
    run_pack_binary_test_case(
        "source_code_tuner",
        "60 36 F4 C0 2B",
        Some(Pack::VAUXSource(validated(
            VAUXSource {
                source_code: Some(SourceCode::Tuner),
                tv_channel: Some(436),
                tuner_category: Some(0x2B),
                source_type: SourceType::StandardDefinitionCompressedChroma,
                field_count: 60,
                bw_flag: BlackAndWhiteFlag::Color,
                color_frames_id: None,
            },
            ntsc()
        ))),
        None,
        None,
        ntsc(),
    );
    run_pack_binary_test_case(
        "source_code_prerecorded_tape",
        "60 EE FE C0 FF",
        Some(Pack::VAUXSource(validated(
            VAUXSource {
                source_code: Some(SourceCode::PrerecordedTape),
                tv_channel: None,
                tuner_category: None,
                source_type: SourceType::StandardDefinitionCompressedChroma,
                field_count: 60,
                bw_flag: BlackAndWhiteFlag::Color,
                color_frames_id: None,
            },
            ntsc()
        ))),
        None,
        None,
        ntsc(),
    );
    run_pack_binary_test_case(
        "source_code_no_info",
        "60 FF FF C0 FF",
        Some(Pack::VAUXSource(validated(
            VAUXSource {
                source_code: None,
                tv_channel: None,
                tuner_category: None,
                source_type: SourceType::StandardDefinitionCompressedChroma,
                field_count: 60,
                bw_flag: BlackAndWhiteFlag::Color,
                color_frames_id: None,
            },
            ntsc()
        ))),
        None,
        None,
        ntsc(),
    );
    run_pack_binary_test_case(
        "max_bounds",
        "60 99 F9 C0 2B",
        Some(Pack::VAUXSource(validated(
            VAUXSource {
                source_code: Some(SourceCode::Tuner),
                tv_channel: Some(999),
                tuner_category: Some(0x2B),
                source_type: SourceType::StandardDefinitionCompressedChroma,
                field_count: 60,
                bw_flag: BlackAndWhiteFlag::Color,
                color_frames_id: None,
            },
            ntsc()
        ))),
        None,
        None,
        ntsc(),
    );
    run_pack_binary_test_case(
        "min_bounds",
        "60 01 F0 C0 2B",
        Some(Pack::VAUXSource(validated(
            VAUXSource {
                source_code: Some(SourceCode::Tuner),
                tv_channel: Some(1),
                tuner_category: Some(0x2B),
                source_type: SourceType::StandardDefinitionCompressedChroma,
                field_count: 60,
                bw_flag: BlackAndWhiteFlag::Color,
                color_frames_id: None,
            },
            ntsc()
        ))),
        None,
        None,
        ntsc(),
    );
    run_pack_binary_test_case(
        "misc_weird_fields",
        "60 FF 1F EE FF",
        Some(Pack::VAUXSource(validated(
            VAUXSource {
                source_code: None,
                tv_channel: None,
                tuner_category: None,
                source_type: SourceType::Reserved14,
                field_count: 50,
                bw_flag: BlackAndWhiteFlag::BlackAndWhite,
                color_frames_id: Some(ColorFramesID::CLFColorFrameBOr3_4Field),
            },
            pal()
        ))),
        None,
        None,
        pal(),
    );
    run_pack_binary_test_case(
        "source_code_camera_with_tv_channel",
        "60 12 F3 00 FF",
        None,
        Some(
            "Pack failed deserialization of raw bytes: TV channel must be \
            absent for source code Camera"
        ),
        None,
        ntsc(),
    );
    run_pack_binary_test_case(
        "source_code_line_with_tv_channel",
        "60 12 F3 40 FF",
        None,
        Some(
            "Pack failed deserialization of raw bytes: invalid TV channel code \
            specified for line-based source code"
        ),
        None,
        ntsc(),
    );
    run_pack_binary_test_case(
        "source_code_cable_without_tv_channel",
        "60 FF FF 80 FF",
        None,
        Some(
            "Pack failed validation during deserialization of raw bytes\n\
            Caused by:\n  \
            -> source_code: a TV channel number is required for this source code value\n"
        ),
        None,
        ntsc(),
    );
    run_pack_binary_test_case(
        "source_code_cable_tv_channel_is_e",
        "60 EE FE 80 FF",
        None,
        Some(
            "Pack failed validation during deserialization of raw bytes\n\
            Caused by:\n  \
            -> source_code: a TV channel number is required for this source code value\n"
        ),
        None,
        ntsc(),
    );
    run_pack_binary_test_case(
        "source_code_camera_with_tuner_category",
        "60 FF FF 00 2B",
        None,
        Some(
            "Pack failed validation during deserialization of raw bytes\n\
            Caused by:\n  \
            -> source_code: a tuner category must not be provided if the source code \
               is not a tuner\n"
        ),
        None,
        ntsc(),
    );
    run_pack_binary_test_case(
        "source_code_tuner_without_tuner_category",
        "60 12 F3 C0 FF",
        None,
        Some(
            "Pack failed validation during deserialization of raw bytes\n\
            Caused by:\n  \
            -> source_code: a tuner category must be provided if the source code is a tuner\n"
        ),
        None,
        ntsc(),
    );
    run_pack_binary_test_case(
        "high_tv_channel_hundreds",
        "60 36 FA 80 FF",
        None,
        Some(
            "Pack failed deserialization of raw bytes: couldn't read the TV channel number\n\
            Caused by:\n  \
            -> hundreds place value of 10 is greater than 9"
        ),
        None,
        ntsc(),
    );
    run_pack_binary_test_case(
        "high_tv_channel_tens",
        "60 A6 F4 80 FF",
        None,
        Some(
            "Pack failed deserialization of raw bytes: couldn't read the TV channel number\n\
            Caused by:\n  \
            -> tens place value of 10 is greater than 9"
        ),
        None,
        ntsc(),
    );
    run_pack_binary_test_case(
        "high_tv_channel_units",
        "60 3A F4 80 FF",
        None,
        Some(
            "Pack failed deserialization of raw bytes: couldn't read the TV channel number\n\
            Caused by:\n  \
            -> units place value of 10 is greater than 9"
        ),
        None,
        ntsc(),
    );
    run_pack_binary_test_case(
        "low_tv_channel",
        "60 00 F0 80 FF",
        None,
        Some(
            "Pack failed validation during deserialization of raw bytes\n\
            Caused by:\n  \
            -> tv_channel: lower than 1\n"
        ),
        None,
        ntsc(),
    );
}

#[test]
fn test_vaux_source_validation() {
    run_validate_failure_test_case(
        "source_code_camera_with_tv_channel",
        VAUXSource {
            source_code: Some(SourceCode::Camera),
            tv_channel: Some(5),
            tuner_category: None,
            source_type: SourceType::StandardDefinitionCompressedChroma,
            field_count: 60,
            bw_flag: BlackAndWhiteFlag::Color,
            color_frames_id: None,
        },
        "source_code: a TV channel number must not be provided for this source code value\n",
        ntsc(),
    );
    run_validate_failure_test_case(
        "source_code_line_muse_with_tv_channel",
        VAUXSource {
            source_code: Some(SourceCode::LineMUSE),
            tv_channel: Some(5),
            tuner_category: None,
            source_type: SourceType::StandardDefinitionCompressedChroma,
            field_count: 60,
            bw_flag: BlackAndWhiteFlag::Color,
            color_frames_id: None,
        },
        "source_code: a TV channel number must not be provided for this source code value\n",
        ntsc(),
    );
    run_validate_failure_test_case(
        "source_code_line_with_tv_channel",
        VAUXSource {
            source_code: Some(SourceCode::Line),
            tv_channel: Some(5),
            tuner_category: None,
            source_type: SourceType::StandardDefinitionCompressedChroma,
            field_count: 60,
            bw_flag: BlackAndWhiteFlag::Color,
            color_frames_id: None,
        },
        "source_code: a TV channel number must not be provided for this source code value\n",
        ntsc(),
    );
    run_validate_failure_test_case(
        "source_code_cable_without_tv_channel",
        VAUXSource {
            source_code: Some(SourceCode::Cable),
            tv_channel: None,
            tuner_category: None,
            source_type: SourceType::StandardDefinitionCompressedChroma,
            field_count: 60,
            bw_flag: BlackAndWhiteFlag::Color,
            color_frames_id: None,
        },
        "source_code: a TV channel number is required for this source code value\n",
        ntsc(),
    );
    run_validate_failure_test_case(
        "source_code_tuner_without_tv_channel",
        VAUXSource {
            source_code: Some(SourceCode::Tuner),
            tv_channel: None,
            tuner_category: Some(0x2B),
            source_type: SourceType::StandardDefinitionCompressedChroma,
            field_count: 60,
            bw_flag: BlackAndWhiteFlag::Color,
            color_frames_id: None,
        },
        "source_code: a TV channel number is required for this source code value\n",
        ntsc(),
    );
    run_validate_failure_test_case(
        "source_code_prerecorded_tape_with_tv_channel",
        VAUXSource {
            source_code: Some(SourceCode::PrerecordedTape),
            tv_channel: Some(5),
            tuner_category: None,
            source_type: SourceType::StandardDefinitionCompressedChroma,
            field_count: 60,
            bw_flag: BlackAndWhiteFlag::Color,
            color_frames_id: None,
        },
        "source_code: a TV channel number must not be provided for this source code value\n",
        ntsc(),
    );
    run_validate_failure_test_case(
        "source_code_no_info_with_tv_channel",
        VAUXSource {
            source_code: None,
            tv_channel: Some(5),
            tuner_category: None,
            source_type: SourceType::StandardDefinitionCompressedChroma,
            field_count: 60,
            bw_flag: BlackAndWhiteFlag::Color,
            color_frames_id: None,
        },
        "source_code: a TV channel number must not be provided for this source code value\n",
        ntsc(),
    );
    run_validate_failure_test_case(
        "tv_channel_high",
        VAUXSource {
            source_code: Some(SourceCode::Cable),
            tv_channel: Some(1000),
            tuner_category: None,
            source_type: SourceType::StandardDefinitionCompressedChroma,
            field_count: 60,
            bw_flag: BlackAndWhiteFlag::Color,
            color_frames_id: None,
        },
        "tv_channel: greater than 999\n",
        ntsc(),
    );
    run_validate_failure_test_case(
        "tuner_category_ff",
        VAUXSource {
            source_code: Some(SourceCode::Tuner),
            tv_channel: Some(123),
            tuner_category: Some(0xFF),
            source_type: SourceType::StandardDefinitionCompressedChroma,
            field_count: 60,
            bw_flag: BlackAndWhiteFlag::Color,
            color_frames_id: None,
        },
        "tuner_category: instead of specifying Some(0xFF), use None to \
              indicate no information\n",
        ntsc(),
    );
    run_validate_failure_test_case(
        "invalid_field_count_ntsc",
        VAUXSource {
            source_code: Some(SourceCode::Camera),
            tv_channel: None,
            tuner_category: None,
            source_type: SourceType::StandardDefinitionCompressedChroma,
            field_count: 50,
            bw_flag: BlackAndWhiteFlag::Color,
            color_frames_id: None,
        },
        "field_count: field count of 50 does not match the expected value of 60 \
              for system 525-60\n",
        ntsc(),
    );
    run_validate_failure_test_case(
        "invalid_field_count_pal",
        VAUXSource {
            source_code: Some(SourceCode::Camera),
            tv_channel: None,
            tuner_category: None,
            source_type: SourceType::StandardDefinitionCompressedChroma,
            field_count: 60,
            bw_flag: BlackAndWhiteFlag::Color,
            color_frames_id: None,
        },
        "field_count: field count of 60 does not match the expected value of 50 \
              for system 625-50\n",
        pal(),
    );
}
