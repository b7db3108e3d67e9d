use dv_toolbox_core::file::Info;
use dv_toolbox_core::file::Ratio;
use dv_toolbox_core::pack::CompressionCount;
use dv_toolbox_core::pack::CopyProtection;
use dv_toolbox_core::pack::FrameChange;
use dv_toolbox_core::pack::FrameField;
use dv_toolbox_core::pack::InputSource;
use dv_toolbox_core::pack::Pack;
use dv_toolbox_core::pack::PackContext;
use dv_toolbox_core::pack::PackData;
use dv_toolbox_core::pack::SourceSituation;
use dv_toolbox_core::pack::StillFieldPicture;
use dv_toolbox_core::pack::Type;
use dv_toolbox_core::pack::Unparsed;
use dv_toolbox_core::pack::VAUXRecordingMode;
use dv_toolbox_core::pack::VAUXSourceControl;
use dv_toolbox_core::pack::ValidPack;

fn ntsc() -> PackContext {
    PackContext {
        file_info: Info {
            file_size: 120_000,
            video_frame_rate: Ratio { numer: 30_000, denom: 1_001 },
            video_duration: Ratio { numer: 1_001, denom: 30_000 },
            audio_stereo_stream_count: 1,
            audio_sample_rate: Some(48_000),
        }
        .validate()
        .unwrap(),
    }
}

fn pal() -> PackContext {
    PackContext {
        file_info: Info {
            file_size: 144_000,
            video_frame_rate: Ratio { numer: 25, denom: 1 },
            video_duration: Ratio { numer: 1, denom: 25 },
            audio_stereo_stream_count: 1,
            audio_sample_rate: Some(48_000),
        }
        .validate()
        .unwrap(),
    }
}

fn from_hex(text: &str) -> [u8; 5] {
    let bytes: Vec<u8> =
        text.split_whitespace().map(|b| u8::from_str_radix(b, 16).unwrap()).collect();
    [bytes[0], bytes[1], bytes[2], bytes[3], bytes[4]]
}

fn validated<T: PackData>(value: T, ctx: PackContext) -> ValidPack<T> {
    ValidPack::validate(value, &ctx).unwrap()
}

/// Round trip of a pack: read it from binary, compare what was read, and
/// write it back to binary.
fn run_pack_binary_test_case(
    name: &str,
    input: &str,
    parsed: Option<Pack>,
    err: Option<&str>,
    output: Option<&str>,
    ctx: PackContext,
) {
    let input = from_hex(input);
    let (deserialized, error) = Pack::from_raw(&input, &ctx);
    assert_eq!(error.map(|e| e.chain()), err.map(String::from), "error of case {}", name);
    let expected = match parsed {
        None => Pack::Invalid(
            Type::from(input[0]),
            validated(Unparsed { data: [input[1], input[2], input[3], input[4]] }, ntsc()),
        ),
        Some(p) => p,
    };
    assert_eq!(deserialized, expected, "pack of case {}", name);
    let serialized = deserialized.to_raw(&ctx);
    let expected_output = output.map_or(input, from_hex);
    assert_eq!(serialized, expected_output, "bytes of case {}", name);
}

/// Validation of a value that breaks a rule: the report names it.
fn run_validate_failure_test_case<T: PackData>(name: &str, value: T, err: &str, ctx: PackContext) {
    let result = value.validate_with(&ctx);
    assert_eq!(result.map_err(|e| e.message()), Err(String::from(err)), "case {}", name);
}

#[test]
fn test_vaux_source_control_binary() {
    run_pack_binary_test_case(
        "basic_success",
        "61 03 80 FC FF",
        Some(Pack::VAUXSourceControl(validated(
            VAUXSourceControl {
                broadcast_system: 0x0,
                display_mode: 0x0,
                frame_field: FrameField::Both,
                first_second: 1,
                frame_change: FrameChange::DifferentFromPrevious,
                interlaced: true,
                still_field_picture: StillFieldPicture::HalfFrameTime,
                still_camera_picture: false,
                copy_protection: CopyProtection::NoRestriction,
                source_situation: None,
                input_source: Some(InputSource::Analog),
                compression_count: Some(CompressionCount::Compressed1),
                recording_start_point: false,
                recording_mode: VAUXRecordingMode::Original,
                genre_category: None,
                reserved: 0x4,
            },
            ntsc()
        ))),
        None,
        None,
        ntsc(),
    );
    run_pack_binary_test_case(
        "dvcpro50",
        "61 33 C8 FC FF",
        Some(Pack::VAUXSourceControl(validated(
            VAUXSourceControl {
                broadcast_system: 0x0,
                display_mode: 0x0,
                frame_field: FrameField::Both,
                first_second: 1,
                frame_change: FrameChange::DifferentFromPrevious,
                interlaced: true,
                still_field_picture: StillFieldPicture::HalfFrameTime,
                still_camera_picture: false,
                copy_protection: CopyProtection::NoRestriction,
                source_situation: None,
                input_source: None,
                compression_count: Some(CompressionCount::Compressed1),
                recording_start_point: false,
                recording_mode: VAUXRecordingMode::Original,
                genre_category: None,
                reserved: 0x7,
            },
            ntsc()
        ))),
        None,
        None,
        ntsc(),
    );
    run_pack_binary_test_case(
        "various_values_1",
        "61 0A ED AA 2A",
        Some(Pack::VAUXSourceControl(validated(
            VAUXSourceControl {
                broadcast_system: 0x2,
                display_mode: 0x5,
                frame_field: FrameField::Both,
                first_second: 2,
                frame_change: FrameChange::DifferentFromPrevious,
                interlaced: false,
                still_field_picture: StillFieldPicture::HalfFrameTime,
                still_camera_picture: true,
                copy_protection: CopyProtection::NoRestriction,
                source_situation: Some(SourceSituation::SourceWithAudienceRestrictions),
                input_source: Some(InputSource::Analog),
                compression_count: Some(CompressionCount::Compressed3OrMore),
                recording_start_point: false,
                recording_mode: VAUXRecordingMode::Insert,
                genre_category: Some(0x2A),
                reserved: 0x3,
            },
            ntsc()
        ))),
        None,
        None,
        ntsc(),
    );
    run_pack_binary_test_case(
        "various_values_2",
        "61 93 02 55 BB",
        Some(Pack::VAUXSourceControl(validated(
            VAUXSourceControl {
                broadcast_system: 0x1,
                display_mode: 0x2,
                frame_field: FrameField::OnlyOne,
                first_second: 1,
                frame_change: FrameChange::SameAsPrevious,
                interlaced: true,
                still_field_picture: StillFieldPicture::NoGap,
                still_camera_picture: false,
                copy_protection: CopyProtection::OneGenerationOnly,
                source_situation: None,
                input_source: Some(InputSource::Digital),
                compression_count: Some(CompressionCount::Compressed1),
                recording_start_point: true,
                recording_mode: VAUXRecordingMode::Original,
                genre_category: Some(0x3B),
                reserved: 0x4,
            },
            ntsc()
        ))),
        None,
        None,
        ntsc(),
    );
    run_pack_binary_test_case(
        "all_bits_set",
        "61 FF FF FF FF",
        Some(Pack::VAUXSourceControl(validated(
            VAUXSourceControl {
                broadcast_system: 0x3,
                display_mode: 0x7,
                frame_field: FrameField::Both,
                first_second: 1,
                frame_change: FrameChange::DifferentFromPrevious,
                interlaced: true,
                still_field_picture: StillFieldPicture::HalfFrameTime,
                still_camera_picture: false,
                copy_protection: CopyProtection::NotPermitted,
                source_situation: None,
                input_source: None,
                compression_count: None,
                recording_start_point: false,
                recording_mode: VAUXRecordingMode::InvalidRecording,
                genre_category: None,
                reserved: 0x7,
            },
            ntsc()
        ))),
        None,
        None,
        ntsc(),
    );
    run_pack_binary_test_case(
        "all_bits_clear",
        "61 00 00 00 00",
        Some(Pack::VAUXSourceControl(validated(
            VAUXSourceControl {
                broadcast_system: 0x0,
                display_mode: 0x0,
                frame_field: FrameField::OnlyOne,
                first_second: 2,
                frame_change: FrameChange::SameAsPrevious,
                interlaced: false,
                still_field_picture: StillFieldPicture::NoGap,
                still_camera_picture: true,
                copy_protection: CopyProtection::NoRestriction,
                source_situation: Some(SourceSituation::ScrambledSourceWithAudienceRestrictions),
                input_source: Some(InputSource::Analog),
                compression_count: Some(CompressionCount::Compressed1),
                recording_start_point: true,
                recording_mode: VAUXRecordingMode::Original,
                genre_category: Some(0x00),
                reserved: 0x0,
            },
            ntsc()
        ))),
        None,
        None,
        ntsc(),
    );
}

#[test]
fn test_vaux_source_control_validation() {
    run_validate_failure_test_case(
        "first_second_low",
        VAUXSourceControl {
            broadcast_system: 0x0,
            display_mode: 0x0,
            frame_field: FrameField::Both,
            first_second: 0,
            frame_change: FrameChange::DifferentFromPrevious,
            interlaced: true,
            still_field_picture: StillFieldPicture::HalfFrameTime,
            still_camera_picture: false,
            copy_protection: CopyProtection::NoRestriction,
            source_situation: None,
            input_source: Some(InputSource::Analog),
            compression_count: Some(CompressionCount::Compressed1),
            recording_start_point: false,
            recording_mode: VAUXRecordingMode::Original,
            genre_category: None,
            reserved: 0x0,
        },
        "first_second: lower than 1\n",
        ntsc(),
    );
    run_validate_failure_test_case(
        "first_second_high",
        VAUXSourceControl {
            broadcast_system: 0x0,
            display_mode: 0x0,
            frame_field: FrameField::Both,
            first_second: 3,
            frame_change: FrameChange::DifferentFromPrevious,
            interlaced: true,
            still_field_picture: StillFieldPicture::HalfFrameTime,
            still_camera_picture: false,
            copy_protection: CopyProtection::NoRestriction,
            source_situation: None,
            input_source: Some(InputSource::Analog),
            compression_count: Some(CompressionCount::Compressed1),
            recording_start_point: false,
            recording_mode: VAUXRecordingMode::Original,
            genre_category: None,
            reserved: 0x0,
        },
        "first_second: greater than 2\n",
        ntsc(),
    );
    run_validate_failure_test_case(
        "invalid_genre_category",
        VAUXSourceControl {
            broadcast_system: 0x0,
            display_mode: 0x0,
            frame_field: FrameField::Both,
            first_second: 2,
            frame_change: FrameChange::DifferentFromPrevious,
            interlaced: true,
            still_field_picture: StillFieldPicture::HalfFrameTime,
            still_camera_picture: false,
            copy_protection: CopyProtection::NoRestriction,
            source_situation: None,
            input_source: Some(InputSource::Analog),
            compression_count: Some(CompressionCount::Compressed1),
            recording_start_point: false,
            recording_mode: VAUXRecordingMode::Original,
            genre_category: Some(0x7F),
            reserved: 0x0,
        },
        "genre_category: instead of specifying Some(0x7F), use None to indicate \
            no information\n",
        ntsc(),
    );
}
