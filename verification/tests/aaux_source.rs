use dv_toolbox_core::file::Info;
use dv_toolbox_core::file::Ratio;
use dv_toolbox_core::pack::AAUXSource;
use dv_toolbox_core::pack::AudioBlockPairing;
use dv_toolbox_core::pack::AudioQuantization;
use dv_toolbox_core::pack::EmphasisTimeConstant;
use dv_toolbox_core::pack::LockedMode;
use dv_toolbox_core::pack::Pack;
use dv_toolbox_core::pack::PackContext;
use dv_toolbox_core::pack::PackData;
use dv_toolbox_core::pack::SourceType;
use dv_toolbox_core::pack::StereoMode;
use dv_toolbox_core::pack::Type;
use dv_toolbox_core::pack::Unparsed;
use dv_toolbox_core::pack::ValidPack;

fn ntsc() -> PackContext {
    PackContext {
        file_info: Info {
            file_size: 120_000,
            video_frame_rate: Ratio { numer: 30_000, denom: 1_001 },
            video_duration: Ratio { numer: 1_001, denom: 30_000 },
            audio_stereo_stream_count: 1,
            audio_sample_rate: Some(48_000),
        }
        .validate()
        .unwrap(),
    }
}

fn pal() -> PackContext {
    PackContext {
        file_info: Info {
            file_size: 144_000,
            video_frame_rate: Ratio { numer: 25, denom: 1 },
            video_duration: Ratio { numer: 1, denom: 25 },
            audio_stereo_stream_count: 1,
            audio_sample_rate: Some(48_000),
        }
        .validate()
        .unwrap(),
    }
}

fn from_hex(text: &str) -> [u8; 5] {
    let bytes: Vec<u8> =
        text.split_whitespace().map(|b| u8::from_str_radix(b, 16).unwrap()).collect();
    [bytes[0], bytes[1], bytes[2], bytes[3], bytes[4]]
}

fn validated<T: PackData>(value: T, ctx: PackContext) -> ValidPack<T> {
    ValidPack::validate(value, &ctx).unwrap()
}

/// Round trip of a pack: read it from binary, compare what was read, and
/// write it back to binary.
fn run_pack_binary_test_case(
    name: &str,
    input: &str,
    parsed: Option<Pack>,
    err: Option<&str>,
    output: Option<&str>,
    ctx: PackContext,
) {
    let input = from_hex(input);
    let (deserialized, error) = Pack::from_raw(&input, &ctx);
    assert_eq!(error.map(|e| e.chain()), err.map(String::from), "error of case {}", name);
    let expected = match parsed {
        None => Pack::Invalid(
            Type::from(input[0]),
            validated(Unparsed { data: [input[1], input[2], input[3], input[4]] }, ntsc()),
        ),
        Some(p) => p,
    };
    assert_eq!(deserialized, expected, "pack of case {}", name);
    let serialized = deserialized.to_raw(&ctx);
    let expected_output = output.map_or(input, from_hex);
    assert_eq!(serialized, expected_output, "bytes of case {}", name);
}

/// Validation of a value that breaks a rule: the report names it.
fn run_validate_failure_test_case<T: PackData>(name: &str, value: T, err: &str, ctx: PackContext) {
    let result = value.validate_with(&ctx);
    assert_eq!(result.map_err(|e| e.message()), Err(String::from(err)), "case {}", name);
}

#[test]
fn test_aaux_source_binary() {
    run_pack_binary_test_case(
        "basic_success_first_audio_block",
        "50 CE 30 C0 D1",
        Some(Pack::AAUXSource(validated(
            AAUXSource {
                audio_sample_rate: 32_000,
                quantization: AudioQuantization::NonLinear12Bit,
                audio_frame_size: 1_067,
                locked_mode: LockedMode::Unlocked,
                stereo_mode: StereoMode::MultiStereoAudio,
                audio_block_channel_count: 2,
                audio_mode: 0x0,
                audio_block_pairing: AudioBlockPairing::Independent,
                multi_language: false,
                source_type: SourceType::StandardDefinitionCompressedChroma,
                field_count: 60,
                emphasis_on: false,
                emphasis_time_constant: EmphasisTimeConstant::Emphasis50_15,
                reserved: 0x3,
            },
            ntsc()
        ))),
        None,
        None,
        ntsc(),
    );
    run_pack_binary_test_case(
        "basic_success_second_audio_block",
        "50 CE 3F C0 D1",
        Some(Pack::AAUXSource(validated(
            AAUXSource {
                audio_sample_rate: 32_000,
                quantization: AudioQuantization::NonLinear12Bit,
                audio_frame_size: 1_067,
                locked_mode: LockedMode::Unlocked,
                stereo_mode: StereoMode::MultiStereoAudio,
                audio_block_channel_count: 2,
                audio_mode: 0xF,
                audio_block_pairing: AudioBlockPairing::Independent,
                multi_language: false,
                source_type: SourceType::StandardDefinitionCompressedChroma,
                field_count: 60,
                emphasis_on: false,
                emphasis_time_constant: EmphasisTimeConstant::Emphasis50_15,
                reserved: 0x3,
            },
            ntsc()
        ))),
        None,
        None,
        ntsc(),
    );
    run_pack_binary_test_case(
        "various_values_1",
        "50 00 B5 E0 C8",
        Some(Pack::AAUXSource(validated(
            AAUXSource {
                audio_sample_rate: 44_100,
                quantization: AudioQuantization::Linear16Bit,
                audio_frame_size: 1_742,
                locked_mode: LockedMode::Locked,
                stereo_mode: StereoMode::LumpedAudio,
                audio_block_channel_count: 2,
                audio_mode: 0x5,
                audio_block_pairing: AudioBlockPairing::Independent,
                multi_language: false,
                source_type: SourceType::StandardDefinitionCompressedChroma,
                field_count: 50,
                emphasis_on: false,
                emphasis_time_constant: EmphasisTimeConstant::Emphasis50_15,
                reserved: 0x2,
            },
            pal()
        ))),
        None,
        None,
        pal(),
    );
    run_pack_binary_test_case(
        "various_values_2",
        "50 E8 0A 02 02",
        Some(Pack::AAUXSource(validated(
            AAUXSource {
                audio_sample_rate: 48_000,
                quantization: AudioQuantization::Linear20Bit,
                audio_frame_size: 1_620,
                locked_mode: LockedMode::Unlocked,
                stereo_mode: StereoMode::MultiStereoAudio,
                audio_block_channel_count: 1,
                audio_mode: 0xA,
                audio_block_pairing: AudioBlockPairing::Paired,
                multi_language: true,
                source_type: SourceType::AnalogHighDefinition1125_1250,
                field_count: 60,
                emphasis_on: true,
                emphasis_time_constant: EmphasisTimeConstant::Reserved,
                reserved: 0x1,
            },
            ntsc()
        ))),
        None,
        None,
        ntsc(),
    );
    run_pack_binary_test_case(
        "invalid_audio_sample_rate",
        "50 CE 30 C0 D9",
        None,
        Some(
            "Pack failed deserialization of raw bytes: smp value of 3 does not correspond to a \
            known audio sample rate"
        ),
        None,
        ntsc(),
    );
    run_pack_binary_test_case(
        "invalid_audio_frame_size",
        "50 DC 30 C0 D1",
        None,
        Some(
            "Pack failed validation during deserialization of raw bytes\n\
            Caused by:\n  \
            -> audio_frame_size: video frame contains 1081 audio samples, which is above the \
               maximum of 1080 for video system 525-60 and audio sample rate 32000 Hz\n"
        ),
        None,
        ntsc(),
    );
    run_pack_binary_test_case(
        "invalid_audio_block_channel_count",
        "50 CE 50 C0 D1",
        None,
        Some(
            "Pack failed deserialization of raw bytes: chn value of 2 does not correspond to \
            a known number of channels per audio block"
        ),
        None,
        ntsc(),
    );
}

#[test]
fn test_aaux_source_validation() {
    run_validate_failure_test_case(
        "invalid_audio_sample_rate",
        AAUXSource {
            audio_sample_rate: 14_000,
            quantization: AudioQuantization::NonLinear12Bit,
            audio_frame_size: 1_067,
            locked_mode: LockedMode::Unlocked,
            stereo_mode: StereoMode::MultiStereoAudio,
            audio_block_channel_count: 2,
            audio_mode: 0x0,
            audio_block_pairing: AudioBlockPairing::Independent,
            multi_language: false,
            source_type: SourceType::StandardDefinitionCompressedChroma,
            field_count: 60,
            emphasis_on: false,
            emphasis_time_constant: EmphasisTimeConstant::Emphasis50_15,
            reserved: 0x3,
        },
        "audio_frame_size: cannot validate the audio frame size because the audio \
            sample rate is unsupported\n\
            audio_sample_rate: audio sample rate of 14000 is not one of the supported values \
            of 32000, 44100, or 48000 Hz\n",
        ntsc(),
    );
    run_validate_failure_test_case(
        "low_audio_frame_size",
        AAUXSource {
            audio_sample_rate: 32_000,
            quantization: AudioQuantization::NonLinear12Bit,
            audio_frame_size: 1_052,
            locked_mode: LockedMode::Unlocked,
            stereo_mode: StereoMode::MultiStereoAudio,
            audio_block_channel_count: 2,
            audio_mode: 0x0,
            audio_block_pairing: AudioBlockPairing::Independent,
            multi_language: false,
            source_type: SourceType::StandardDefinitionCompressedChroma,
            field_count: 60,
            emphasis_on: false,
            emphasis_time_constant: EmphasisTimeConstant::Emphasis50_15,
            reserved: 0x3,
        },
        "audio_frame_size: video frame contains 1052 audio samples, which is below the \
            required minimum of 1053 for video system 525-60 and audio sample rate 32000 Hz\n",
        ntsc(),
    );
    run_validate_failure_test_case(
        "high_audio_frame_size",
        AAUXSource {
            audio_sample_rate: 32_000,
            quantization: AudioQuantization::NonLinear12Bit,
            audio_frame_size: 1_081,
            locked_mode: LockedMode::Unlocked,
            stereo_mode: StereoMode::MultiStereoAudio,
            audio_block_channel_count: 2,
            audio_mode: 0x0,
            audio_block_pairing: AudioBlockPairing::Independent,
            multi_language: false,
            source_type: SourceType::StandardDefinitionCompressedChroma,
            field_count: 60,
            emphasis_on: false,
            emphasis_time_constant: EmphasisTimeConstant::Emphasis50_15,
            reserved: 0x3,
        },
        "audio_frame_size: video frame contains 1081 audio samples, which is above the \
            maximum of 1080 for video system 525-60 and audio sample rate 32000 Hz\n",
        ntsc(),
    );
    run_validate_failure_test_case(
        "low_audio_block_channel_count",
        AAUXSource {
            audio_sample_rate: 32_000,
            quantization: AudioQuantization::NonLinear12Bit,
            audio_frame_size: 1_067,
            locked_mode: LockedMode::Unlocked,
            stereo_mode: StereoMode::MultiStereoAudio,
            audio_block_channel_count: 0,
            audio_mode: 0x0,
            audio_block_pairing: AudioBlockPairing::Independent,
            multi_language: false,
            source_type: SourceType::StandardDefinitionCompressedChroma,
            field_count: 60,
            emphasis_on: false,
            emphasis_time_constant: EmphasisTimeConstant::Emphasis50_15,
            reserved: 0x3,
        },
        "audio_block_channel_count: lower than 1\n",
        ntsc(),
    );
    run_validate_failure_test_case(
        "high_audio_block_channel_count",
        AAUXSource {
            audio_sample_rate: 32_000,
            quantization: AudioQuantization::NonLinear12Bit,
            audio_frame_size: 1_067,
            locked_mode: LockedMode::Unlocked,
            stereo_mode: StereoMode::MultiStereoAudio,
            audio_block_channel_count: 3,
            audio_mode: 0x0,
            audio_block_pairing: AudioBlockPairing::Independent,
            multi_language: false,
            source_type: SourceType::StandardDefinitionCompressedChroma,
            field_count: 60,
            emphasis_on: false,
            emphasis_time_constant: EmphasisTimeConstant::Emphasis50_15,
            reserved: 0x3,
        },
        "audio_block_channel_count: greater than 2\n",
        ntsc(),
    );
    run_validate_failure_test_case(
        "invalid_field_count_ntsc",
        AAUXSource {
            audio_sample_rate: 32_000,
            quantization: AudioQuantization::NonLinear12Bit,
            audio_frame_size: 1_067,
            locked_mode: LockedMode::Unlocked,
            stereo_mode: StereoMode::MultiStereoAudio,
            audio_block_channel_count: 2,
            audio_mode: 0x0,
            audio_block_pairing: AudioBlockPairing::Independent,
            multi_language: false,
            source_type: SourceType::StandardDefinitionCompressedChroma,
            field_count: 50,
            emphasis_on: false,
            emphasis_time_constant: EmphasisTimeConstant::Emphasis50_15,
            reserved: 0x3,
        },
        "field_count: field count of 50 does not match the expected value of 60 \
            for system 525-60\n",
        ntsc(),
    );
    run_validate_failure_test_case(
        "invalid_field_count_pal",
        AAUXSource {
            audio_sample_rate: 44_100,
            quantization: AudioQuantization::Linear16Bit,
            audio_frame_size: 1_742,
            locked_mode: LockedMode::Unlocked,
            stereo_mode: StereoMode::MultiStereoAudio,
            audio_block_channel_count: 2,
            audio_mode: 0x0,
            audio_block_pairing: AudioBlockPairing::Independent,
            multi_language: false,
            source_type: SourceType::StandardDefinitionCompressedChroma,
            field_count: 60,
            emphasis_on: false,
            emphasis_time_constant: EmphasisTimeConstant::Emphasis50_15,
            reserved: 0x3,
        },
        "field_count: field count of 60 does not match the expected value of 50 \
            for system 625-50\n",
        pal(),
    );
}
