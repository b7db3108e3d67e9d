use dv_toolbox_core::file::Info;
use dv_toolbox_core::file::Ratio;
use dv_toolbox_core::pack::AutoExposureMode;
use dv_toolbox_core::pack::CameraConsumer1;
use dv_toolbox_core::pack::FNumber;
use dv_toolbox_core::pack::FocusMode;
use dv_toolbox_core::pack::Pack;
use dv_toolbox_core::pack::PackContext;
use dv_toolbox_core::pack::PackData;
use dv_toolbox_core::pack::Type;
use dv_toolbox_core::pack::Unparsed;
use dv_toolbox_core::pack::ValidPack;
use dv_toolbox_core::pack::WhiteBalance;
use dv_toolbox_core::pack::WhiteBalanceMode;

fn ntsc() -> PackContext {
    PackContext {
        file_info: Info {
            file_size: 120_000,
            video_frame_rate: Ratio { numer: 30_000, denom: 1_001 },
            video_duration: Ratio { numer: 1_001, denom: 30_000 },
            audio_stereo_stream_count: 1,
            audio_sample_rate: Some(48_000),
        }
        .validate()
        .unwrap(),
    }
}

fn pal() -> PackContext {
    PackContext {
        file_info: Info {
            file_size: 144_000,
            video_frame_rate: Ratio { numer: 25, denom: 1 },
            video_duration: Ratio { numer: 1, denom: 25 },
            audio_stereo_stream_count: 1,
            audio_sample_rate: Some(48_000),
        }
        .validate()
        .unwrap(),
    }
}

fn from_hex(text: &str) -> [u8; 5] {
    let bytes: Vec<u8> =
        text.split_whitespace().map(|b| u8::from_str_radix(b, 16).unwrap()).collect();
    [bytes[0], bytes[1], bytes[2], bytes[3], bytes[4]]
}

fn validated<T: PackData>(value: T, ctx: PackContext) -> ValidPack<T> {
    ValidPack::validate(value, &ctx).unwrap()
}

/// Round trip of a pack: read it from binary, compare what was read, and
/// write it back to binary.
fn run_pack_binary_test_case(
    name: &str,
    input: &str,
    parsed: Option<Pack>,
    err: Option<&str>,
    output: Option<&str>,
    ctx: PackContext,
) {
    let input = from_hex(input);
    let (deserialized, error) = Pack::from_raw(&input, &ctx);
    assert_eq!(error.map(|e| e.chain()), err.map(String::from), "error of case {}", name);
    let expected = match parsed {
        None => Pack::Invalid(
            Type::from(input[0]),
            validated(Unparsed { data: [input[1], input[2], input[3], input[4]] }, ntsc()),
        ),
        Some(p) => p,
    };
    assert_eq!(deserialized, expected, "pack of case {}", name);
    let serialized = deserialized.to_raw(&ctx);
    let expected_output = output.map_or(input, from_hex);
    assert_eq!(serialized, expected_output, "bytes of case {}", name);
}

/// Validation of a value that breaks a rule: the report names it.
fn run_validate_failure_test_case<T: PackData>(name: &str, value: T, err: &str, ctx: PackContext) {
    let result = value.validate_with(&ctx);
    assert_eq!(result.map_err(|e| e.message()), Err(String::from(err)), "case {}", name);
}

#[test]
fn test_camera_consumer_1_binary() {
    run_pack_binary_test_case(
        "basic_success_dcr_trv460",
        "70 C5 07 1F FF",
        Some(Pack::CameraConsumer1(validated(
            CameraConsumer1 {
                auto_exposure_mode: Some(AutoExposureMode::FullAutomatic),
                iris: Some(FNumber { tenths: 15 }),
                auto_gain_control: Some(7),
                white_balance_mode: Some(WhiteBalanceMode::Automatic),
                white_balance: None,
                focus_mode: FocusMode::Manual,
                focus_position: None,
                reserved: 0x3,
            },
            ntsc()
        ))),
        None,
        None,
        ntsc(),
    );
    run_pack_binary_test_case(
        "basic_success_old_camcorder",
        "70 DE 01 1F FF",
        Some(Pack::CameraConsumer1(validated(
            CameraConsumer1 {
                auto_exposure_mode: Some(AutoExposureMode::FullAutomatic),
                iris: Some(FNumber { tenths: 135 }),
                auto_gain_control: Some(1),
                white_balance_mode: Some(WhiteBalanceMode::Automatic),
                white_balance: None,
                focus_mode: FocusMode::Manual,
                focus_position: None,
                reserved: 0x3,
            },
            ntsc()
        ))),
        None,
        None,
        ntsc(),
    );
    run_pack_binary_test_case(
        "all_values_in_range",
        "70 E5 37 44 56",
        Some(Pack::CameraConsumer1(validated(
            CameraConsumer1 {
                auto_exposure_mode: Some(AutoExposureMode::IrisPriority),
                iris: Some(FNumber { tenths: 247 }),
                auto_gain_control: Some(7),
                white_balance_mode: Some(WhiteBalanceMode::OnePush),
                white_balance: Some(WhiteBalance::Sunlight),
                focus_mode: FocusMode::Automatic,
                focus_position: Some(2100),
                reserved: 0x3,
            },
            ntsc()
        ))),
        None,
        None,
        ntsc(),
    );
    run_pack_binary_test_case(
        "max_calculated_values",
        "70 FC 3E 44 7E",
        Some(Pack::CameraConsumer1(validated(
            CameraConsumer1 {
                auto_exposure_mode: Some(AutoExposureMode::IrisPriority),
                iris: Some(FNumber { tenths: 1810 }),
                auto_gain_control: Some(14),
                white_balance_mode: Some(WhiteBalanceMode::OnePush),
                white_balance: Some(WhiteBalance::Sunlight),
                focus_mode: FocusMode::Automatic,
                focus_position: Some(3100),
                reserved: 0x3,
            },
            ntsc()
        ))),
        None,
        None,
        ntsc(),
    );
    run_pack_binary_test_case(
        "wide_open_iris",
        "70 FD 37 44 7E",
        Some(Pack::CameraConsumer1(validated(
            CameraConsumer1 {
                auto_exposure_mode: Some(AutoExposureMode::IrisPriority),
                iris: Some(FNumber { tenths: 0 }),
                auto_gain_control: Some(7),
                white_balance_mode: Some(WhiteBalanceMode::OnePush),
                white_balance: Some(WhiteBalance::Sunlight),
                focus_mode: FocusMode::Automatic,
                focus_position: Some(3100),
                reserved: 0x3,
            },
            ntsc()
        ))),
        None,
        None,
        ntsc(),
    );
    run_pack_binary_test_case(
        "closed_iris",
        "70 FE 37 44 7E",
        Some(Pack::CameraConsumer1(validated(
            CameraConsumer1 {
                auto_exposure_mode: Some(AutoExposureMode::IrisPriority),
                iris: Some(FNumber { tenths: 9999 }),
                auto_gain_control: Some(7),
                white_balance_mode: Some(WhiteBalanceMode::OnePush),
                white_balance: Some(WhiteBalance::Sunlight),
                focus_mode: FocusMode::Automatic,
                focus_position: Some(3100),
                reserved: 0x3,
            },
            ntsc()
        ))),
        None,
        None,
        ntsc(),
    );
    run_pack_binary_test_case(
        "all_bits_set",
        "70 FF FF FF FF",
        Some(Pack::CameraConsumer1(validated(
            CameraConsumer1 {
                auto_exposure_mode: None,
                iris: None,
                auto_gain_control: None,
                white_balance_mode: None,
                white_balance: None,
                focus_mode: FocusMode::Manual,
                focus_position: None,
                reserved: 0x3,
            },
            ntsc()
        ))),
        None,
        None,
        ntsc(),
    );
    run_pack_binary_test_case(
        "all_bits_clear",
        "70 00 00 00 00",
        Some(Pack::CameraConsumer1(validated(
            CameraConsumer1 {
                auto_exposure_mode: Some(AutoExposureMode::FullAutomatic),
                iris: Some(FNumber { tenths: 10 }),
                auto_gain_control: Some(0),
                white_balance_mode: Some(WhiteBalanceMode::Automatic),
                white_balance: Some(WhiteBalance::Candle),
                focus_mode: FocusMode::Automatic,
                focus_position: Some(0),
                reserved: 0x0,
            },
            ntsc()
        ))),
        None,
        None,
        ntsc(),
    );
}

#[test]
fn test_camera_consumer_1_validation() {
    run_validate_failure_test_case(
        "invalid_iris",
        CameraConsumer1 {
            auto_exposure_mode: Some(AutoExposureMode::FullAutomatic),
            iris: Some(FNumber { tenths: 502 }),
            auto_gain_control: Some(7),
            white_balance_mode: Some(WhiteBalanceMode::Automatic),
            white_balance: None,
            focus_mode: FocusMode::Manual,
            focus_position: None,
            reserved: 0x3,
        },
        "iris: iris value 50.2 not supported: only iris values returned by the \
            valid_iris_values function are supported\n",
        ntsc(),
    );
    run_validate_failure_test_case(
        "invalid_auto_gain_control",
        CameraConsumer1 {
            auto_exposure_mode: Some(AutoExposureMode::FullAutomatic),
            iris: Some(FNumber { tenths: 15 }),
            auto_gain_control: Some(15),
            white_balance_mode: Some(WhiteBalanceMode::Automatic),
            white_balance: None,
            focus_mode: FocusMode::Manual,
            focus_position: None,
            reserved: 0x3,
        },
        "auto_gain_control: instead of specifying Some(0xF), use None to \
            indicate no information\n",
        ntsc(),
    );
    run_validate_failure_test_case(
        "invalid_focus_position",
        CameraConsumer1 {
            auto_exposure_mode: Some(AutoExposureMode::FullAutomatic),
            iris: Some(FNumber { tenths: 15 }),
            auto_gain_control: Some(7),
            white_balance_mode: Some(WhiteBalanceMode::Automatic),
            white_balance: None,
            focus_mode: FocusMode::Manual,
            focus_position: Some(1234),
            reserved: 0x3,
        },
        "focus_position: focus position 1234 not supported: only focus positions \
            returned by the valid_focus_positions function are supported\n",
        ntsc(),
    );
}
