use dv_toolbox_core::file::Info;
use dv_toolbox_core::file::Ratio;
use dv_toolbox_core::pack::BinaryGroup;
use dv_toolbox_core::pack::NoInfo;
use dv_toolbox_core::pack::Pack;
use dv_toolbox_core::pack::PackContext;
use dv_toolbox_core::pack::PackData;
use dv_toolbox_core::pack::Type;
use dv_toolbox_core::pack::Unparsed;
use dv_toolbox_core::pack::ValidPack;

fn ntsc() -> PackContext {
    PackContext {
        file_info: Info {
            file_size: 120_000,
            video_frame_rate: Ratio { numer: 30_000, denom: 1_001 },
            video_duration: Ratio { numer: 1_001, denom: 30_000 },
            audio_stereo_stream_count: 1,
            audio_sample_rate: Some(48_000),
        }
        .validate()
        .unwrap(),
    }
}

fn from_hex(text: &str) -> [u8; 5] {
    let bytes: Vec<u8> =
        text.split_whitespace().map(|b| u8::from_str_radix(b, 16).unwrap()).collect();
    [bytes[0], bytes[1], bytes[2], bytes[3], bytes[4]]
}

fn validated<T: PackData>(value: T, ctx: PackContext) -> ValidPack<T> {
    ValidPack::validate(value, &ctx).unwrap()
}

fn run_pack_binary_test_case(
    name: &str,
    input: &str,
    parsed: Option<Pack>,
    err: Option<&str>,
    output: Option<&str>,
    ctx: PackContext,
) {
    let input = from_hex(input);
    let (deserialized, error) = Pack::from_raw(&input, &ctx);
    assert_eq!(error.map(|e| e.chain()), err.map(String::from), "error of case {}", name);
    let expected = match parsed {
        None => Pack::Invalid(
            Type::from(input[0]),
            validated(Unparsed { data: [input[1], input[2], input[3], input[4]] }, ntsc()),
        ),
        Some(p) => p,
    };
    assert_eq!(deserialized, expected, "pack of case {}", name);
    let serialized = deserialized.to_raw(&ctx);
    let expected_output = output.map_or(input, from_hex);
    assert_eq!(serialized, expected_output, "bytes of case {}", name);
}

#[test]
fn test_type_from_u8() {
    assert_eq!(Type::from(0x14u8), Type::TitleBinaryGroup);
    assert_eq!(Type::from(0xFEu8), Type::Unknown(0xFE));
}

#[test]
fn test_u8_from_type() {
    assert_eq!(u8::from(Type::TitleBinaryGroup), 0x14u8);
    assert_eq!(u8::from(Type::Unknown(0xFE)), 0xFEu8);
}

#[test]
fn test_pack_type_method() {
    let p = Pack::TitleBinaryGroup(validated(
        BinaryGroup { group_data: [2, 1, 4, 3, 6, 5, 8, 7] },
        ntsc(),
    ));
    assert_eq!(p.pack_type(), Type::TitleBinaryGroup);

    let p = Pack::Unknown(0xFE, validated(Unparsed { data: [0x12, 0x34, 0x56, 0x78] }, ntsc()));
    assert_eq!(p.pack_type(), Type::Unknown(0xFE));

    let p = Pack::Invalid(
        Type::Unknown(0xFE),
        validated(Unparsed { data: [0x12, 0x34, 0x56, 0x78] }, ntsc()),
    );
    assert_eq!(p.pack_type(), Type::Unknown(0xFE));
}

#[test]
fn test_unknown_binary() {
    run_pack_binary_test_case(
        "basic_test",
        "FE 12 34 56 78",
        Some(Pack::Unknown(0xFE, validated(Unparsed { data: [0x12, 0x34, 0x56, 0x78] }, ntsc()))),
        None,
        None,
        ntsc(),
    );
}

#[test]
fn test_no_info_binary() {
    run_pack_binary_test_case(
        "basic_test",
        "FF FF FF FF FF",
        Some(Pack::NoInfo(validated(NoInfo {}, ntsc()))),
        None,
        None,
        ntsc(),
    );
    run_pack_binary_test_case(
        "random_bytes",
        "FF 12 34 56 78",
        Some(Pack::NoInfo(validated(NoInfo {}, ntsc()))),
        None,
        Some("FF FF FF FF FF"),
        ntsc(),
    );
}

#[test]
fn every_header_keeps_its_type() {
    for header in 0..=255u8 {
        assert_eq!(u8::from(Type::from(header)), header);
    }
}

#[test]
fn unknown_and_invalid_packs_keep_their_bytes() {
    let ctx = ntsc();
    for header in [0x00u8, 0x01, 0x15, 0x4F, 0x55, 0x71, 0xFE] {
        let raw = [header, 0x12, 0x34, 0x56, 0x78];
        let (pack, error) = Pack::from_raw(&raw, &ctx);
        assert!(matches!(pack, Pack::Unknown(h, _) if h == header));
        assert!(error.is_none());
        assert_eq!(pack.to_raw(&ctx), raw);
    }
    // a recording date with a month digit above 9
    let raw = [0x62u8, 0xD9, 0xE7, 0x6A, 0x97];
    let (pack, error) = Pack::from_raw(&raw, &ctx);
    assert!(matches!(pack, Pack::Invalid(Type::VAUXRecordingDate, _)));
    assert!(error.is_some());
    assert_eq!(pack.to_raw(&ctx), raw);
}

#[test]
fn packs_are_valid_in_the_context_that_they_were_read_in() {
    let ntsc = ntsc();
    let pal = PackContext {
        file_info: Info {
            file_size: 144_000,
            video_frame_rate: Ratio { numer: 25, denom: 1 },
            video_duration: Ratio { numer: 1, denom: 25 },
            audio_stereo_stream_count: 1,
            audio_sample_rate: Some(48_000),
        }
        .validate()
        .unwrap(),
    };
    // a title timecode with frame number 29: valid at 30 frames, not at 25
    let raw = from_hex("13 29 00 00 00");
    let (pack, error) = Pack::from_raw(&raw, &ntsc);
    assert!(error.is_none());
    assert!(matches!(pack, Pack::TitleTimecode(_)));
    assert!(pack.is_valid_in(&ntsc));
    assert!(!pack.is_valid_in(&pal));
    let (pack, error) = Pack::from_raw(&raw, &pal);
    assert!(matches!(pack, Pack::Invalid(Type::TitleTimecode, _)));
    assert!(error.is_some());
    assert!(pack.is_valid_in(&ntsc) && pack.is_valid_in(&pal));
    // a validated value knows the context only by what it holds
    let valid = validated(BinaryGroup { group_data: [0; 8] }, ntsc);
    assert!(valid.holds_in(&pal));
    assert_eq!(valid.get(), BinaryGroup { group_data: [0; 8] });
}
