use dv_toolbox_core::file::Info;
use dv_toolbox_core::file::Ratio;
use dv_toolbox_core::pack::Pack;
use dv_toolbox_core::pack::PackContext;
use dv_toolbox_core::pack::Type;

fn context(system_50: bool) -> PackContext {
    let info = if system_50 {
        Info {
            file_size: 144_000,
            video_frame_rate: Ratio { numer: 25, denom: 1 },
            video_duration: Ratio { numer: 1, denom: 25 },
            audio_stereo_stream_count: 1,
            audio_sample_rate: Some(48_000),
        }
    } else {
        Info {
            file_size: 120_000,
            video_frame_rate: Ratio { numer: 30_000, denom: 1_001 },
            video_duration: Ratio { numer: 1_001, denom: 30_000 },
            audio_stereo_stream_count: 1,
            audio_sample_rate: Some(48_000),
        }
    };
    PackContext { file_info: info.validate().unwrap() }
}

const HEADERS: [u8; 16] = [
    0x13, 0x14, 0x50, 0x51, 0x52, 0x53, 0x54, 0x60, 0x61, 0x62, 0x63, 0x64, 0x70, 0xFF, 0x00, 0xFE,
];

/// Payloads that reach every field: each byte in turn takes every value
/// beside a few others, then numbers without a pattern.
fn payloads() -> Vec<[u8; 4]> {
    let mut all = Vec::new();
    for base in [[0x00u8; 4], [0xFF; 4], [0x11, 0x22, 0x03, 0x95], [0x80, 0x40, 0x20, 0x10]] {
        for position in 0..4 {
            for value in 0..=255u8 {
                let mut payload = base;
                payload[position] = value;
                all.push(payload);
            }
        }
    }
    let mut state: u32 = 0x2545_F491;
    for _ in 0..20_000 {
        state ^= state << 13;
        state ^= state >> 17;
        state ^= state << 5;
        all.push(state.to_le_bytes());
    }
    all
}

/// Reading never fails, and what is read is written either as it was or in a
/// form that is read as the same pack and written as itself.
#[test]
fn bytes_round_trip() {
    for system_50 in [false, true] {
        let ctx = context(system_50);
        for header in HEADERS {
            for payload in payloads() {
                let raw = [header, payload[0], payload[1], payload[2], payload[3]];
                let (pack, error) = Pack::from_raw(&raw, &ctx);
                assert_eq!(pack.pack_type(), Type::from(header));
                let written = pack.to_raw(&ctx);
                assert_eq!(written[0], header);
                match pack {
                    Pack::Invalid(_, _) => {
                        assert!(error.is_some());
                        assert_eq!(written, raw);
                    }
                    Pack::Unknown(_, _) => {
                        assert!(error.is_none());
                        assert_eq!(written, raw);
                    }
                    _ => {
                        assert!(error.is_none());
                        let (again, error) = Pack::from_raw(&written, &ctx);
                        assert!(error.is_none());
                        assert_eq!(again, pack, "{:02X?}", raw);
                        assert_eq!(again.to_raw(&ctx), written, "{:02X?}", raw);
                    }
                }
            }
        }
    }
}

/// Packs without a bit that reading lets go are written exactly as they were
/// read.
#[test]
fn bytes_without_ambiguity_are_kept() {
    let ctx = context(false);
    for header in [0x14u8, 0x50, 0x51, 0x54, 0x61, 0x64] {
        for payload in payloads() {
            let raw = [header, payload[0], payload[1], payload[2], payload[3]];
            let (pack, _) = Pack::from_raw(&raw, &ctx);
            assert_eq!(pack.to_raw(&ctx), raw);
        }
    }
}

/// The bits that reading lets go are written as the type says: set beside an
/// absent time, time zone or colour frames code; the smallest code of a focus
/// position; every bit of a pack without information.
#[test]
fn ambiguous_bits_are_written_in_one_way() {
    let ctx = context(false);
    let cases: [([u8; 5], [u8; 5]); 8] = [
        // recording time without a time: the drop frame flag is set
        ([0x63, 0xBF, 0xFF, 0xFF, 0xFF], [0x63, 0xFF, 0xFF, 0xFF, 0xFF]),
        ([0x53, 0x3F, 0x7F, 0x7F, 0x3F], [0x53, 0x7F, 0x7F, 0x7F, 0x3F]),
        // recording date without a time zone: half hour and daylight saving flags are set
        ([0x62, 0x3F, 0xFF, 0xFF, 0xFF], [0x62, 0xFF, 0xFF, 0xFF, 0xFF]),
        ([0x62, 0x7F, 0xE7, 0x68, 0x97], [0x62, 0xFF, 0xE7, 0x68, 0x97]),
        // VAUX source without a colour frames code: its bits are set
        ([0x60, 0xFF, 0xCF, 0xC0, 0xFF], [0x60, 0xFF, 0xFF, 0xC0, 0xFF]),
        // camera: focus position 0 cm and 10 cm in their smallest codes
        ([0x70, 0xC5, 0x07, 0x1F, 0x03], [0x70, 0xC5, 0x07, 0x1F, 0x00]),
        ([0x70, 0xC5, 0x07, 0x1F, 0xA8], [0x70, 0xC5, 0x07, 0x1F, 0x85]),
        // no information: every bit is set
        ([0xFF, 0x00, 0x01, 0x02, 0x03], [0xFF, 0xFF, 0xFF, 0xFF, 0xFF]),
    ];
    for (raw, expected) in cases {
        let (pack, error) = Pack::from_raw(&raw, &ctx);
        assert!(error.is_none(), "{:02X?}", raw);
        assert_eq!(pack.to_raw(&ctx), expected, "{:02X?}", raw);
    }
}
