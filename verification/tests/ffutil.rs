use dv_toolbox_core::ffutil::codec_support;
use dv_toolbox_core::ffutil::AVRationalConversionError;
use dv_toolbox_core::ffutil::AVRationalConverter;
use dv_toolbox_core::file::Ratio;

#[test]
fn test_rational_converter() {
    assert_eq!(
        AVRationalConverter { num: 6, den: 8 }.try_into_other_ratio::<u32>(),
        Ok(Ratio { numer: 3u32, denom: 4u32 })
    );
    assert_eq!(
        AVRationalConverter { num: 6, den: 0 }.try_into_other_ratio::<u32>(),
        Err(AVRationalConversionError::DenominatorZero)
    );
    assert_eq!(
        AVRationalConverter { num: -6, den: 8 }.try_into_other_ratio::<u32>(),
        Err(AVRationalConversionError::TryFromRational)
    );
    assert_eq!(
        AVRationalConverter { num: 30_000, den: 1_001 }.try_into_other_ratio::<u128>(),
        Ok(Ratio { numer: 30_000u128, denom: 1_001u128 })
    );

    let actual = AVRationalConverter::try_from_other_ratio(Ratio { numer: 6u32, denom: 8u32 });
    assert_eq!(actual, Ok(AVRationalConverter { num: 3, den: 4 }));

    let actual =
        AVRationalConverter::try_from_other_ratio(Ratio { numer: u32::MAX, denom: 8u32 });
    assert_eq!(actual, Err(AVRationalConversionError::TryFromRational));
    assert_eq!(
        AVRationalConversionError::DenominatorZero.message(),
        "zero value denominator"
    );
    assert_eq!(
        AVRationalConversionError::TryFromRational.message(),
        "rational cannot be converted to another numeric type"
    );
}

#[test]
fn test_format_supports_codec() {
    let patch_welcome = -0x4557_4150;
    assert_eq!(codec_support(patch_welcome, patch_welcome), Ok(false));
    assert_eq!(codec_support(-22, patch_welcome), Err(-22));
    assert_eq!(codec_support(0, patch_welcome), Ok(false));
    assert_eq!(codec_support(1, patch_welcome), Ok(true));
    assert_eq!(codec_support(i32::MAX, patch_welcome), Ok(true));
    assert_eq!(codec_support(i32::MIN, patch_welcome), Err(i32::MIN));
}

#[test]
fn signed_ratios_in_lowest_terms() {
    let ratio = |num: i32, den: i32| AVRationalConverter { num, den }.try_into_ratio();
    assert_eq!(ratio(6, 8), Ok(Ratio { numer: 3, denom: 4 }));
    assert_eq!(ratio(6, 0), Err(AVRationalConversionError::DenominatorZero));
    assert_eq!(ratio(-6, 8), Ok(Ratio { numer: -3, denom: 4 }));
    assert_eq!(ratio(6, -8), Ok(Ratio { numer: -3, denom: 4 }));
    assert_eq!(ratio(-6, -8), Ok(Ratio { numer: 3, denom: 4 }));
    assert_eq!(ratio(0, -8), Ok(Ratio { numer: 0, denom: 1 }));
    assert_eq!(ratio(i32::MIN, 2), Ok(Ratio { numer: i32::MIN / 2, denom: 1 }));
    assert_eq!(ratio(i32::MIN, 1), Ok(Ratio { numer: i32::MIN, denom: 1 }));
    assert_eq!(ratio(i32::MIN, -1), Err(AVRationalConversionError::TryFromRational));
    assert_eq!(ratio(1, i32::MIN), Err(AVRationalConversionError::TryFromRational));
    assert_eq!(
        AVRationalConverter::try_from_ratio(Ratio { numer: 6, denom: 8 }),
        Ok(AVRationalConverter { num: 3, den: 4 })
    );
    assert_eq!(
        AVRationalConverter::try_from_ratio(Ratio { numer: 6, denom: -8 }),
        Ok(AVRationalConverter { num: -3, den: 4 })
    );
}
