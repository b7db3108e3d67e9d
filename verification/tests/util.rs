use dv_toolbox_core::pack::util::from_bcd_hundreds;
use dv_toolbox_core::pack::util::from_bcd_tens;
use dv_toolbox_core::pack::util::get_bit;
use dv_toolbox_core::pack::util::get_bits;
use dv_toolbox_core::pack::util::BcdError;
use dv_toolbox_core::pack::util::BcdPlace;

fn hundreds_case(hundreds: u8, width: u8, tens: u8, units: u8) -> Result<Option<u16>, String> {
    from_bcd_hundreds(hundreds, width, tens, units).map_err(|e| e.message())
}

fn tens_case(tens: u8, width: u8, units: u8) -> Result<Option<u8>, String> {
    from_bcd_tens(tens, width, units).map_err(|e| e.message())
}

#[test]
fn test_from_bcd_hundreds() {
    // the hundreds digit has two bits
    assert_eq!(hundreds_case(1, 2, 6, 4), Ok(Some(164)));
    assert_eq!(hundreds_case(0, 2, 0, 0), Ok(Some(0)));
    assert_eq!(hundreds_case(3, 2, 9, 9), Ok(Some(399)));
    assert_eq!(hundreds_case(3, 2, 0xF, 0xF), Ok(None));
    assert_eq!(
        hundreds_case(0, 2, 10, 0),
        Err(String::from("tens place value of 10 is greater than 9"))
    );
    assert_eq!(
        hundreds_case(0, 2, 0, 10),
        Err(String::from("units place value of 10 is greater than 9"))
    );
}

#[test]
fn test_from_bcd_hundreds_overflow_hundreds() {
    assert_eq!(
        hundreds_case(10, 4, 0, 0),
        Err(String::from("hundreds place value of 10 is greater than 9"))
    );
    assert_eq!(
        from_bcd_hundreds(10, 4, 0, 0),
        Err(BcdError { place: BcdPlace::Hundreds, value: 10 })
    );
}

#[test]
fn test_from_bcd_tens() {
    // the tens digit has two bits
    assert_eq!(tens_case(1, 2, 4), Ok(Some(14)));
    assert_eq!(tens_case(0, 2, 0), Ok(Some(0)));
    assert_eq!(tens_case(3, 2, 9), Ok(Some(39)));
    assert_eq!(tens_case(3, 2, 0xF), Ok(None));
    assert_eq!(tens_case(0, 2, 10), Err(String::from("units place value of 10 is greater than 9")));
}

#[test]
fn test_from_bcd_tens_overflow_tens() {
    assert_eq!(tens_case(10, 4, 0), Err(String::from("tens place value of 10 is greater than 9")));
}

#[test]
fn bcd_sentinel_and_bounds() {
    // every bit of both digits set: absent
    assert_eq!(from_bcd_tens(0xF, 4, 0xF), Ok(None));
    assert_eq!(from_bcd_tens(9, 4, 9), Ok(Some(99)));
    assert_eq!(from_bcd_tens(10, 4, 0), Err(BcdError { place: BcdPlace::Tens, value: 10 }));
    // all bits of a narrow tens digit, beside digits that are no sentinel
    assert_eq!(from_bcd_tens(1, 1, 0xF), Ok(None));
    assert_eq!(from_bcd_tens(1, 1, 9), Ok(Some(19)));
    assert_eq!(from_bcd_tens(7, 3, 0xF), Ok(None));
    assert_eq!(from_bcd_tens(0xF, 4, 9), Err(BcdError { place: BcdPlace::Tens, value: 15 }));
    assert_eq!(from_bcd_tens(9, 4, 0xF), Err(BcdError { place: BcdPlace::Units, value: 15 }));
    assert_eq!(from_bcd_hundreds(0xF, 4, 0xF, 0xF), Ok(None));
    assert_eq!(from_bcd_hundreds(9, 4, 9, 9), Ok(Some(999)));
    assert_eq!(
        from_bcd_hundreds(0xE, 4, 0xE, 0xE),
        Err(BcdError { place: BcdPlace::Hundreds, value: 14 })
    );
}

#[test]
fn bit_fields_of_a_byte() {
    assert_eq!(get_bits(0b1011_0110, 0, 4), 0b0110);
    assert_eq!(get_bits(0b1011_0110, 4, 4), 0b1011);
    assert_eq!(get_bits(0b1011_0110, 1, 3), 0b011);
    assert_eq!(get_bits(0b1011_0110, 0, 8), 0b1011_0110);
    assert_eq!(get_bits(0b1011_0110, 7, 1), 1);
    assert_eq!(get_bits(0b1011_0110, 3, 0), 0);
    assert!(get_bit(0b1011_0110, 2));
    assert!(!get_bit(0b1011_0110, 3));
    for byte in 0..=255u8 {
        let low = get_bits(byte, 0, 3);
        let middle = get_bits(byte, 3, 2);
        let high = get_bits(byte, 5, 3);
        assert_eq!(low + 8 * middle + 32 * high, byte);
    }
}
