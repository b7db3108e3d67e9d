//! The consumer camera 1 pack.
use vstd::prelude::*;

use crate::pack::camera_common::check_focus_position;
use crate::pack::camera_common::find_focus_position_code;
use crate::pack::camera_common::focus_position;
use crate::pack::camera_common::focus_position_check;
use crate::pack::camera_common::focus_position_code;
use crate::pack::camera_common::focus_position_of;
use crate::pack::camera_common::lemma_focus_position_code;
use crate::pack::camera_common::lemma_focus_position_of_code;
use crate::pack::camera_common::FocusMode;
use crate::pack::common::check_fits;
use crate::pack::common::check_sentinel;
use crate::pack::common::fits_check;
use crate::pack::common::sentinel_check;
use crate::pack::lookup::first_code;
use crate::pack::lookup::lemma_first_code;
use crate::pack::lookup::lemma_first_code_of_value;
use crate::pack::util::bits;
use crate::pack::util::get_bits;
use crate::pack::util::with_bits;
use crate::pack::util::lemma_byte_4_4;
use crate::pack::util::lemma_byte_5_3;
use crate::pack::util::lemma_byte_6_2;
use crate::pack::util::lemma_byte_7_1;
use crate::pack::DecodeError;
use crate::pack::PackContext;
use crate::pack::PackData;
use crate::pack::RawPackData;
use crate::report::entry;
use crate::report::Field;
use crate::report::FieldError;
use crate::report::Report;
use crate::report::Violation;

verus! {

/// Auto exposure mode of the consumer camera
#[derive(Debug, PartialEq, Eq, Hash, Clone, Copy, Structural)]
pub enum AutoExposureMode {
    /// Full automatic mode
    FullAutomatic,
    /// Gain priority mode
    GainPriority,
    /// Shutter priority mode
    ShutterPriority,
    /// Iris priority mode
    IrisPriority,
    /// Manual mode
    Manual,
    Reserved5,
    Reserved6,
    Reserved7,
    Reserved8,
    Reserved9,
    Reserved10,
    Reserved11,
    Reserved12,
    Reserved13,
    Reserved14,
}

impl AutoExposureMode {
    /// The code of the value in its field of 4 bits.
    pub open spec fn code(self) -> u8 {
        match self {
            AutoExposureMode::FullAutomatic => 0x0u8,
            AutoExposureMode::GainPriority => 0x1u8,
            AutoExposureMode::ShutterPriority => 0x2u8,
            AutoExposureMode::IrisPriority => 0x3u8,
            AutoExposureMode::Manual => 0x4u8,
            AutoExposureMode::Reserved5 => 0x5u8,
            AutoExposureMode::Reserved6 => 0x6u8,
            AutoExposureMode::Reserved7 => 0x7u8,
            AutoExposureMode::Reserved8 => 0x8u8,
            AutoExposureMode::Reserved9 => 0x9u8,
            AutoExposureMode::Reserved10 => 0xau8,
            AutoExposureMode::Reserved11 => 0xbu8,
            AutoExposureMode::Reserved12 => 0xcu8,
            AutoExposureMode::Reserved13 => 0xdu8,
            AutoExposureMode::Reserved14 => 0xeu8,
        }
    }

    /// The code of a value that may be absent: every bit set stands for
    /// "no information".
    pub open spec fn optional_code(value: Option<AutoExposureMode>) -> u8 {
        match value {
            Some(v) => v.code(),
            None => 0xfu8,
        }
    }

    /// The value with the given code, absent for the code with every bit set.
    pub open spec fn with_optional_code(code: u8) -> Option<AutoExposureMode> {
        if code == 0 {
            Some(AutoExposureMode::FullAutomatic)
        } else if code == 1 {
            Some(AutoExposureMode::GainPriority)
        } else if code == 2 {
            Some(AutoExposureMode::ShutterPriority)
        } else if code == 3 {
            Some(AutoExposureMode::IrisPriority)
        } else if code == 4 {
            Some(AutoExposureMode::Manual)
        } else if code == 5 {
            Some(AutoExposureMode::Reserved5)
        } else if code == 6 {
            Some(AutoExposureMode::Reserved6)
        } else if code == 7 {
            Some(AutoExposureMode::Reserved7)
        } else if code == 8 {
            Some(AutoExposureMode::Reserved8)
        } else if code == 9 {
            Some(AutoExposureMode::Reserved9)
        } else if code == 10 {
            Some(AutoExposureMode::Reserved10)
        } else if code == 11 {
            Some(AutoExposureMode::Reserved11)
        } else if code == 12 {
            Some(AutoExposureMode::Reserved12)
        } else if code == 13 {
            Some(AutoExposureMode::Reserved13)
        } else if code == 14 {
            Some(AutoExposureMode::Reserved14)
        } else {
            None
        }
    }

    pub fn to_optional_bits(value: Option<AutoExposureMode>) -> (r: u8)
        ensures
            r == AutoExposureMode::optional_code(value),
            r < 16,
            AutoExposureMode::with_optional_code(r) == value,
    {
        match value {
            Some(AutoExposureMode::FullAutomatic) => 0x0,
            Some(AutoExposureMode::GainPriority) => 0x1,
            Some(AutoExposureMode::ShutterPriority) => 0x2,
            Some(AutoExposureMode::IrisPriority) => 0x3,
            Some(AutoExposureMode::Manual) => 0x4,
            Some(AutoExposureMode::Reserved5) => 0x5,
            Some(AutoExposureMode::Reserved6) => 0x6,
            Some(AutoExposureMode::Reserved7) => 0x7,
            Some(AutoExposureMode::Reserved8) => 0x8,
            Some(AutoExposureMode::Reserved9) => 0x9,
            Some(AutoExposureMode::Reserved10) => 0xa,
            Some(AutoExposureMode::Reserved11) => 0xb,
            Some(AutoExposureMode::Reserved12) => 0xc,
            Some(AutoExposureMode::Reserved13) => 0xd,
            Some(AutoExposureMode::Reserved14) => 0xe,
            None => 0xf,
        }
    }

    pub fn from_optional_bits(bits: u8) -> (r: Option<AutoExposureMode>)
        requires
            bits < 16,
        ensures
            r == AutoExposureMode::with_optional_code(bits),
            AutoExposureMode::optional_code(r) == bits,
    {
        if bits == 0 {
            Some(AutoExposureMode::FullAutomatic)
        } else if bits == 1 {
            Some(AutoExposureMode::GainPriority)
        } else if bits == 2 {
            Some(AutoExposureMode::ShutterPriority)
        } else if bits == 3 {
            Some(AutoExposureMode::IrisPriority)
        } else if bits == 4 {
            Some(AutoExposureMode::Manual)
        } else if bits == 5 {
            Some(AutoExposureMode::Reserved5)
        } else if bits == 6 {
            Some(AutoExposureMode::Reserved6)
        } else if bits == 7 {
            Some(AutoExposureMode::Reserved7)
        } else if bits == 8 {
            Some(AutoExposureMode::Reserved8)
        } else if bits == 9 {
            Some(AutoExposureMode::Reserved9)
        } else if bits == 10 {
            Some(AutoExposureMode::Reserved10)
        } else if bits == 11 {
            Some(AutoExposureMode::Reserved11)
        } else if bits == 12 {
            Some(AutoExposureMode::Reserved12)
        } else if bits == 13 {
            Some(AutoExposureMode::Reserved13)
        } else if bits == 14 {
            Some(AutoExposureMode::Reserved14)
        } else {
            None
        }
    }

    /// Values, present or absent, and codes below 16 correspond one to one.
    pub proof fn lemma_optional_codes(value: Option<AutoExposureMode>, code: u8)
        ensures
            AutoExposureMode::optional_code(value) < 16,
            AutoExposureMode::with_optional_code(AutoExposureMode::optional_code(value)) == value,
            code < 16 ==> AutoExposureMode::optional_code(AutoExposureMode::with_optional_code(code)) == code,
    {
    }
}

/// White balance mode of the consumer camera
#[derive(Debug, PartialEq, Eq, Hash, Clone, Copy, Structural)]
pub enum WhiteBalanceMode {
    /// Automatic mode
    Automatic,
    /// Hold mode
    Hold,
    /// One-push mode
    OnePush,
    /// Preset mode
    Preset,
    Reserved4,
    Reserved5,
    Reserved6,
}

impl WhiteBalanceMode {
    /// The code of the value in its field of 3 bits.
    pub open spec fn code(self) -> u8 {
        match self {
            WhiteBalanceMode::Automatic => 0x0u8,
            WhiteBalanceMode::Hold => 0x1u8,
            WhiteBalanceMode::OnePush => 0x2u8,
            WhiteBalanceMode::Preset => 0x3u8,
            WhiteBalanceMode::Reserved4 => 0x4u8,
            WhiteBalanceMode::Reserved5 => 0x5u8,
            WhiteBalanceMode::Reserved6 => 0x6u8,
        }
    }

    /// The code of a value that may be absent: every bit set stands for
    /// "no information".
    pub open spec fn optional_code(value: Option<WhiteBalanceMode>) -> u8 {
        match value {
            Some(v) => v.code(),
            None => 0x7u8,
        }
    }

    /// The value with the given code, absent for the code with every bit set.
    pub open spec fn with_optional_code(code: u8) -> Option<WhiteBalanceMode> {
        if code == 0 {
            Some(WhiteBalanceMode::Automatic)
        } else if code == 1 {
            Some(WhiteBalanceMode::Hold)
        } else if code == 2 {
            Some(WhiteBalanceMode::OnePush)
        } else if code == 3 {
            Some(WhiteBalanceMode::Preset)
        } else if code == 4 {
            Some(WhiteBalanceMode::Reserved4)
        } else if code == 5 {
            Some(WhiteBalanceMode::Reserved5)
        } else if code == 6 {
            Some(WhiteBalanceMode::Reserved6)
        } else {
            None
        }
    }

    pub fn to_optional_bits(value: Option<WhiteBalanceMode>) -> (r: u8)
        ensures
            r == WhiteBalanceMode::optional_code(value),
            r < 8,
            WhiteBalanceMode::with_optional_code(r) == value,
    {
        match value {
            Some(WhiteBalanceMode::Automatic) => 0x0,
            Some(WhiteBalanceMode::Hold) => 0x1,
            Some(WhiteBalanceMode::OnePush) => 0x2,
            Some(WhiteBalanceMode::Preset) => 0x3,
            Some(WhiteBalanceMode::Reserved4) => 0x4,
            Some(WhiteBalanceMode::Reserved5) => 0x5,
            Some(WhiteBalanceMode::Reserved6) => 0x6,
            None => 0x7,
        }
    }

    pub fn from_optional_bits(bits: u8) -> (r: Option<WhiteBalanceMode>)
        requires
            bits < 8,
        ensures
            r == WhiteBalanceMode::with_optional_code(bits),
            WhiteBalanceMode::optional_code(r) == bits,
    {
        if bits == 0 {
            Some(WhiteBalanceMode::Automatic)
        } else if bits == 1 {
            Some(WhiteBalanceMode::Hold)
        } else if bits == 2 {
            Some(WhiteBalanceMode::OnePush)
        } else if bits == 3 {
            Some(WhiteBalanceMode::Preset)
        } else if bits == 4 {
            Some(WhiteBalanceMode::Reserved4)
        } else if bits == 5 {
            Some(WhiteBalanceMode::Reserved5)
        } else if bits == 6 {
            Some(WhiteBalanceMode::Reserved6)
        } else {
            None
        }
    }

    /// Values, present or absent, and codes below 8 correspond one to one.
    pub proof fn lemma_optional_codes(value: Option<WhiteBalanceMode>, code: u8)
        ensures
            WhiteBalanceMode::optional_code(value) < 8,
            WhiteBalanceMode::with_optional_code(WhiteBalanceMode::optional_code(value)) == value,
            code < 8 ==> WhiteBalanceMode::optional_code(WhiteBalanceMode::with_optional_code(code)) == code,
    {
    }
}

/// Selected white balance value of the consumer camera
#[derive(Debug, PartialEq, Eq, Hash, Clone, Copy, Structural)]
pub enum WhiteBalance {
    /// Candle
    Candle,
    /// Incandescent lamp
    IncandescentLamp,
    /// Fluorescent lamp of low color temperature
    FluorescentLampLowColorTemperature,
    /// Fluorescent lamp of high color temperature
    FluorescentLampHighColorTemperature,
    /// Sunlight
    Sunlight,
    /// Cloudiness
    Cloudiness,
    /// Others
    Others,
    Reserved7,
    Reserved8,
    Reserved9,
    Reserved10,
    Reserved11,
    Reserved12,
    Reserved13,
    Reserved14,
    Reserved15,
    Reserved16,
    Reserved17,
    Reserved18,
    Reserved19,
    Reserved20,
    Reserved21,
    Reserved22,
    Reserved23,
    Reserved24,
    Reserved25,
    Reserved26,
    Reserved27,
    Reserved28,
    Reserved29,
    Reserved30,
}

impl WhiteBalance {
    /// The code of the value in its field of 5 bits.
    pub open spec fn code(self) -> u8 {
        match self {
            WhiteBalance::Candle => 0x0u8,
            WhiteBalance::IncandescentLamp => 0x1u8,
            WhiteBalance::FluorescentLampLowColorTemperature => 0x2u8,
            WhiteBalance::FluorescentLampHighColorTemperature => 0x3u8,
            WhiteBalance::Sunlight => 0x4u8,
            WhiteBalance::Cloudiness => 0x5u8,
            WhiteBalance::Others => 0x6u8,
            WhiteBalance::Reserved7 => 0x7u8,
            WhiteBalance::Reserved8 => 0x8u8,
            WhiteBalance::Reserved9 => 0x9u8,
            WhiteBalance::Reserved10 => 0xau8,
            WhiteBalance::Reserved11 => 0xbu8,
            WhiteBalance::Reserved12 => 0xcu8,
            WhiteBalance::Reserved13 => 0xdu8,
            WhiteBalance::Reserved14 => 0xeu8,
            WhiteBalance::Reserved15 => 0xfu8,
            WhiteBalance::Reserved16 => 0x10u8,
            WhiteBalance::Reserved17 => 0x11u8,
            WhiteBalance::Reserved18 => 0x12u8,
            WhiteBalance::Reserved19 => 0x13u8,
            WhiteBalance::Reserved20 => 0x14u8,
            WhiteBalance::Reserved21 => 0x15u8,
            WhiteBalance::Reserved22 => 0x16u8,
            WhiteBalance::Reserved23 => 0x17u8,
            WhiteBalance::Reserved24 => 0x18u8,
            WhiteBalance::Reserved25 => 0x19u8,
            WhiteBalance::Reserved26 => 0x1au8,
            WhiteBalance::Reserved27 => 0x1bu8,
            WhiteBalance::Reserved28 => 0x1cu8,
            WhiteBalance::Reserved29 => 0x1du8,
            WhiteBalance::Reserved30 => 0x1eu8,
        }
    }

    /// The code of a value that may be absent: every bit set stands for
    /// "no information".
    pub open spec fn optional_code(value: Option<WhiteBalance>) -> u8 {
        match value {
            Some(v) => v.code(),
            None => 0x1fu8,
        }
    }

    /// The value with the given code, absent for the code with every bit set.
    pub open spec fn with_optional_code(code: u8) -> Option<WhiteBalance> {
        if code == 0 {
            Some(WhiteBalance::Candle)
        } else if code == 1 {
            Some(WhiteBalance::IncandescentLamp)
        } else if code == 2 {
            Some(WhiteBalance::FluorescentLampLowColorTemperature)
        } else if code == 3 {
            Some(WhiteBalance::FluorescentLampHighColorTemperature)
        } else if code == 4 {
            Some(WhiteBalance::Sunlight)
        } else if code == 5 {
            Some(WhiteBalance::Cloudiness)
        } else if code == 6 {
            Some(WhiteBalance::Others)
        } else if code == 7 {
            Some(WhiteBalance::Reserved7)
        } else if code == 8 {
            Some(WhiteBalance::Reserved8)
        } else if code == 9 {
            Some(WhiteBalance::Reserved9)
        } else if code == 10 {
            Some(WhiteBalance::Reserved10)
        } else if code == 11 {
            Some(WhiteBalance::Reserved11)
        } else if code == 12 {
            Some(WhiteBalance::Reserved12)
        } else if code == 13 {
            Some(WhiteBalance::Reserved13)
        } else if code == 14 {
            Some(WhiteBalance::Reserved14)
        } else if code == 15 {
            Some(WhiteBalance::Reserved15)
        } else if code == 16 {
            Some(WhiteBalance::Reserved16)
        } else if code == 17 {
            Some(WhiteBalance::Reserved17)
        } else if code == 18 {
            Some(WhiteBalance::Reserved18)
        } else if code == 19 {
            Some(WhiteBalance::Reserved19)
        } else if code == 20 {
            Some(WhiteBalance::Reserved20)
        } else if code == 21 {
            Some(WhiteBalance::Reserved21)
        } else if code == 22 {
            Some(WhiteBalance::Reserved22)
        } else if code == 23 {
            Some(WhiteBalance::Reserved23)
        } else if code == 24 {
            Some(WhiteBalance::Reserved24)
        } else if code == 25 {
            Some(WhiteBalance::Reserved25)
        } else if code == 26 {
            Some(WhiteBalance::Reserved26)
        } else if code == 27 {
            Some(WhiteBalance::Reserved27)
        } else if code == 28 {
            Some(WhiteBalance::Reserved28)
        } else if code == 29 {
            Some(WhiteBalance::Reserved29)
        } else if code == 30 {
            Some(WhiteBalance::Reserved30)
        } else {
            None
        }
    }

    pub fn to_optional_bits(value: Option<WhiteBalance>) -> (r: u8)
        ensures
            r == WhiteBalance::optional_code(value),
            r < 32,
            WhiteBalance::with_optional_code(r) == value,
    {
        match value {
            Some(WhiteBalance::Candle) => 0x0,
            Some(WhiteBalance::IncandescentLamp) => 0x1,
            Some(WhiteBalance::FluorescentLampLowColorTemperature) => 0x2,
            Some(WhiteBalance::FluorescentLampHighColorTemperature) => 0x3,
            Some(WhiteBalance::Sunlight) => 0x4,
            Some(WhiteBalance::Cloudiness) => 0x5,
            Some(WhiteBalance::Others) => 0x6,
            Some(WhiteBalance::Reserved7) => 0x7,
            Some(WhiteBalance::Reserved8) => 0x8,
            Some(WhiteBalance::Reserved9) => 0x9,
            Some(WhiteBalance::Reserved10) => 0xa,
            Some(WhiteBalance::Reserved11) => 0xb,
            Some(WhiteBalance::Reserved12) => 0xc,
            Some(WhiteBalance::Reserved13) => 0xd,
            Some(WhiteBalance::Reserved14) => 0xe,
            Some(WhiteBalance::Reserved15) => 0xf,
            Some(WhiteBalance::Reserved16) => 0x10,
            Some(WhiteBalance::Reserved17) => 0x11,
            Some(WhiteBalance::Reserved18) => 0x12,
            Some(WhiteBalance::Reserved19) => 0x13,
            Some(WhiteBalance::Reserved20) => 0x14,
            Some(WhiteBalance::Reserved21) => 0x15,
            Some(WhiteBalance::Reserved22) => 0x16,
            Some(WhiteBalance::Reserved23) => 0x17,
            Some(WhiteBalance::Reserved24) => 0x18,
            Some(WhiteBalance::Reserved25) => 0x19,
            Some(WhiteBalance::Reserved26) => 0x1a,
            Some(WhiteBalance::Reserved27) => 0x1b,
            Some(WhiteBalance::Reserved28) => 0x1c,
            Some(WhiteBalance::Reserved29) => 0x1d,
            Some(WhiteBalance::Reserved30) => 0x1e,
            None => 0x1f,
        }
    }

    pub fn from_optional_bits(bits: u8) -> (r: Option<WhiteBalance>)
        requires
            bits < 32,
        ensures
            r == WhiteBalance::with_optional_code(bits),
            WhiteBalance::optional_code(r) == bits,
    {
        if bits == 0 {
            Some(WhiteBalance::Candle)
        } else if bits == 1 {
            Some(WhiteBalance::IncandescentLamp)
        } else if bits == 2 {
            Some(WhiteBalance::FluorescentLampLowColorTemperature)
        } else if bits == 3 {
            Some(WhiteBalance::FluorescentLampHighColorTemperature)
        } else if bits == 4 {
            Some(WhiteBalance::Sunlight)
        } else if bits == 5 {
            Some(WhiteBalance::Cloudiness)
        } else if bits == 6 {
            Some(WhiteBalance::Others)
        } else if bits == 7 {
            Some(WhiteBalance::Reserved7)
        } else if bits == 8 {
            Some(WhiteBalance::Reserved8)
        } else if bits == 9 {
            Some(WhiteBalance::Reserved9)
        } else if bits == 10 {
            Some(WhiteBalance::Reserved10)
        } else if bits == 11 {
            Some(WhiteBalance::Reserved11)
        } else if bits == 12 {
            Some(WhiteBalance::Reserved12)
        } else if bits == 13 {
            Some(WhiteBalance::Reserved13)
        } else if bits == 14 {
            Some(WhiteBalance::Reserved14)
        } else if bits == 15 {
            Some(WhiteBalance::Reserved15)
        } else if bits == 16 {
            Some(WhiteBalance::Reserved16)
        } else if bits == 17 {
            Some(WhiteBalance::Reserved17)
        } else if bits == 18 {
            Some(WhiteBalance::Reserved18)
        } else if bits == 19 {
            Some(WhiteBalance::Reserved19)
        } else if bits == 20 {
            Some(WhiteBalance::Reserved20)
        } else if bits == 21 {
            Some(WhiteBalance::Reserved21)
        } else if bits == 22 {
            Some(WhiteBalance::Reserved22)
        } else if bits == 23 {
            Some(WhiteBalance::Reserved23)
        } else if bits == 24 {
            Some(WhiteBalance::Reserved24)
        } else if bits == 25 {
            Some(WhiteBalance::Reserved25)
        } else if bits == 26 {
            Some(WhiteBalance::Reserved26)
        } else if bits == 27 {
            Some(WhiteBalance::Reserved27)
        } else if bits == 28 {
            Some(WhiteBalance::Reserved28)
        } else if bits == 29 {
            Some(WhiteBalance::Reserved29)
        } else if bits == 30 {
            Some(WhiteBalance::Reserved30)
        } else {
            None
        }
    }

    /// Values, present or absent, and codes below 32 correspond one to one.
    pub proof fn lemma_optional_codes(value: Option<WhiteBalance>, code: u8)
        ensures
            WhiteBalance::optional_code(value) < 32,
            WhiteBalance::with_optional_code(WhiteBalance::optional_code(value)) == value,
            code < 32 ==> WhiteBalance::optional_code(WhiteBalance::with_optional_code(code)) == code,
    {
    }
}

/// An F-number with one decimal place, held as its tenfold: F1.4 is 14.
#[derive(Debug, PartialEq, Eq, Hash, Clone, Copy, Structural)]
pub struct FNumber {
    pub tenths: u16,
}

/// Provides some of the settings used by a consumer camera to record the
/// video.
///
/// DV standards:
///
/// - IEC 61834-4:1998 Section 10.1 - Consumer Camera 1 (CAMERA)
#[derive(Debug, PartialEq, Eq, Hash, Clone, Copy, Structural)]
pub struct CameraConsumer1 {
    /// Auto exposure mode
    pub auto_exposure_mode: Option<AutoExposureMode>,
    /// Iris, as an F-number with one decimal place: one of those that
    /// [`CameraConsumer1::valid_iris_values`] gives. F0.0 stands for an iris
    /// under F1.0, F999.9 for a closed iris.
    pub iris: Option<FNumber>,
    /// Value of the automatic gain control, below `0xF`.
    pub auto_gain_control: Option<u8>,
    /// White balance mode
    pub white_balance_mode: Option<WhiteBalanceMode>,
    /// Selected white balance value
    pub white_balance: Option<WhiteBalance>,
    /// Focus mode
    pub focus_mode: FocusMode,
    /// Focus position in terms of length, in centimeters: one of those that
    /// [`CameraConsumer1::valid_focus_positions`] gives.
    pub focus_position: Option<u16>,
    /// Reserved bits, two of them; should normally be set to `0x3`.
    pub reserved: u8,
}

/// The iris of a code of six bits: none for `0x3F`, closed for `0x3E`, under
/// F1.0 for `0x3D`, and for a code up to `0x3C` two to the power of an eighth
/// of the code, with one decimal place.
pub open spec fn iris_of(code: u8) -> Option<FNumber> {
    if code == 0 {
        Some(FNumber { tenths: 10u16 })
    } else if code == 1 {
        Some(FNumber { tenths: 11u16 })
    } else if code == 2 {
        Some(FNumber { tenths: 12u16 })
    } else if code == 3 {
        Some(FNumber { tenths: 13u16 })
    } else if code == 4 {
        Some(FNumber { tenths: 14u16 })
    } else if code == 5 {
        Some(FNumber { tenths: 15u16 })
    } else if code == 6 {
        Some(FNumber { tenths: 17u16 })
    } else if code == 7 {
        Some(FNumber { tenths: 18u16 })
    } else if code == 8 {
        Some(FNumber { tenths: 20u16 })
    } else if code == 9 {
        Some(FNumber { tenths: 22u16 })
    } else if code == 10 {
        Some(FNumber { tenths: 24u16 })
    } else if code == 11 {
        Some(FNumber { tenths: 26u16 })
    } else if code == 12 {
        Some(FNumber { tenths: 28u16 })
    } else if code == 13 {
        Some(FNumber { tenths: 31u16 })
    } else if code == 14 {
        Some(FNumber { tenths: 34u16 })
    } else if code == 15 {
        Some(FNumber { tenths: 37u16 })
    } else if code == 16 {
        Some(FNumber { tenths: 40u16 })
    } else if code == 17 {
        Some(FNumber { tenths: 44u16 })
    } else if code == 18 {
        Some(FNumber { tenths: 48u16 })
    } else if code == 19 {
        Some(FNumber { tenths: 52u16 })
    } else if code == 20 {
        Some(FNumber { tenths: 57u16 })
    } else if code == 21 {
        Some(FNumber { tenths: 62u16 })
    } else if code == 22 {
        Some(FNumber { tenths: 67u16 })
    } else if code == 23 {
        Some(FNumber { tenths: 73u16 })
    } else if code == 24 {
        Some(FNumber { tenths: 80u16 })
    } else if code == 25 {
        Some(FNumber { tenths: 87u16 })
    } else if code == 26 {
        Some(FNumber { tenths: 95u16 })
    } else if code == 27 {
        Some(FNumber { tenths: 104u16 })
    } else if code == 28 {
        Some(FNumber { tenths: 113u16 })
    } else if code == 29 {
        Some(FNumber { tenths: 123u16 })
    } else if code == 30 {
        Some(FNumber { tenths: 135u16 })
    } else if code == 31 {
        Some(FNumber { tenths: 147u16 })
    } else if code == 32 {
        Some(FNumber { tenths: 160u16 })
    } else if code == 33 {
        Some(FNumber { tenths: 174u16 })
    } else if code == 34 {
        Some(FNumber { tenths: 190u16 })
    } else if code == 35 {
        Some(FNumber { tenths: 207u16 })
    } else if code == 36 {
        Some(FNumber { tenths: 226u16 })
    } else if code == 37 {
        Some(FNumber { tenths: 247u16 })
    } else if code == 38 {
        Some(FNumber { tenths: 269u16 })
    } else if code == 39 {
        Some(FNumber { tenths: 293u16 })
    } else if code == 40 {
        Some(FNumber { tenths: 320u16 })
    } else if code == 41 {
        Some(FNumber { tenths: 349u16 })
    } else if code == 42 {
        Some(FNumber { tenths: 381u16 })
    } else if code == 43 {
        Some(FNumber { tenths: 415u16 })
    } else if code == 44 {
        Some(FNumber { tenths: 453u16 })
    } else if code == 45 {
        Some(FNumber { tenths: 494u16 })
    } else if code == 46 {
        Some(FNumber { tenths: 538u16 })
    } else if code == 47 {
        Some(FNumber { tenths: 587u16 })
    } else if code == 48 {
        Some(FNumber { tenths: 640u16 })
    } else if code == 49 {
        Some(FNumber { tenths: 698u16 })
    } else if code == 50 {
        Some(FNumber { tenths: 761u16 })
    } else if code == 51 {
        Some(FNumber { tenths: 830u16 })
    } else if code == 52 {
        Some(FNumber { tenths: 905u16 })
    } else if code == 53 {
        Some(FNumber { tenths: 987u16 })
    } else if code == 54 {
        Some(FNumber { tenths: 1076u16 })
    } else if code == 55 {
        Some(FNumber { tenths: 1174u16 })
    } else if code == 56 {
        Some(FNumber { tenths: 1280u16 })
    } else if code == 57 {
        Some(FNumber { tenths: 1396u16 })
    } else if code == 58 {
        Some(FNumber { tenths: 1522u16 })
    } else if code == 59 {
        Some(FNumber { tenths: 1660u16 })
    } else if code == 60 {
        Some(FNumber { tenths: 1810u16 })
    } else if code == 0x3D {
        Some(FNumber { tenths: 0u16 })
    } else if code == 0x3E {
        Some(FNumber { tenths: 9999u16 })
    } else {
        None
    }
}

/// The code of an iris: the one that stands for it.
pub open spec fn iris_code(iris: Option<FNumber>) -> Option<u8> {
    first_code(|code: u8| iris_of(code), iris, 0, 64)
}

/// An iris is absent or has a code.
pub open spec fn iris_check(iris: Option<FNumber>) -> Result<(), Violation> {
    match iris {
        None => Ok(()),
        Some(i) => if iris_code(iris) is Some {
            Ok(())
        } else {
            Err(Violation::IrisUnsupported { iris: i.tenths })
        },
    }
}

/// Computes [`iris_of`].
pub fn iris_value(code: u8) -> (r: Option<FNumber>)
    ensures
        r == iris_of(code),
{
    if code == 0 {
        Some(FNumber { tenths: 10 })
    } else if code == 1 {
        Some(FNumber { tenths: 11 })
    } else if code == 2 {
        Some(FNumber { tenths: 12 })
    } else if code == 3 {
        Some(FNumber { tenths: 13 })
    } else if code == 4 {
        Some(FNumber { tenths: 14 })
    } else if code == 5 {
        Some(FNumber { tenths: 15 })
    } else if code == 6 {
        Some(FNumber { tenths: 17 })
    } else if code == 7 {
        Some(FNumber { tenths: 18 })
    } else if code == 8 {
        Some(FNumber { tenths: 20 })
    } else if code == 9 {
        Some(FNumber { tenths: 22 })
    } else if code == 10 {
        Some(FNumber { tenths: 24 })
    } else if code == 11 {
        Some(FNumber { tenths: 26 })
    } else if code == 12 {
        Some(FNumber { tenths: 28 })
    } else if code == 13 {
        Some(FNumber { tenths: 31 })
    } else if code == 14 {
        Some(FNumber { tenths: 34 })
    } else if code == 15 {
        Some(FNumber { tenths: 37 })
    } else if code == 16 {
        Some(FNumber { tenths: 40 })
    } else if code == 17 {
        Some(FNumber { tenths: 44 })
    } else if code == 18 {
        Some(FNumber { tenths: 48 })
    } else if code == 19 {
        Some(FNumber { tenths: 52 })
    } else if code == 20 {
        Some(FNumber { tenths: 57 })
    } else if code == 21 {
        Some(FNumber { tenths: 62 })
    } else if code == 22 {
        Some(FNumber { tenths: 67 })
    } else if code == 23 {
        Some(FNumber { tenths: 73 })
    } else if code == 24 {
        Some(FNumber { tenths: 80 })
    } else if code == 25 {
        Some(FNumber { tenths: 87 })
    } else if code == 26 {
        Some(FNumber { tenths: 95 })
    } else if code == 27 {
        Some(FNumber { tenths: 104 })
    } else if code == 28 {
        Some(FNumber { tenths: 113 })
    } else if code == 29 {
        Some(FNumber { tenths: 123 })
    } else if code == 30 {
        Some(FNumber { tenths: 135 })
    } else if code == 31 {
        Some(FNumber { tenths: 147 })
    } else if code == 32 {
        Some(FNumber { tenths: 160 })
    } else if code == 33 {
        Some(FNumber { tenths: 174 })
    } else if code == 34 {
        Some(FNumber { tenths: 190 })
    } else if code == 35 {
        Some(FNumber { tenths: 207 })
    } else if code == 36 {
        Some(FNumber { tenths: 226 })
    } else if code == 37 {
        Some(FNumber { tenths: 247 })
    } else if code == 38 {
        Some(FNumber { tenths: 269 })
    } else if code == 39 {
        Some(FNumber { tenths: 293 })
    } else if code == 40 {
        Some(FNumber { tenths: 320 })
    } else if code == 41 {
        Some(FNumber { tenths: 349 })
    } else if code == 42 {
        Some(FNumber { tenths: 381 })
    } else if code == 43 {
        Some(FNumber { tenths: 415 })
    } else if code == 44 {
        Some(FNumber { tenths: 453 })
    } else if code == 45 {
        Some(FNumber { tenths: 494 })
    } else if code == 46 {
        Some(FNumber { tenths: 538 })
    } else if code == 47 {
        Some(FNumber { tenths: 587 })
    } else if code == 48 {
        Some(FNumber { tenths: 640 })
    } else if code == 49 {
        Some(FNumber { tenths: 698 })
    } else if code == 50 {
        Some(FNumber { tenths: 761 })
    } else if code == 51 {
        Some(FNumber { tenths: 830 })
    } else if code == 52 {
        Some(FNumber { tenths: 905 })
    } else if code == 53 {
        Some(FNumber { tenths: 987 })
    } else if code == 54 {
        Some(FNumber { tenths: 1076 })
    } else if code == 55 {
        Some(FNumber { tenths: 1174 })
    } else if code == 56 {
        Some(FNumber { tenths: 1280 })
    } else if code == 57 {
        Some(FNumber { tenths: 1396 })
    } else if code == 58 {
        Some(FNumber { tenths: 1522 })
    } else if code == 59 {
        Some(FNumber { tenths: 1660 })
    } else if code == 60 {
        Some(FNumber { tenths: 1810 })
    } else if code == 0x3D {
        Some(FNumber { tenths: 0 })
    } else if code == 0x3E {
        Some(FNumber { tenths: 9999 })
    } else {
        None
    }
}

/// Whether two irises, present or absent, are one.
fn same_iris(a: Option<FNumber>, b: Option<FNumber>) -> (r: bool)
    ensures
        r == (a == b),
{
    match (a, b) {
        (None, None) => true,
        (Some(x), Some(y)) => x.tenths == y.tenths,
        _ => false,
    }
}

/// Computes [`iris_code`].
pub fn find_iris_code(iris: Option<FNumber>) -> (r: Option<u8>)
    ensures
        r == iris_code(iris),
{
    let ghost table = |code: u8| iris_of(code);
    let mut code: u8 = 0;
    while code < 64
        invariant
            code <= 64,
            table == (|code: u8| iris_of(code)),
            first_code(table, iris, 0, 64) == first_code(table, iris, code as nat, 64),
        decreases 64 - code,
    {
        if same_iris(iris_value(code), iris) {
            assert(table(code) == iris);
            return Some(code);
        }
        assert(table(code) != iris);
        code = code + 1;
    }
    None
}

/// An iris is one of those that a code stands for.
pub fn check_iris(iris: Option<FNumber>) -> (r: Result<(), Violation>)
    ensures
        r == iris_check(iris),
{
    match iris {
        None => Ok(()),
        Some(i) => if find_iris_code(iris).is_some() {
            Ok(())
        } else {
            Err(Violation::IrisUnsupported { iris: i.tenths })
        },
    }
}

/// An automatic gain control without information is given as `None`, not as
/// `Some(0xF)`.
pub fn check_auto_gain_control(auto_gain_control: Option<u8>) -> (r: Result<(), Violation>)
    ensures
        r == sentinel_check(auto_gain_control, 0xF),
{
    check_sentinel(auto_gain_control, 0xF)
}

/// From one code to the next, up to `0x3C`, the iris grows.
pub proof fn lemma_iris_grows(code: u8)
    requires
        code < 0x3C,
    ensures
        10 <= iris_of(code)->Some_0.tenths < iris_of((code + 1) as u8)->Some_0.tenths <= 1810,
{
}

/// Among the codes up to `0x3C`, a larger code has a larger iris.
pub proof fn lemma_iris_ordered(a: u8, b: u8)
    requires
        a < b <= 0x3C,
    ensures
        10 <= iris_of(a)->Some_0.tenths < iris_of(b)->Some_0.tenths <= 1810,
    decreases b - a,
{
    if a + 1 == b {
        lemma_iris_grows(a);
    } else {
        lemma_iris_ordered(a, (b - 1) as u8);
        lemma_iris_grows((b - 1) as u8);
    }
}

/// No two codes stand for one iris, nor for none.
pub proof fn lemma_iris_codes_differ(a: u8, b: u8)
    requires
        a < 64,
        b < 64,
        iris_of(a) == iris_of(b),
    ensures
        a == b,
{
    if a < b {
        if b <= 0x3C {
            lemma_iris_ordered(a, b);
        } else if a <= 0x3C {
            if a > 0 {
                lemma_iris_ordered(0, a);
            }
        }
    } else if b < a {
        if a <= 0x3C {
            lemma_iris_ordered(b, a);
        } else if b <= 0x3C {
            if b > 0 {
                lemma_iris_ordered(0, b);
            }
        }
    }
}

/// The code of the iris of a code is the code: law of the table of iris
/// values.
pub proof fn lemma_iris_code(code: u8)
    requires
        code < 64,
    ensures
        iris_code(iris_of(code)) == Some(code),
{
    let table = |code: u8| iris_of(code);
    assert forall|a: u8, b: u8|
        a < 64 && b < 64 && #[trigger] table(a) == #[trigger] table(b) implies a == b by {
        lemma_iris_codes_differ(a, b);
    }
    lemma_first_code_of_value(table, code, 64);
}

/// The bit fields of a consumer camera 1 payload.
pub struct RawCameraConsumer1 {
    pub iris: u8,
    pub reserved: u8,
    pub agc: u8,
    pub ae_mode: u8,
    pub white_balance: u8,
    pub wb_mode: u8,
    pub focus: u8,
    pub fcm: u8,
}

impl RawCameraConsumer1 {
    /// Every field fits into its bits.
    pub open spec fn wf(self) -> bool {
        &&& self.iris < 64
        &&& self.reserved < 4
        &&& self.agc < 16
        &&& self.ae_mode < 16
        &&& self.white_balance < 32
        &&& self.wb_mode < 8
        &&& self.focus < 128
        &&& self.fcm < 2
    }

    /// The fields of a payload, by byte and bits (lowest bits first where a
    /// field has several parts): `iris` 1:0-5, `reserved` 1:6-7, `agc` 2:0-3,
    /// `ae_mode` 2:4-7, `white_balance` 3:0-4, `wb_mode` 3:5-7, `focus` 4:0-6,
    /// `fcm` 4:7.
    pub open spec fn unpack(raw: RawPackData) -> RawCameraConsumer1 {
        RawCameraConsumer1 {
            iris: bits(raw[0], 0, 6),
            reserved: bits(raw[0], 6, 2),
            agc: bits(raw[1], 0, 4),
            ae_mode: bits(raw[1], 4, 4),
            white_balance: bits(raw[2], 0, 5),
            wb_mode: bits(raw[2], 5, 3),
            focus: bits(raw[3], 0, 7),
            fcm: bits(raw[3], 7, 1),
        }
    }

    /// First byte of the payload.
    pub open spec fn pc1(self) -> u8 {
        (self.iris + 64 * self.reserved) as u8
    }

    /// Second byte of the payload.
    pub open spec fn pc2(self) -> u8 {
        (self.agc + 16 * self.ae_mode) as u8
    }

    /// Third byte of the payload.
    pub open spec fn pc3(self) -> u8 {
        (self.white_balance + 32 * self.wb_mode) as u8
    }

    /// Fourth byte of the payload.
    pub open spec fn pc4(self) -> u8 {
        (self.focus + 128 * self.fcm) as u8
    }

    /// The payload that holds the fields: the inverse of
    /// [`RawCameraConsumer1::unpack`].
    pub open spec fn pack(self) -> RawPackData {
        [self.pc1(), self.pc2(), self.pc3(), self.pc4()]
    }

    /// Packing undoes unpacking.
    pub proof fn lemma_pack_unpack(raw: RawPackData)
        ensures
            Self::unpack(raw).wf(),
            Self::unpack(raw).pack() == raw,
    {
        let f = Self::unpack(raw);
        lemma_byte_6_2(raw[0]);
        lemma_byte_4_4(raw[1]);
        lemma_byte_5_3(raw[2]);
        lemma_byte_7_1(raw[3]);
        assert(f.pc1() == raw[0]);
        assert(f.pc2() == raw[1]);
        assert(f.pc3() == raw[2]);
        assert(f.pc4() == raw[3]);
    }

    proof fn lemma_unpack_pc1(self)
        requires
            self.wf(),
        ensures
            bits(self.pc1(), 0, 6) == self.iris,
            bits(self.pc1(), 6, 2) == self.reserved,
    {
    }

    proof fn lemma_unpack_pc2(self)
        requires
            self.wf(),
        ensures
            bits(self.pc2(), 0, 4) == self.agc,
            bits(self.pc2(), 4, 4) == self.ae_mode,
    {
    }

    proof fn lemma_unpack_pc3(self)
        requires
            self.wf(),
        ensures
            bits(self.pc3(), 0, 5) == self.white_balance,
            bits(self.pc3(), 5, 3) == self.wb_mode,
    {
    }

    proof fn lemma_unpack_pc4(self)
        requires
            self.wf(),
        ensures
            bits(self.pc4(), 0, 7) == self.focus,
            bits(self.pc4(), 7, 1) == self.fcm,
    {
    }

    /// Unpacking undoes packing.
    pub proof fn lemma_unpack_pack(self)
        requires
            self.wf(),
        ensures
            Self::unpack(self.pack()) == self,
    {
        self.lemma_unpack_pc1();
        self.lemma_unpack_pc2();
        self.lemma_unpack_pc3();
        self.lemma_unpack_pc4();
    }

    /// Reads the fields of a payload.
    pub fn read(raw: &RawPackData) -> (r: RawCameraConsumer1)
        ensures
            r == Self::unpack(*raw),
            r.wf(),
    {
        RawCameraConsumer1 {
            iris: get_bits(raw[0], 0, 6),
            reserved: get_bits(raw[0], 6, 2),
            agc: get_bits(raw[1], 0, 4),
            ae_mode: get_bits(raw[1], 4, 4),
            white_balance: get_bits(raw[2], 0, 5),
            wb_mode: get_bits(raw[2], 5, 3),
            focus: get_bits(raw[3], 0, 7),
            fcm: get_bits(raw[3], 7, 1),
        }
    }

    /// Writes the payload that holds the fields.
    pub fn write(&self) -> (r: RawPackData)
        requires
            self.wf(),
        ensures
            r == self.pack(),
    {
        [
            self.iris + 64 * self.reserved,
            self.agc + 16 * self.ae_mode,
            self.white_balance + 32 * self.wb_mode,
            self.focus + 128 * self.fcm,
        ]
    }
}

/// The consumer camera 1 that the fields stand for. Every payload stands for
/// one.
pub open spec fn camera_consumer_1_of(f: RawCameraConsumer1) -> CameraConsumer1 {
    CameraConsumer1 {
        auto_exposure_mode: AutoExposureMode::with_optional_code(f.ae_mode),
        iris: iris_of(f.iris),
        auto_gain_control: if f.agc == 0xF {
            None
        } else {
            Some(f.agc)
        },
        white_balance_mode: WhiteBalanceMode::with_optional_code(f.wb_mode),
        white_balance: WhiteBalance::with_optional_code(f.white_balance),
        focus_mode: FocusMode::with_code(f.fcm),
        focus_position: focus_position_of(f.focus),
        reserved: f.reserved,
    }
}

/// The fields that stand for a consumer camera 1.
pub open spec fn fields_of(v: CameraConsumer1) -> RawCameraConsumer1 {
    RawCameraConsumer1 {
        iris: match iris_code(v.iris) {
            Some(code) => code,
            None => 0x3Fu8,
        },
        reserved: v.reserved,
        agc: match v.auto_gain_control {
            Some(g) => g,
            None => 0xFu8,
        },
        ae_mode: AutoExposureMode::optional_code(v.auto_exposure_mode),
        white_balance: WhiteBalance::optional_code(v.white_balance),
        wb_mode: WhiteBalanceMode::optional_code(v.white_balance_mode),
        focus: match focus_position_code(v.focus_position) {
            Some(code) => code,
            None => 0x7Fu8,
        },
        fcm: v.focus_mode.code(),
    }
}

/// Reads the consumer camera 1 that the fields stand for.
pub fn camera_consumer_1_from_fields(f: &RawCameraConsumer1) -> (r: CameraConsumer1)
    requires
        f.wf(),
    ensures
        r == camera_consumer_1_of(*f),
{
    CameraConsumer1 {
        auto_exposure_mode: AutoExposureMode::from_optional_bits(f.ae_mode),
        iris: iris_value(f.iris),
        auto_gain_control: if f.agc == 0xF {
            None
        } else {
            Some(f.agc)
        },
        white_balance_mode: WhiteBalanceMode::from_optional_bits(f.wb_mode),
        white_balance: WhiteBalance::from_optional_bits(f.white_balance),
        focus_mode: FocusMode::from_bits(f.fcm),
        focus_position: focus_position(f.focus),
        reserved: f.reserved,
    }
}

impl CameraConsumer1 {
    /// The iris values that [`CameraConsumer1::iris`] can hold: those of the
    /// codes from 0 to `0x3E`, in the order of the codes.
    pub fn valid_iris_values() -> (r: Vec<FNumber>)
        ensures
            r@.len() == 63,
            forall|code: u8| code < 63 ==> iris_of(code) == Some(#[trigger] r@[code as int]),
    {
        let mut values: Vec<FNumber> = Vec::new();
        let mut code: u8 = 0;
        while code < 63
            invariant
                code <= 63,
                values@.len() == code,
                forall|c: u8| c < code ==> iris_of(c) == Some(#[trigger] values@[c as int]),
            decreases 63 - code,
        {
            match iris_value(code) {
                Some(iris) => {
                    values.push(iris);
                },
                None => {},
            }
            code = code + 1;
        }
        values
    }

    /// The focus positions that [`CameraConsumer1::focus_position`] can hold,
    /// each once, in the order of their codes.
    pub fn valid_focus_positions() -> (r: Vec<u16>)
        ensures
            forall|i: int|
                0 <= i < r@.len() ==> focus_position_code(Some(#[trigger] r@[i])) is Some,
            forall|code: u8|
                code < 127 ==> r@.contains(#[trigger] focus_position_of(code)->Some_0),
            forall|i: int, j: int| 0 <= i < j < r@.len() ==> r@[i] != r@[j],
    {
        let mut positions: Vec<u16> = Vec::new();
        let mut code: u8 = 0;
        while code < 127
            invariant
                code <= 127,
                forall|i: int|
                    0 <= i < positions@.len() ==> {
                        &&& focus_position_code(Some(#[trigger] positions@[i])) is Some
                        &&& focus_position_code(Some(positions@[i]))->Some_0 < code
                    },
                forall|c: u8|
                    c < code ==> positions@.contains(#[trigger] focus_position_of(c)->Some_0),
                forall|i: int, j: int|
                    0 <= i < j < positions@.len() ==> positions@[i] != positions@[j],
            decreases 127 - code,
        {
            let position = focus_position(code);
            proof {
                lemma_focus_position_code(code);
            }
            let first = find_focus_position_code(position);
            let ghost before = positions@;
            match (position, first) {
                (Some(p), Some(f)) => {
                    if f == code {
                        positions.push(p);
                        assert(positions@[before.len() as int] == p);
                        assert forall|c: u8| c < code implies positions@.contains(
                            #[trigger] focus_position_of(c)->Some_0,
                        ) by {
                            let q = focus_position_of(c)->Some_0;
                            assert(before.contains(q));
                            let i = choose|i: int| 0 <= i < before.len() && before[i] == q;
                            assert(positions@[i] == q);
                        }
                    } else {
                        assert(focus_position_of(f) == position);
                        assert(positions@.contains(focus_position_of(f)->Some_0));
                    }
                },
                _ => {},
            }
            code = code + 1;
        }
        positions
    }

    /// What the rules of the single fields say of a value without violations.
    pub proof fn lemma_valid(self, ctx: PackContext)
        requires
            self.violations(ctx).len() == 0,
        ensures
            sentinel_check(self.auto_gain_control, 0xF) is Ok,
            focus_position_check(self.focus_position) is Ok,
            iris_check(self.iris) is Ok,
            self.reserved <= 3,
    {
        assert(entry(Field::AutoGainControl, sentinel_check(self.auto_gain_control, 0xF)).len()
            == 0);
        assert(entry(Field::FocusPosition, focus_position_check(self.focus_position)).len() == 0);
        assert(entry(Field::Iris, iris_check(self.iris)).len() == 0);
        assert(entry(Field::Reserved, fits_check(self.reserved, 3)).len() == 0);
    }

    /// Writes the fields that stand for a valid consumer camera 1.
    pub fn to_fields(&self, ctx: &PackContext) -> (r: RawCameraConsumer1)
        requires
            self.violations(*ctx).len() == 0,
        ensures
            r == fields_of(*self),
            r.wf(),
    {
        proof {
            self.lemma_valid(*ctx);
            lemma_first_code(|code: u8| iris_of(code), self.iris, 0, 64);
            lemma_first_code(|code: u8| focus_position_of(code), self.focus_position, 0, 128);
        }
        RawCameraConsumer1 {
            iris: match find_iris_code(self.iris) {
                Some(code) => code,
                None => 0x3F,
            },
            reserved: self.reserved,
            agc: match self.auto_gain_control {
                Some(g) => g,
                None => 0xF,
            },
            ae_mode: AutoExposureMode::to_optional_bits(self.auto_exposure_mode),
            white_balance: WhiteBalance::to_optional_bits(self.white_balance),
            wb_mode: WhiteBalanceMode::to_optional_bits(self.white_balance_mode),
            focus: match find_focus_position_code(self.focus_position) {
                Some(code) => code,
                None => 0x7F,
            },
            fcm: self.focus_mode.to_bits(),
        }
    }

    /// A valid consumer camera 1 is read back from its fields.
    pub proof fn lemma_of_fields(self, ctx: PackContext)
        requires
            self.violations(ctx).len() == 0,
        ensures
            fields_of(self).wf(),
            camera_consumer_1_of(fields_of(self)) == self,
    {
        self.lemma_valid(ctx);
        self.focus_mode.lemma_codes(0);
        AutoExposureMode::lemma_optional_codes(self.auto_exposure_mode, 0);
        WhiteBalanceMode::lemma_optional_codes(self.white_balance_mode, 0);
        WhiteBalance::lemma_optional_codes(self.white_balance, 0);
        lemma_first_code(|code: u8| iris_of(code), self.iris, 0, 64);
        lemma_first_code(|code: u8| focus_position_of(code), self.focus_position, 0, 128);
        if self.iris is None {
            lemma_iris_code(0x3F);
        }
        if self.focus_position is None {
            lemma_focus_position_code(0x7F);
        }
    }

    /// The fields of a consumer camera 1 that was read are those it was read
    /// from, but for the focus code, which is the smallest of its position.
    pub proof fn lemma_fields_of(f: RawCameraConsumer1)
        requires
            f.wf(),
        ensures
            fields_of(camera_consumer_1_of(f)) == (RawCameraConsumer1 {
                focus: focus_position_code(focus_position_of(f.focus))->Some_0,
                ..f
            }),
    {
        let v = camera_consumer_1_of(f);
        v.focus_mode.lemma_codes(f.fcm);
        AutoExposureMode::lemma_optional_codes(v.auto_exposure_mode, f.ae_mode);
        WhiteBalanceMode::lemma_optional_codes(v.white_balance_mode, f.wb_mode);
        WhiteBalance::lemma_optional_codes(v.white_balance, f.white_balance);
        lemma_iris_code(f.iris);
        lemma_focus_position_code(f.focus);
    }
}

impl PackData for CameraConsumer1 {
    open spec fn decode(raw: RawPackData, ctx: PackContext) -> Result<Self, DecodeError> {
        Ok(camera_consumer_1_of(RawCameraConsumer1::unpack(raw)))
    }

    open spec fn violations(&self, ctx: PackContext) -> Seq<FieldError> {
        entry(Field::AutoGainControl, sentinel_check(self.auto_gain_control, 0xF)) + entry(
            Field::FocusPosition,
            focus_position_check(self.focus_position),
        ) + entry(Field::Iris, iris_check(self.iris)) + entry(
            Field::Reserved,
            fits_check(self.reserved, 3),
        )
    }

    open spec fn encode(&self, ctx: PackContext) -> RawPackData {
        fields_of(*self).pack()
    }

    /// The focus code is the smallest of those that stand for its position.
    open spec fn canonical(raw: RawPackData, ctx: PackContext) -> RawPackData {
        [
            raw[0],
            raw[1],
            raw[2],
            with_bits(
                raw[3],
                0,
                7,
                focus_position_code(focus_position_of(bits(raw[3], 0, 7)))->Some_0,
            ),
        ]
    }

    fn try_from_raw(raw: &RawPackData, ctx: &PackContext) -> (r: Result<Self, DecodeError>) {
        let fields = RawCameraConsumer1::read(raw);
        Ok(camera_consumer_1_from_fields(&fields))
    }

    fn validate_with(&self, ctx: &PackContext) -> (r: Result<(), Report>) {
        let mut report = Report::new();
        report.record(Field::AutoGainControl, check_auto_gain_control(self.auto_gain_control));
        report.record(Field::FocusPosition, check_focus_position(self.focus_position));
        report.record(Field::Iris, check_iris(self.iris));
        report.record(Field::Reserved, check_fits(self.reserved, 3));
        report.into_result()
    }

    fn write(&self, ctx: &PackContext) -> (r: RawPackData) {
        self.to_fields(ctx).write()
    }

    proof fn lemma_decode_encode(self, ctx: PackContext) {
        self.lemma_of_fields(ctx);
        fields_of(self).lemma_unpack_pack();
    }

    proof fn lemma_encode_decode(raw: RawPackData, ctx: PackContext) {
        let f = RawCameraConsumer1::unpack(raw);
        RawCameraConsumer1::lemma_pack_unpack(raw);
        Self::lemma_fields_of(f);
        lemma_focus_position_code(f.focus);
        let g = fields_of(camera_consumer_1_of(f));
        assert(g.pc1() == raw[0]);
        assert(g.pc2() == raw[1]);
        assert(g.pc3() == raw[2]);
        lemma_byte_7_1(raw[3]);
        assert(g.pc4() == Self::canonical(raw, ctx)[3]);
    }
}

} // verus!
