//! The VAUX source pack.
use vstd::prelude::*;

use crate::pack::common::check_field_count;
use crate::pack::common::check_range;
use crate::pack::common::check_sentinel;
use crate::pack::common::field_count_check;
use crate::pack::common::range_check;
use crate::pack::common::sentinel_check;
use crate::pack::util::bcd_hundreds;
use crate::pack::util::bits;
use crate::pack::util::from_bcd_hundreds;
use crate::pack::util::get_bits;
use crate::pack::util::lemma_byte_4_2_1_1;
use crate::pack::util::lemma_byte_4_4;
use crate::pack::util::lemma_byte_5_1_2;
use crate::pack::util::with_bits;
use crate::pack::BcdField;
use crate::pack::DecodeError;
use crate::pack::PackContext;
use crate::pack::PackData;
use crate::pack::RawPackData;
use crate::pack::SourceType;
use crate::report::entry;
use crate::report::Field;
use crate::report::FieldError;
use crate::report::Report;
use crate::report::Violation;

verus! {

/// Determines the input source of the original video signal.
#[derive(Debug, PartialEq, Eq, Hash, Clone, Copy, Structural)]
pub enum SourceCode {
    /// The video was recorded by a camera.
    Camera,
    /// The video was recorded from another input video signal, which uses
    /// MUSE (multiple sub-Nyquist sampling encoding).
    LineMUSE,
    /// The video was recorded from another input video signal.
    Line,
    /// The video was recorded from cable television.
    Cable,
    /// The video was recorded from a TV tuner.
    Tuner,
    /// The video is prerecorded tape.
    PrerecordedTape,
}

/// Whether the video is black and white
#[derive(Debug, PartialEq, Eq, Hash, Clone, Copy, Structural)]
pub enum BlackAndWhiteFlag {
    /// Video is black and white
    BlackAndWhite,
    /// Video is color
    Color,
}

impl BlackAndWhiteFlag {
    /// The code of the value in its field of 1 bit.
    pub open spec fn code(self) -> u8 {
        match self {
            BlackAndWhiteFlag::BlackAndWhite => 0u8,
            BlackAndWhiteFlag::Color => 1u8,
        }
    }

    /// The value with the given code.
    pub open spec fn with_code(code: u8) -> BlackAndWhiteFlag {
        if code == 0 {
            BlackAndWhiteFlag::BlackAndWhite
        } else {
            BlackAndWhiteFlag::Color
        }
    }

    pub fn to_bits(self) -> (r: u8)
        ensures
            r == self.code(),
            r < 2,
            BlackAndWhiteFlag::with_code(r) == self,
    {
        match self {
            BlackAndWhiteFlag::BlackAndWhite => 0,
            BlackAndWhiteFlag::Color => 1,
        }
    }

    pub fn from_bits(bits: u8) -> (r: BlackAndWhiteFlag)
        requires
            bits < 2,
        ensures
            r == BlackAndWhiteFlag::with_code(bits),
            r.code() == bits,
    {
        if bits == 0 {
            BlackAndWhiteFlag::BlackAndWhite
        } else {
            BlackAndWhiteFlag::Color
        }
    }

    /// Values and codes below 2 correspond one to one.
    pub proof fn lemma_codes(self, code: u8)
        ensures
            self.code() < 2,
            BlackAndWhiteFlag::with_code(self.code()) == self,
            code < 2 ==> BlackAndWhiteFlag::with_code(code).code() == code,
    {
    }
}

/// Color frames ID code.
///
/// See ITU-R Report 624-4.
#[derive(Debug, PartialEq, Eq, Hash, Clone, Copy, Structural)]
pub enum ColorFramesID {
    /// Applicable to 525-60 or 625-50 system
    CLFColorFrameAOr1_2Field,
    /// Applicable to 525-60 or 625-50 system
    CLFColorFrameBOr3_4Field,
    /// Applicable to 625-50 system
    CLF5_6Field,
    /// Applicable to 625-50 system
    CLF7_8Field,
}

impl ColorFramesID {
    /// The code of the value in its field of 2 bits.
    pub open spec fn code(self) -> u8 {
        match self {
            ColorFramesID::CLFColorFrameAOr1_2Field => 0x0u8,
            ColorFramesID::CLFColorFrameBOr3_4Field => 0x1u8,
            ColorFramesID::CLF5_6Field => 0x2u8,
            ColorFramesID::CLF7_8Field => 0x3u8,
        }
    }

    /// The value with the given code.
    pub open spec fn with_code(code: u8) -> ColorFramesID {
        if code == 0 {
            ColorFramesID::CLFColorFrameAOr1_2Field
        } else if code == 1 {
            ColorFramesID::CLFColorFrameBOr3_4Field
        } else if code == 2 {
            ColorFramesID::CLF5_6Field
        } else {
            ColorFramesID::CLF7_8Field
        }
    }

    pub fn to_bits(self) -> (r: u8)
        ensures
            r == self.code(),
            r < 4,
            ColorFramesID::with_code(r) == self,
    {
        match self {
            ColorFramesID::CLFColorFrameAOr1_2Field => 0x0,
            ColorFramesID::CLFColorFrameBOr3_4Field => 0x1,
            ColorFramesID::CLF5_6Field => 0x2,
            ColorFramesID::CLF7_8Field => 0x3,
        }
    }

    pub fn from_bits(bits: u8) -> (r: ColorFramesID)
        requires
            bits < 4,
        ensures
            r == ColorFramesID::with_code(bits),
            r.code() == bits,
    {
        if bits == 0 {
            ColorFramesID::CLFColorFrameAOr1_2Field
        } else if bits == 1 {
            ColorFramesID::CLFColorFrameBOr3_4Field
        } else if bits == 2 {
            ColorFramesID::CLF5_6Field
        } else {
            ColorFramesID::CLF7_8Field
        }
    }

    /// Values and codes below 4 correspond one to one.
    pub proof fn lemma_codes(self, code: u8)
        ensures
            self.code() < 4,
            ColorFramesID::with_code(self.code()) == self,
            code < 4 ==> ColorFramesID::with_code(code).code() == code,
    {
    }
}

/// Contains information about the video stream.
///
/// DV standards:
///
/// - IEC 61834-4:1998 Section 9.1 - Source (VAUX)
/// - SMPTE 306M-2002 Section 8.9.1 - VAUX source pack (VS)
#[derive(Debug, PartialEq, Eq, Hash, Clone, Copy, Structural)]
pub struct VAUXSource {
    /// Determines the input source of the original video signal.
    pub source_code: Option<SourceCode>,
    /// TV channel of the original video signal, from 1 to 999.
    ///
    /// The value is required if and only if [`VAUXSource::source_code`] is
    /// [`SourceCode::Cable`] or [`SourceCode::Tuner`].
    pub tv_channel: Option<u16>,
    /// Tuner category: the range of spectrum that the channels are taken from.
    ///
    /// The value is required if and only if [`VAUXSource::source_code`] is
    /// [`SourceCode::Tuner`].
    pub tuner_category: Option<u8>,
    /// Determines which video system type is in use, together with
    /// [`VAUXSource::field_count`].
    pub source_type: SourceType,
    /// The number of fields per second: 50 (PAL/SECAM) or 60 (NTSC).
    pub field_count: u8,
    /// Whether the video is black and white
    pub bw_flag: BlackAndWhiteFlag,
    /// Color frames ID code.
    pub color_frames_id: Option<ColorFramesID>,
}

/// The bit fields of a VAUX source payload.
pub struct RawVAUXSource {
    pub tv_channel_units: u8,
    pub tv_channel_tens: u8,
    pub tv_channel_hundreds: u8,
    pub clf: u8,
    pub en: u8,
    pub bw: u8,
    pub stype: u8,
    pub field_count: u8,
    pub source_code: u8,
    pub tuner_category: u8,
}

impl RawVAUXSource {
    /// Every field fits into its bits.
    pub open spec fn wf(self) -> bool {
        &&& self.tv_channel_units < 16
        &&& self.tv_channel_tens < 16
        &&& self.tv_channel_hundreds < 16
        &&& self.clf < 4
        &&& self.en < 2
        &&& self.bw < 2
        &&& self.stype < 32
        &&& self.field_count < 2
        &&& self.source_code < 4
    }

    /// The fields of a payload, by byte and bits (lowest bits first where a
    /// field has several parts): `tv_channel_units` 1:0-3, `tv_channel_tens`
    /// 1:4-7, `tv_channel_hundreds` 2:0-3, `clf` 2:4-5, `en` 2:6, `bw` 2:7,
    /// `stype` 3:0-4, `field_count` 3:5, `source_code` 3:6-7, `tuner_category`
    /// 4:0-7.
    pub open spec fn unpack(raw: RawPackData) -> RawVAUXSource {
        RawVAUXSource {
            tv_channel_units: bits(raw[0], 0, 4),
            tv_channel_tens: bits(raw[0], 4, 4),
            tv_channel_hundreds: bits(raw[1], 0, 4),
            clf: bits(raw[1], 4, 2),
            en: bits(raw[1], 6, 1),
            bw: bits(raw[1], 7, 1),
            stype: bits(raw[2], 0, 5),
            field_count: bits(raw[2], 5, 1),
            source_code: bits(raw[2], 6, 2),
            tuner_category: raw[3],
        }
    }

    /// First byte of the payload.
    pub open spec fn pc1(self) -> u8 {
        (self.tv_channel_units + 16 * self.tv_channel_tens) as u8
    }

    /// Second byte of the payload.
    pub open spec fn pc2(self) -> u8 {
        (self.tv_channel_hundreds + 16 * self.clf + 64 * self.en + 128 * self.bw) as u8
    }

    /// Third byte of the payload.
    pub open spec fn pc3(self) -> u8 {
        (self.stype + 32 * self.field_count + 64 * self.source_code) as u8
    }

    /// Fourth byte of the payload.
    pub open spec fn pc4(self) -> u8 {
        self.tuner_category
    }

    /// The payload that holds the fields: the inverse of
    /// [`RawVAUXSource::unpack`].
    pub open spec fn pack(self) -> RawPackData {
        [self.pc1(), self.pc2(), self.pc3(), self.pc4()]
    }

    /// Packing undoes unpacking.
    pub proof fn lemma_pack_unpack(raw: RawPackData)
        ensures
            Self::unpack(raw).wf(),
            Self::unpack(raw).pack() == raw,
    {
        let f = Self::unpack(raw);
        lemma_byte_4_4(raw[0]);
        lemma_byte_4_2_1_1(raw[1]);
        lemma_byte_5_1_2(raw[2]);
        assert(f.pc1() == raw[0]);
        assert(f.pc2() == raw[1]);
        assert(f.pc3() == raw[2]);
        assert(f.pc4() == raw[3]);
    }

    proof fn lemma_unpack_pc1(self)
        requires
            self.wf(),
        ensures
            bits(self.pc1(), 0, 4) == self.tv_channel_units,
            bits(self.pc1(), 4, 4) == self.tv_channel_tens,
    {
    }

    proof fn lemma_unpack_pc2(self)
        requires
            self.wf(),
        ensures
            bits(self.pc2(), 0, 4) == self.tv_channel_hundreds,
            bits(self.pc2(), 4, 2) == self.clf,
            bits(self.pc2(), 6, 1) == self.en,
            bits(self.pc2(), 7, 1) == self.bw,
    {
    }

    proof fn lemma_unpack_pc3(self)
        requires
            self.wf(),
        ensures
            bits(self.pc3(), 0, 5) == self.stype,
            bits(self.pc3(), 5, 1) == self.field_count,
            bits(self.pc3(), 6, 2) == self.source_code,
    {
    }

    /// Unpacking undoes packing.
    pub proof fn lemma_unpack_pack(self)
        requires
            self.wf(),
        ensures
            Self::unpack(self.pack()) == self,
    {
        self.lemma_unpack_pc1();
        self.lemma_unpack_pc2();
        self.lemma_unpack_pc3();
    }

    /// Reads the fields of a payload.
    pub fn read(raw: &RawPackData) -> (r: RawVAUXSource)
        ensures
            r == Self::unpack(*raw),
            r.wf(),
    {
        RawVAUXSource {
            tv_channel_units: get_bits(raw[0], 0, 4),
            tv_channel_tens: get_bits(raw[0], 4, 4),
            tv_channel_hundreds: get_bits(raw[1], 0, 4),
            clf: get_bits(raw[1], 4, 2),
            en: get_bits(raw[1], 6, 1),
            bw: get_bits(raw[1], 7, 1),
            stype: get_bits(raw[2], 0, 5),
            field_count: get_bits(raw[2], 5, 1),
            source_code: get_bits(raw[2], 6, 2),
            tuner_category: raw[3],
        }
    }

    /// Writes the payload that holds the fields.
    pub fn write(&self) -> (r: RawPackData)
        requires
            self.wf(),
        ensures
            r == self.pack(),
    {
        [
            self.tv_channel_units + 16 * self.tv_channel_tens,
            self.tv_channel_hundreds + 16 * self.clf + 64 * self.en + 128 * self.bw,
            self.stype + 32 * self.field_count + 64 * self.source_code,
            self.tuner_category,
        ]
    }
}

/// Whether each of the three digits is `digit`.
pub open spec fn all_digits(digits: (u8, u8, u8), digit: u8) -> bool {
    digits.0 == digit && digits.1 == digit && digits.2 == digit
}

/// The source code that the two code bits stand for, beside the TV channel
/// digits (hundreds, tens, units): these tell the line inputs apart, and a
/// tuner from prerecorded tape and from no information.
pub open spec fn source_code_of(code: u8, digits: (u8, u8, u8)) -> Result<
    Option<SourceCode>,
    DecodeError,
> {
    let is_e = all_digits(digits, 0xE);
    let is_f = all_digits(digits, 0xF);
    if code == 0 {
        if is_f {
            Ok(Some(SourceCode::Camera))
        } else {
            Err(DecodeError::CameraWithTvChannel)
        }
    } else if code == 1 {
        if is_e {
            Ok(Some(SourceCode::LineMUSE))
        } else if is_f {
            Ok(Some(SourceCode::Line))
        } else {
            Err(DecodeError::LineWithTvChannel)
        }
    } else if code == 2 {
        Ok(Some(SourceCode::Cable))
    } else {
        if is_e {
            Ok(Some(SourceCode::PrerecordedTape))
        } else if is_f {
            Ok(None)
        } else {
            Ok(Some(SourceCode::Tuner))
        }
    }
}

/// The TV channel that the three digits stand for: none for digits `0xE`,
/// else the binary-coded decimal number.
pub open spec fn tv_channel_of(digits: (u8, u8, u8)) -> Result<Option<u16>, DecodeError> {
    if all_digits(digits, 0xE) {
        Ok(None)
    } else {
        match bcd_hundreds(digits.0, 4, digits.1, digits.2) {
            Ok(channel) => Ok(channel),
            Err(e) => Err(DecodeError::Bcd { field: BcdField::TvChannel, source: e }),
        }
    }
}

/// The two code bits of a source code.
pub open spec fn source_code_bits(source_code: Option<SourceCode>) -> u8 {
    match source_code {
        Some(SourceCode::Camera) => 0u8,
        Some(SourceCode::LineMUSE) | Some(SourceCode::Line) => 1u8,
        Some(SourceCode::Cable) => 2u8,
        Some(SourceCode::Tuner) | Some(SourceCode::PrerecordedTape) | None => 3u8,
    }
}

/// The TV channel digits that are written (hundreds, tens, units): `0xF`
/// thrice for a camera, a line input and no information, `0xE` thrice for MUSE
/// and prerecorded tape, the decimal digits of the channel for cable and
/// tuner.
pub open spec fn digits_of(source_code: Option<SourceCode>, tv_channel: Option<u16>) -> (
    u8,
    u8,
    u8,
) {
    match source_code {
        Some(SourceCode::Camera) | Some(SourceCode::Line) | None => (0xFu8, 0xFu8, 0xFu8),
        Some(SourceCode::LineMUSE) | Some(SourceCode::PrerecordedTape) => (0xEu8, 0xEu8, 0xEu8),
        Some(SourceCode::Cable) | Some(SourceCode::Tuner) => match tv_channel {
            Some(c) => ((c / 100) as u8, ((c / 10) % 10) as u8, (c % 10) as u8),
            None => (0xFu8, 0xFu8, 0xFu8),
        },
    }
}

/// Whether the source code comes with a TV channel.
pub open spec fn has_channel(source_code: Option<SourceCode>) -> bool {
    source_code == Some(SourceCode::Cable) || source_code == Some(SourceCode::Tuner)
}

/// The VAUX source that the fields stand for.
///
/// The source code is read first, then the TV channel: the first of them
/// that cannot be read is the error. The colour frames code is let go where
/// the pack says that it holds none.
pub open spec fn vaux_source_of(f: RawVAUXSource) -> Result<VAUXSource, DecodeError> {
    let digits = (f.tv_channel_hundreds, f.tv_channel_tens, f.tv_channel_units);
    match source_code_of(f.source_code, digits) {
        Err(e) => Err(e),
        Ok(source_code) => match tv_channel_of(digits) {
            Err(e) => Err(e),
            Ok(tv_channel) => Ok(
                VAUXSource {
                    source_code,
                    tv_channel,
                    tuner_category: if f.tuner_category == 0xFF {
                        None
                    } else {
                        Some(f.tuner_category)
                    },
                    source_type: SourceType::with_code(f.stype),
                    field_count: if f.field_count == 1 {
                        50u8
                    } else {
                        60u8
                    },
                    bw_flag: BlackAndWhiteFlag::with_code(f.bw),
                    color_frames_id: if f.en == 1 {
                        None
                    } else {
                        Some(ColorFramesID::with_code(f.clf))
                    },
                },
            ),
        },
    }
}

/// The fields that stand for a VAUX source: without a colour frames code,
/// every bit of the code is set, and so is the bit that says so.
pub open spec fn fields_of(v: VAUXSource) -> RawVAUXSource {
    let digits = digits_of(v.source_code, v.tv_channel);
    RawVAUXSource {
        tv_channel_units: digits.2,
        tv_channel_tens: digits.1,
        tv_channel_hundreds: digits.0,
        clf: match v.color_frames_id {
            Some(c) => c.code(),
            None => 3u8,
        },
        en: if v.color_frames_id is None {
            1u8
        } else {
            0u8
        },
        bw: v.bw_flag.code(),
        stype: v.source_type.code(),
        field_count: if v.field_count == 50 {
            1u8
        } else {
            0u8
        },
        source_code: source_code_bits(v.source_code),
        tuner_category: match v.tuner_category {
            Some(t) => t,
            None => 0xFFu8,
        },
    }
}

/// Reads the VAUX source that the fields stand for.
pub fn vaux_source_from_fields(f: &RawVAUXSource) -> (r: Result<VAUXSource, DecodeError>)
    requires
        f.wf(),
    ensures
        r == vaux_source_of(*f),
{
    let hundreds = f.tv_channel_hundreds;
    let tens = f.tv_channel_tens;
    let units = f.tv_channel_units;
    let channel_is_e = hundreds == 0xE && tens == 0xE && units == 0xE;
    let channel_is_f = hundreds == 0xF && tens == 0xF && units == 0xF;
    let source_code = if f.source_code == 0 {
        if !channel_is_f {
            return Err(DecodeError::CameraWithTvChannel);
        }
        Some(SourceCode::Camera)
    } else if f.source_code == 1 {
        if channel_is_e {
            Some(SourceCode::LineMUSE)
        } else if channel_is_f {
            Some(SourceCode::Line)
        } else {
            return Err(DecodeError::LineWithTvChannel);
        }
    } else if f.source_code == 2 {
        Some(SourceCode::Cable)
    } else {
        if channel_is_e {
            Some(SourceCode::PrerecordedTape)
        } else if channel_is_f {
            None
        } else {
            Some(SourceCode::Tuner)
        }
    };
    let tv_channel = if channel_is_e {
        None
    } else {
        match from_bcd_hundreds(hundreds, 4, tens, units) {
            Ok(channel) => channel,
            Err(e) => {
                return Err(DecodeError::Bcd { field: BcdField::TvChannel, source: e });
            },
        }
    };
    Ok(
        VAUXSource {
            source_code,
            tv_channel,
            tuner_category: if f.tuner_category == 0xFF {
                None
            } else {
                Some(f.tuner_category)
            },
            source_type: SourceType::from_bits(f.stype),
            field_count: if f.field_count == 1 {
                50
            } else {
                60
            },
            bw_flag: BlackAndWhiteFlag::from_bits(f.bw),
            color_frames_id: if f.en == 1 {
                None
            } else {
                Some(ColorFramesID::from_bits(f.clf))
            },
        },
    )
}

impl VAUXSource {
    /// A TV channel is present exactly for cable and tuner, a tuner category
    /// exactly for a tuner; the channel is looked at first.
    pub open spec fn source_code_check(&self) -> Result<(), Violation> {
        if !has_channel(self.source_code) && self.tv_channel is Some {
            Err(Violation::TvChannelUnexpected)
        } else if has_channel(self.source_code) && self.tv_channel is None {
            Err(Violation::TvChannelRequired)
        } else if self.source_code != Some(SourceCode::Tuner) && self.tuner_category is Some {
            Err(Violation::TunerCategoryUnexpected)
        } else if self.source_code == Some(SourceCode::Tuner) && self.tuner_category is None {
            Err(Violation::TunerCategoryRequired)
        } else {
            Ok(())
        }
    }

    /// A TV channel lies between 1 and 999.
    pub open spec fn tv_channel_check(&self) -> Result<(), Violation> {
        match self.tv_channel {
            Some(c) => range_check(c as int, 1, 999),
            None => Ok(()),
        }
    }

    /// A tuner category is not the value `0xFF`, which stands for none.
    pub open spec fn tuner_category_check(&self) -> Result<(), Violation> {
        sentinel_check(self.tuner_category, 0xFF)
    }

    /// Checks that a TV channel and a tuner category are present exactly
    /// beside the source codes that have them.
    pub fn check_source_code(&self) -> (r: Result<(), Violation>)
        ensures
            r == self.source_code_check(),
    {
        let with_channel = match self.source_code {
            Some(SourceCode::Cable) | Some(SourceCode::Tuner) => true,
            _ => false,
        };
        let is_tuner = match self.source_code {
            Some(SourceCode::Tuner) => true,
            _ => false,
        };
        if !with_channel && self.tv_channel.is_some() {
            Err(Violation::TvChannelUnexpected)
        } else if with_channel && self.tv_channel.is_none() {
            Err(Violation::TvChannelRequired)
        } else if !is_tuner && self.tuner_category.is_some() {
            Err(Violation::TunerCategoryUnexpected)
        } else if is_tuner && self.tuner_category.is_none() {
            Err(Violation::TunerCategoryRequired)
        } else {
            Ok(())
        }
    }

    /// Checks that a TV channel lies between 1 and 999.
    pub fn check_tv_channel(&self) -> (r: Result<(), Violation>)
        ensures
            r == self.tv_channel_check(),
    {
        match self.tv_channel {
            Some(c) => check_range(c, 1, 999),
            None => Ok(()),
        }
    }

    /// Ensures that a tuner category without information is given as `None`,
    /// not as `Some(0xFF)`.
    pub fn check_tuner_category(&self) -> (r: Result<(), Violation>)
        ensures
            r == self.tuner_category_check(),
    {
        check_sentinel(self.tuner_category, 0xFF)
    }

    /// What the rules of the single fields say of a value without violations.
    pub proof fn lemma_valid(self, ctx: PackContext)
        requires
            self.violations(ctx).len() == 0,
        ensures
            field_count_check(self.field_count, ctx) is Ok,
            self.source_code_check() is Ok,
            self.tuner_category_check() is Ok,
            self.tv_channel_check() is Ok,
    {
        assert(entry(Field::FieldCount, field_count_check(self.field_count, ctx)).len() == 0);
        assert(entry(Field::SourceCode, self.source_code_check()).len() == 0);
        assert(entry(Field::TunerCategory, self.tuner_category_check()).len() == 0);
        assert(entry(Field::TvChannel, self.tv_channel_check()).len() == 0);
    }

    /// Writes the fields that stand for a valid VAUX source.
    pub fn to_fields(&self, ctx: &PackContext) -> (r: RawVAUXSource)
        requires
            self.violations(*ctx).len() == 0,
        ensures
            r == fields_of(*self),
            r.wf(),
    {
        proof {
            self.lemma_valid(*ctx);
        }
        let (hundreds, tens, units): (u8, u8, u8) = match self.source_code {
            Some(SourceCode::Camera) | Some(SourceCode::Line) | None => (0xF, 0xF, 0xF),
            Some(SourceCode::LineMUSE) | Some(SourceCode::PrerecordedTape) => (0xE, 0xE, 0xE),
            Some(SourceCode::Cable) | Some(SourceCode::Tuner) => match self.tv_channel {
                Some(c) => ((c / 100) as u8, ((c / 10) % 10) as u8, (c % 10) as u8),
                None => (0xF, 0xF, 0xF),
            },
        };
        RawVAUXSource {
            tv_channel_units: units,
            tv_channel_tens: tens,
            tv_channel_hundreds: hundreds,
            clf: match self.color_frames_id {
                Some(c) => c.to_bits(),
                None => 3,
            },
            en: if self.color_frames_id.is_none() {
                1
            } else {
                0
            },
            bw: self.bw_flag.to_bits(),
            stype: self.source_type.to_bits(),
            field_count: if self.field_count == 50 {
                1
            } else {
                0
            },
            source_code: match self.source_code {
                Some(SourceCode::Camera) => 0,
                Some(SourceCode::LineMUSE) | Some(SourceCode::Line) => 1,
                Some(SourceCode::Cable) => 2,
                Some(SourceCode::Tuner) | Some(SourceCode::PrerecordedTape) | None => 3,
            },
            tuner_category: match self.tuner_category {
                Some(t) => t,
                None => 0xFF,
            },
        }
    }

    /// The source code and the TV channel are read back from the fields of a
    /// valid VAUX source.
    proof fn lemma_read_source(self, ctx: PackContext)
        requires
            self.violations(ctx).len() == 0,
        ensures
            source_code_of(
                source_code_bits(self.source_code),
                digits_of(self.source_code, self.tv_channel),
            ) == Ok::<Option<SourceCode>, DecodeError>(self.source_code),
            tv_channel_of(digits_of(self.source_code, self.tv_channel)) == Ok::<
                Option<u16>,
                DecodeError,
            >(self.tv_channel),
    {
        self.lemma_valid(ctx);
    }

    /// A valid VAUX source is read back from its fields.
    pub proof fn lemma_of_fields(self, ctx: PackContext)
        requires
            self.violations(ctx).len() == 0,
        ensures
            fields_of(self).wf(),
            vaux_source_of(fields_of(self)) == Ok::<VAUXSource, DecodeError>(self),
    {
        self.lemma_valid(ctx);
        self.lemma_read_source(ctx);
        self.source_type.lemma_codes(0);
        self.bw_flag.lemma_codes(0);
        if self.color_frames_id is Some {
            self.color_frames_id->Some_0.lemma_codes(0);
        }
    }

    /// The TV channel digits and the source code of a valid VAUX source that
    /// was read are those it was read from.
    proof fn lemma_write_source(f: RawVAUXSource, ctx: PackContext)
        requires
            f.wf(),
            vaux_source_of(f) is Ok,
            vaux_source_of(f)->Ok_0.violations(ctx).len() == 0,
        ensures
            ({
                let v = vaux_source_of(f)->Ok_0;
                &&& digits_of(v.source_code, v.tv_channel) == (
                    f.tv_channel_hundreds,
                    f.tv_channel_tens,
                    f.tv_channel_units,
                )
                &&& source_code_bits(v.source_code) == f.source_code
            }),
    {
        vaux_source_of(f)->Ok_0.lemma_valid(ctx);
    }

    /// The fields of a valid VAUX source that was read are those it was read
    /// from, but for the colour frames code where there is none, which has
    /// every bit set.
    pub proof fn lemma_fields_of(f: RawVAUXSource, ctx: PackContext)
        requires
            f.wf(),
            vaux_source_of(f) is Ok,
            vaux_source_of(f)->Ok_0.violations(ctx).len() == 0,
        ensures
            fields_of(vaux_source_of(f)->Ok_0) == (RawVAUXSource {
                clf: if f.en == 1 {
                    3u8
                } else {
                    f.clf
                },
                ..f
            }),
    {
        let v = vaux_source_of(f)->Ok_0;
        Self::lemma_write_source(f, ctx);
        v.source_type.lemma_codes(f.stype);
        v.bw_flag.lemma_codes(f.bw);
        if v.color_frames_id is Some {
            v.color_frames_id->Some_0.lemma_codes(f.clf);
        }
    }
}

impl PackData for VAUXSource {
    open spec fn decode(raw: RawPackData, ctx: PackContext) -> Result<Self, DecodeError> {
        vaux_source_of(RawVAUXSource::unpack(raw))
    }

    open spec fn violations(&self, ctx: PackContext) -> Seq<FieldError> {
        entry(Field::FieldCount, field_count_check(self.field_count, ctx)) + entry(
            Field::SourceCode,
            self.source_code_check(),
        ) + entry(Field::TunerCategory, self.tuner_category_check()) + entry(
            Field::TvChannel,
            self.tv_channel_check(),
        )
    }

    open spec fn encode(&self, ctx: PackContext) -> RawPackData {
        fields_of(*self).pack()
    }

    /// The colour frames code has every bit set where the pack says that it
    /// holds none.
    open spec fn canonical(raw: RawPackData, ctx: PackContext) -> RawPackData {
        if bits(raw[1], 6, 1) == 1 {
            [raw[0], with_bits(raw[1], 4, 2, 3), raw[2], raw[3]]
        } else {
            raw
        }
    }

    fn try_from_raw(raw: &RawPackData, ctx: &PackContext) -> (r: Result<Self, DecodeError>) {
        let fields = RawVAUXSource::read(raw);
        vaux_source_from_fields(&fields)
    }

    fn validate_with(&self, ctx: &PackContext) -> (r: Result<(), Report>) {
        let mut report = Report::new();
        report.record(Field::FieldCount, check_field_count(self.field_count, ctx));
        report.record(Field::SourceCode, self.check_source_code());
        report.record(Field::TunerCategory, self.check_tuner_category());
        report.record(Field::TvChannel, self.check_tv_channel());
        report.into_result()
    }

    fn write(&self, ctx: &PackContext) -> (r: RawPackData) {
        self.to_fields(ctx).write()
    }

    proof fn lemma_decode_encode(self, ctx: PackContext) {
        self.lemma_of_fields(ctx);
        fields_of(self).lemma_unpack_pack();
    }

    proof fn lemma_encode_decode(raw: RawPackData, ctx: PackContext) {
        let f = RawVAUXSource::unpack(raw);
        RawVAUXSource::lemma_pack_unpack(raw);
        Self::lemma_fields_of(f, ctx);
        let g = fields_of(vaux_source_of(f)->Ok_0);
        assert(g.pc1() == raw[0]);
        assert(g.pc3() == raw[2]);
        assert(g.pc4() == raw[3]);
        lemma_byte_4_2_1_1(raw[1]);
        assert(g.pc2() == Self::canonical(raw, ctx)[1]);
    }
}

} // verus!
