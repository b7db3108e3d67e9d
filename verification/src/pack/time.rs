//! Timecodes: the title timecode pack and the recording time packs.
use vstd::prelude::*;

use crate::file::System;
use crate::pack::common::check_range;
use crate::pack::common::range_check;
use crate::pack::util::bcd_tens;
use crate::pack::util::BcdError;
use crate::pack::util::bits;
use crate::pack::util::flag;
use crate::pack::util::flag_bit;
use crate::pack::util::from_bcd_tens;
use crate::pack::util::get_bits;
use crate::pack::util::lemma_byte_4_2_1_1;
use crate::pack::util::lemma_byte_4_3_1;
use crate::pack::util::with_bits;
use crate::pack::BcdField;
use crate::pack::DecodeError;
use crate::pack::PackContext;
use crate::pack::PackData;
use crate::pack::RawPackData;
use crate::report::entry;
use crate::report::nested;
use crate::report::Field;
use crate::report::FieldError;
use crate::report::Report;
use crate::report::Violation;

verus! {

/// The frame number of a [`TimeValue`]: required (`u8`) or optional
/// (`Option<u8>`).
pub trait FrameTypeTrait: Sized + Copy {
    /// The frame number, if there is one.
    spec fn frame_option(&self) -> Option<u8>;

    /// The frame number, if there is one.
    fn frame_number(&self) -> (r: Option<u8>)
        ensures
            r == self.frame_option(),
    ;
}

impl FrameTypeTrait for u8 {
    open spec fn frame_option(&self) -> Option<u8> {
        Some(*self)
    }

    fn frame_number(&self) -> (r: Option<u8>) {
        Some(*self)
    }
}

impl FrameTypeTrait for Option<u8> {
    open spec fn frame_option(&self) -> Option<u8> {
        *self
    }

    fn frame_number(&self) -> (r: Option<u8>) {
        *self
    }
}

/// Contains a time address for a frame.
///
/// The frame number is required or optional, as the parameter `FrameType`
/// says: see [`TimeValueWithRequiredFrame`] and
/// [`TimeValueWithOptionalFrame`].
///
/// A timecode that reaches 24 hours wraps back to hour 0, as clock time does.
///
/// General timecode standards:
///
/// - IEC 60461:2010 (entire standard) - Time and control code
/// - SMPTE 12M (entire standard) - Time and Control Code
#[derive(Debug, PartialEq, Eq, Clone, Copy)]
pub struct TimeValue<FrameType: FrameTypeTrait> {
    /// The hour of the timecode, in range `[0, 23]`.
    pub hour: u8,
    /// The minute of the timecode, in range `[0, 59]`.
    pub minute: u8,
    /// The second of the timecode, in range `[0, 59]`.
    pub second: u8,
    /// Whether drop frame mode is enabled.
    ///
    /// The 525-60 system runs at about 29.97 frames per second, and the frame
    /// number counts 30 of them. So that the timecode stays near the clock,
    /// drop frame mode skips the frame numbers 0 and 1 of the first second of
    /// every minute that is no multiple of 10: after `01:23:59;29` comes
    /// `01:24:00;02`, after `01:29:59;29` comes `01:30:00;00`.
    pub drop_frame: bool,
    /// The frame number of the timecode: from 0 (but see
    /// [`TimeValue::drop_frame`]) to 29 or 24, as the system has it.
    pub frame: FrameType,
}

/// A time address for a frame where the frame number is required.
pub type TimeValueWithRequiredFrame = TimeValue<u8>;

/// A time address for a frame where the frame number is optional.
pub type TimeValueWithOptionalFrame = TimeValue<Option<u8>>;

/// Indicates whether color frame identification was intentionally applied to the timecode by
/// the original source.
///
/// - IEC 60461:2010 Section 7.3.3 - Colour frame flag
#[derive(Debug, PartialEq, Eq, Hash, Clone, Copy, Structural)]
pub enum ColorFrame {
    /// No relationship between color frame sequence and the time address.
    Unsynchronized,
    /// Color frames are identified by the time address, as applied by the original video source.
    Synchronized,
}

impl ColorFrame {
    /// The code of the value in its field of 1 bit.
    pub open spec fn code(self) -> u8 {
        match self {
            ColorFrame::Unsynchronized => 0u8,
            ColorFrame::Synchronized => 1u8,
        }
    }

    /// The value with the given code.
    pub open spec fn with_code(code: u8) -> ColorFrame {
        if code == 0 {
            ColorFrame::Unsynchronized
        } else {
            ColorFrame::Synchronized
        }
    }

    pub fn to_bits(self) -> (r: u8)
        ensures
            r == self.code(),
            r < 2,
            ColorFrame::with_code(r) == self,
    {
        match self {
            ColorFrame::Unsynchronized => 0,
            ColorFrame::Synchronized => 1,
        }
    }

    pub fn from_bits(bits: u8) -> (r: ColorFrame)
        requires
            bits < 2,
        ensures
            r == ColorFrame::with_code(bits),
            r.code() == bits,
    {
        if bits == 0 {
            ColorFrame::Unsynchronized
        } else {
            ColorFrame::Synchronized
        }
    }

    /// Values and codes below 2 correspond one to one.
    pub proof fn lemma_codes(self, code: u8)
        ensures
            self.code() < 2,
            ColorFrame::with_code(self.code()) == self,
            code < 2 ==> ColorFrame::with_code(code).code() == code,
    {
    }
}

/// Used in linear time code (LTC) to ensure that the code word has an even number of 0 bits.
/// For vertical interval time code (VITC), this indicates the field flag.
///
/// - IEC 60461:2010 Section 8.2.6 - Biphase mark polarity correction
/// - IEC 60461:2010 Section 9.2.5 - Field mark flag
#[derive(Debug, PartialEq, Eq, Hash, Clone, Copy, Structural)]
pub enum PolarityCorrection {
    /// Bit value of zero
    Even,
    /// Bit value of one
    Odd,
}

impl PolarityCorrection {
    /// The code of the value in its field of 1 bit.
    pub open spec fn code(self) -> u8 {
        match self {
            PolarityCorrection::Even => 0u8,
            PolarityCorrection::Odd => 1u8,
        }
    }

    /// The value with the given code.
    pub open spec fn with_code(code: u8) -> PolarityCorrection {
        if code == 0 {
            PolarityCorrection::Even
        } else {
            PolarityCorrection::Odd
        }
    }

    pub fn to_bits(self) -> (r: u8)
        ensures
            r == self.code(),
            r < 2,
            PolarityCorrection::with_code(r) == self,
    {
        match self {
            PolarityCorrection::Even => 0,
            PolarityCorrection::Odd => 1,
        }
    }

    pub fn from_bits(bits: u8) -> (r: PolarityCorrection)
        requires
            bits < 2,
        ensures
            r == PolarityCorrection::with_code(bits),
            r.code() == bits,
    {
        if bits == 0 {
            PolarityCorrection::Even
        } else {
            PolarityCorrection::Odd
        }
    }

    /// Values and codes below 2 correspond one to one.
    pub proof fn lemma_codes(self, code: u8)
        ensures
            self.code() < 2,
            PolarityCorrection::with_code(self.code()) == self,
            code < 2 ==> PolarityCorrection::with_code(code).code() == code,
    {
    }
}

/// Indicates the contents of the associated binary group pack.
///
/// - IEC 60461:2010 Section 7.4.1 - Binary group flag assignments
#[derive(Debug, PartialEq, Eq, Hash, Clone, Copy, Structural)]
pub enum BinaryGroupFlag {
    /// The time is not referenced to an external clock, and the contents of the binary group
    /// are unspecified.
    ///
    /// - IEC 60461:2010 Section 7.4.2 - Character set not specified and unspecified clock time
    TimeUnspecifiedGroupUnspecified,
    /// The time is not referenced to an external clock, and the contents of the binary group
    /// contain an 8-bit ISO/IEC 646 or ISO/IEC 2022 character set.
    ///
    /// - IEC 60461:2010 Section 7.4.3 - Eight-bit character set and unspecified clock time
    TimeUnspecifiedGroup8BitCodes,
    /// The time is not referenced to an external clock, and the contents of the binary group
    /// contain time zone information according to SMPTE 309M.
    ///
    /// - IEC 60461:2010 Section 7.4.4 - Date/time zone and unspecified clock time
    TimeUnspecifiedGroupDateTimeZone,
    /// The time is not referenced to an external clock, and the contents of the binary group
    /// contain complex data formatted according to SMPTE 262M.
    ///
    /// - IEC 60461:2010 Section 7.4.5 - Page/line multiplex system and unspecified clock time
    TimeUnspecifiedGroupPageLine,
    /// The time is referenced to an external clock, and the contents of the binary group
    /// are unspecified.
    ///
    /// - IEC 60461:2010 Section 7.4.6 - Clock time specified and unspecified character set
    TimeClockGroupUnspecified,
    /// This combination is reserved for future use and should not be used.
    ///
    /// - IEC 60461:2010 Section 7.4.7 - Unassigned binary group usage and unassigned clock time
    TimeUnassignedGroupReserved,
    /// The time is referenced to an external clock, and the contents of the binary group
    /// contain time zone information according to SMPTE 309M.
    ///
    /// - IEC 60461:2010 Section 7.4.8 - Date/time zone and clock time
    TimeClockGroupDateTimeZone,
    /// The time is referenced to an external clock, and the contents of the binary group
    /// contain complex data formatted according to SMPTE 262M.
    ///
    /// - IEC 60461:2010 Section 7.4.9 - Specified clock time and page/line multiplex system
    TimeClockGroupPageLine,
}

impl BinaryGroupFlag {
    /// The code of the value in its field of 3 bits.
    pub open spec fn code(self) -> u8 {
        match self {
            BinaryGroupFlag::TimeUnspecifiedGroupUnspecified => 0x0u8,
            BinaryGroupFlag::TimeUnspecifiedGroup8BitCodes => 0x1u8,
            BinaryGroupFlag::TimeUnspecifiedGroupDateTimeZone => 0x4u8,
            BinaryGroupFlag::TimeUnspecifiedGroupPageLine => 0x5u8,
            BinaryGroupFlag::TimeClockGroupUnspecified => 0x2u8,
            BinaryGroupFlag::TimeUnassignedGroupReserved => 0x3u8,
            BinaryGroupFlag::TimeClockGroupDateTimeZone => 0x6u8,
            BinaryGroupFlag::TimeClockGroupPageLine => 0x7u8,
        }
    }

    /// The value with the given code.
    pub open spec fn with_code(code: u8) -> BinaryGroupFlag {
        if code == 0 {
            BinaryGroupFlag::TimeUnspecifiedGroupUnspecified
        } else if code == 1 {
            BinaryGroupFlag::TimeUnspecifiedGroup8BitCodes
        } else if code == 2 {
            BinaryGroupFlag::TimeClockGroupUnspecified
        } else if code == 3 {
            BinaryGroupFlag::TimeUnassignedGroupReserved
        } else if code == 4 {
            BinaryGroupFlag::TimeUnspecifiedGroupDateTimeZone
        } else if code == 5 {
            BinaryGroupFlag::TimeUnspecifiedGroupPageLine
        } else if code == 6 {
            BinaryGroupFlag::TimeClockGroupDateTimeZone
        } else {
            BinaryGroupFlag::TimeClockGroupPageLine
        }
    }

    pub fn to_bits(self) -> (r: u8)
        ensures
            r == self.code(),
            r < 8,
            BinaryGroupFlag::with_code(r) == self,
    {
        match self {
            BinaryGroupFlag::TimeUnspecifiedGroupUnspecified => 0x0,
            BinaryGroupFlag::TimeUnspecifiedGroup8BitCodes => 0x1,
            BinaryGroupFlag::TimeUnspecifiedGroupDateTimeZone => 0x4,
            BinaryGroupFlag::TimeUnspecifiedGroupPageLine => 0x5,
            BinaryGroupFlag::TimeClockGroupUnspecified => 0x2,
            BinaryGroupFlag::TimeUnassignedGroupReserved => 0x3,
            BinaryGroupFlag::TimeClockGroupDateTimeZone => 0x6,
            BinaryGroupFlag::TimeClockGroupPageLine => 0x7,
        }
    }

    pub fn from_bits(bits: u8) -> (r: BinaryGroupFlag)
        requires
            bits < 8,
        ensures
            r == BinaryGroupFlag::with_code(bits),
            r.code() == bits,
    {
        if bits == 0 {
            BinaryGroupFlag::TimeUnspecifiedGroupUnspecified
        } else if bits == 1 {
            BinaryGroupFlag::TimeUnspecifiedGroup8BitCodes
        } else if bits == 2 {
            BinaryGroupFlag::TimeClockGroupUnspecified
        } else if bits == 3 {
            BinaryGroupFlag::TimeUnassignedGroupReserved
        } else if bits == 4 {
            BinaryGroupFlag::TimeUnspecifiedGroupDateTimeZone
        } else if bits == 5 {
            BinaryGroupFlag::TimeUnspecifiedGroupPageLine
        } else if bits == 6 {
            BinaryGroupFlag::TimeClockGroupDateTimeZone
        } else {
            BinaryGroupFlag::TimeClockGroupPageLine
        }
    }

    /// Values and codes below 8 correspond one to one.
    pub proof fn lemma_codes(self, code: u8)
        ensures
            self.code() < 8,
            BinaryGroupFlag::with_code(self.code()) == self,
            code < 8 ==> BinaryGroupFlag::with_code(code).code() == code,
    {
    }
}

/// Indicates whethere there is a timecode discontinuity prior to where this recording was
/// started.
///
/// A discontinuity means that the timecode did not continuously increase one frame at a time for
/// all frames prior to this one.  For example, the timecode might change from `01:33:53;15` to
/// `00:00:00;00` at some location in the videotape.  In that example, the `00:00:00;00` frame
/// and all following frames would have a flag value of [`BlankFlag::Discontinuous`].
///
/// - IEC 61834-4:1998 Section 4.4 - Time Code (TITLE)
#[derive(Debug, PartialEq, Eq, Hash, Clone, Copy, Structural)]
pub enum BlankFlag {
    /// A timecode discontinuity exists somewhere prior to the current tape position
    Discontinuous,
    /// A timecode discontinuity does not exist somewhere prior to the current tape position
    Continuous,
}

impl BlankFlag {
    /// The code of the value in its field of 1 bit.
    pub open spec fn code(self) -> u8 {
        match self {
            BlankFlag::Discontinuous => 0u8,
            BlankFlag::Continuous => 1u8,
        }
    }

    /// The value with the given code.
    pub open spec fn with_code(code: u8) -> BlankFlag {
        if code == 0 {
            BlankFlag::Discontinuous
        } else {
            BlankFlag::Continuous
        }
    }

    pub fn to_bits(self) -> (r: u8)
        ensures
            r == self.code(),
            r < 2,
            BlankFlag::with_code(r) == self,
    {
        match self {
            BlankFlag::Discontinuous => 0,
            BlankFlag::Continuous => 1,
        }
    }

    pub fn from_bits(bits: u8) -> (r: BlankFlag)
        requires
            bits < 2,
        ensures
            r == BlankFlag::with_code(bits),
            r.code() == bits,
    {
        if bits == 0 {
            BlankFlag::Discontinuous
        } else {
            BlankFlag::Continuous
        }
    }

    /// Values and codes below 2 correspond one to one.
    pub proof fn lemma_codes(self, code: u8)
        ensures
            self.code() < 2,
            BlankFlag::with_code(self.code()) == self,
            code < 2 ==> BlankFlag::with_code(code).code() == code,
    {
    }
}

/// The time of a [`Timecode`]: required with its frame number
/// ([`TimeValueWithRequiredFrame`]), or optional with an optional frame number
/// (`Option<TimeValueWithOptionalFrame>`).
pub trait TimeTypeTrait: Sized + Copy {
    /// The time in the form that may lack the time and the frame number.
    spec fn optional(&self) -> Option<TimeValueWithOptionalFrame>;

    /// The time in the form that may lack the time and the frame number.
    fn to_optional(&self) -> (r: Option<TimeValueWithOptionalFrame>)
        ensures
            r == self.optional(),
    ;
}

impl TimeTypeTrait for TimeValueWithRequiredFrame {
    open spec fn optional(&self) -> Option<TimeValueWithOptionalFrame> {
        Some(
            TimeValue {
                hour: self.hour,
                minute: self.minute,
                second: self.second,
                drop_frame: self.drop_frame,
                frame: Some(self.frame),
            },
        )
    }

    fn to_optional(&self) -> (r: Option<TimeValueWithOptionalFrame>) {
        Some(
            TimeValue {
                hour: self.hour,
                minute: self.minute,
                second: self.second,
                drop_frame: self.drop_frame,
                frame: Some(self.frame),
            },
        )
    }
}

impl TimeTypeTrait for Option<TimeValueWithOptionalFrame> {
    open spec fn optional(&self) -> Option<TimeValueWithOptionalFrame> {
        *self
    }

    fn to_optional(&self) -> (r: Option<TimeValueWithOptionalFrame>) {
        *self
    }
}

/// Title timecode, AAUX recording time, or VAUX recording time
///
/// See [`TitleTimecode`] and [`RecordingTime`].
#[derive(Debug, PartialEq, Eq, Clone, Copy)]
pub struct Timecode<TimeType: TimeTypeTrait> {
    /// Contains a time address for a frame: required for [`TitleTimecode`],
    /// optional for [`RecordingTime`].
    pub time: TimeType,
    /// Indicates whether color frame identification was intentionally applied
    /// to the timecode by the original source.
    ///
    /// Without a binary group pack after this one, the value should be
    /// [`ColorFrame::Synchronized`]. In a [`TitleTimecode`] the field shares
    /// its bit with [`TitleTimecode::blank_flag`].
    pub color_frame: ColorFrame,
    /// Used in linear time code to give the code word an even number of 0
    /// bits; in vertical interval time code, the field flag.
    ///
    /// Without a binary group pack after this one, the value should be
    /// [`PolarityCorrection::Odd`].
    pub polarity_correction: PolarityCorrection,
    /// Indicates the contents of the associated binary group pack.
    ///
    /// Without a binary group pack after this one, the value should be
    /// [`BinaryGroupFlag::TimeClockGroupPageLine`].
    pub binary_group_flag: BinaryGroupFlag,
}

/// Title timecode
///
/// The elapsed time at the tape position of this pack. Without a title binary
/// group pack, only [`TitleTimecode::blank_flag`] and the time are in use, the
/// time is in drop frame format and all other bits are set. With one, every
/// field of [`TitleTimecode::timecode`] is in use and the blank flag is not.
///
/// [`TitleTimecode::blank_flag`] and [`Timecode::color_frame`] occupy the same
/// bit of the pack: they have to agree.
///
/// DV standards:
///
/// - IEC 61834-4:1998 Section 4.4 - Time Code (TITLE)
/// - SMPTE 306M-2002 Section 9.2.1 - Time code pack (TC)
#[derive(Debug, PartialEq, Eq, Clone, Copy)]
pub struct TitleTimecode {
    /// Contains most of the title timecode
    pub timecode: Timecode<TimeValueWithRequiredFrame>,
    /// Indicates whether there is a timecode discontinuity before the place
    /// where this recording was started.
    pub blank_flag: BlankFlag,
}

/// AAUX or VAUX recording time
///
/// The time when audio or video data was recorded. Without a binary group
/// pack, only [`Timecode::time`] is in use, in drop frame format, and all
/// other bits are set.
///
/// DV standards:
///
/// - IEC 61834-4:1998 Section 8.4 - Rec Time (AAUX)
/// - IEC 61834-4:1998 Section 9.4 - Rec Time (VAUX)
pub type RecordingTime = Timecode<Option<TimeValueWithOptionalFrame>>;

/// The bit fields of a timecode payload, the same for both systems.
pub struct RawTimecode {
    pub frame_units: u8,
    pub frame_tens: u8,
    pub df: bool,
    pub cf: u8,
    pub second_units: u8,
    pub second_tens: u8,
    pub pc: u8,
    pub minute_units: u8,
    pub minute_tens: u8,
    pub hour_units: u8,
    pub hour_tens: u8,
    pub bgf: u8,
}

impl RawTimecode {
    /// Every field fits into its bits.
    pub open spec fn wf(self) -> bool {
        &&& self.frame_units < 16
        &&& self.frame_tens < 4
        &&& self.cf < 2
        &&& self.second_units < 16
        &&& self.second_tens < 8
        &&& self.pc < 2
        &&& self.minute_units < 16
        &&& self.minute_tens < 8
        &&& self.hour_units < 16
        &&& self.hour_tens < 4
        &&& self.bgf < 8
    }

    /// The fields of a payload.
    ///
    /// In both systems, by byte and bit: frame units 1:0-3, frame tens 1:4-5,
    /// drop frame 1:6, colour frame 1:7, second units 2:0-3, second tens
    /// 2:4-6, minute units 3:0-3, minute tens 3:4-6, hour units 4:0-3, hour
    /// tens 4:4-5. In 525-60, polarity correction is 2:7 and the binary group
    /// flag is made of 3:7, 4:6 and 4:7, lowest bit first. In 625-50, polarity
    /// correction is 4:7 and the binary group flag is made of 2:7, 4:6 and
    /// 3:7, lowest bit first.
    pub open spec fn unpack(raw: RawPackData, system: System) -> RawTimecode {
        RawTimecode {
            frame_units: bits(raw[0], 0, 4),
            frame_tens: bits(raw[0], 4, 2),
            df: bits(raw[0], 6, 1) == 1,
            cf: bits(raw[0], 7, 1),
            second_units: bits(raw[1], 0, 4),
            second_tens: bits(raw[1], 4, 3),
            pc: match system {
                System::Sys525_60 => bits(raw[1], 7, 1),
                System::Sys625_50 => bits(raw[3], 7, 1),
            },
            minute_units: bits(raw[2], 0, 4),
            minute_tens: bits(raw[2], 4, 3),
            hour_units: bits(raw[3], 0, 4),
            hour_tens: bits(raw[3], 4, 2),
            bgf: match system {
                System::Sys525_60 => (bits(raw[2], 7, 1) + 2 * bits(raw[3], 6, 1) + 4 * bits(
                    raw[3],
                    7,
                    1,
                )) as u8,
                System::Sys625_50 => (bits(raw[1], 7, 1) + 2 * bits(raw[3], 6, 1) + 4 * bits(
                    raw[2],
                    7,
                    1,
                )) as u8,
            },
        }
    }

    /// The lowest bit of the binary group flag.
    pub open spec fn bgf0(self) -> u8 {
        self.bgf % 2
    }

    /// The middle bit of the binary group flag.
    pub open spec fn bgf1(self) -> u8 {
        (self.bgf / 2) % 2
    }

    /// The highest bit of the binary group flag.
    pub open spec fn bgf2(self) -> u8 {
        (self.bgf / 4) % 2
    }

    /// First byte of the payload.
    pub open spec fn pc1(self) -> u8 {
        (self.frame_units + 16 * self.frame_tens + 64 * flag(self.df) + 128 * self.cf) as u8
    }

    /// Second byte of the payload.
    pub open spec fn pc2(self, system: System) -> u8 {
        let top = match system {
            System::Sys525_60 => self.pc,
            System::Sys625_50 => self.bgf0(),
        };
        (self.second_units + 16 * self.second_tens + 128 * top) as u8
    }

    /// Third byte of the payload.
    pub open spec fn pc3(self, system: System) -> u8 {
        let top = match system {
            System::Sys525_60 => self.bgf0(),
            System::Sys625_50 => self.bgf2(),
        };
        (self.minute_units + 16 * self.minute_tens + 128 * top) as u8
    }

    /// Fourth byte of the payload.
    pub open spec fn pc4(self, system: System) -> u8 {
        let top = match system {
            System::Sys525_60 => self.bgf2(),
            System::Sys625_50 => self.pc,
        };
        (self.hour_units + 16 * self.hour_tens + 64 * self.bgf1() + 128 * top) as u8
    }

    /// The payload that holds the fields: the inverse of
    /// [`RawTimecode::unpack`].
    pub open spec fn pack(self, system: System) -> RawPackData {
        [self.pc1(), self.pc2(system), self.pc3(system), self.pc4(system)]
    }

    /// Packing undoes unpacking.
    pub proof fn lemma_pack_unpack(raw: RawPackData, system: System)
        ensures
            Self::unpack(raw, system).wf(),
            Self::unpack(raw, system).pack(system) == raw,
    {
        let f = Self::unpack(raw, system);
        lemma_byte_4_2_1_1(raw[0]);
        lemma_byte_4_3_1(raw[1]);
        lemma_byte_4_3_1(raw[2]);
        lemma_byte_4_2_1_1(raw[3]);
        assert(f.bgf0() == bits(
            match system {
                System::Sys525_60 => raw[2],
                System::Sys625_50 => raw[1],
            },
            7,
            1,
        ));
        assert(f.bgf1() == bits(raw[3], 6, 1));
        assert(f.bgf2() == bits(
            match system {
                System::Sys525_60 => raw[3],
                System::Sys625_50 => raw[2],
            },
            7,
            1,
        ));
        assert(f.pc1() == raw[0]);
        assert(f.pc2(system) == raw[1]);
        assert(f.pc3(system) == raw[2]);
        assert(f.pc4(system) == raw[3]);
    }

    proof fn lemma_unpack_pc1(self)
        requires
            self.wf(),
        ensures
            bits(self.pc1(), 0, 4) == self.frame_units,
            bits(self.pc1(), 4, 2) == self.frame_tens,
            bits(self.pc1(), 6, 1) == flag(self.df),
            bits(self.pc1(), 7, 1) == self.cf,
    {
    }

    proof fn lemma_unpack_pc2(self, system: System)
        requires
            self.wf(),
        ensures
            bits(self.pc2(system), 0, 4) == self.second_units,
            bits(self.pc2(system), 4, 3) == self.second_tens,
            bits(self.pc2(system), 7, 1) == match system {
                System::Sys525_60 => self.pc,
                System::Sys625_50 => self.bgf0(),
            },
    {
    }

    proof fn lemma_unpack_pc3(self, system: System)
        requires
            self.wf(),
        ensures
            bits(self.pc3(system), 0, 4) == self.minute_units,
            bits(self.pc3(system), 4, 3) == self.minute_tens,
            bits(self.pc3(system), 7, 1) == match system {
                System::Sys525_60 => self.bgf0(),
                System::Sys625_50 => self.bgf2(),
            },
    {
    }

    proof fn lemma_unpack_pc4(self, system: System)
        requires
            self.wf(),
        ensures
            bits(self.pc4(system), 0, 4) == self.hour_units,
            bits(self.pc4(system), 4, 2) == self.hour_tens,
            bits(self.pc4(system), 6, 1) == self.bgf1(),
            bits(self.pc4(system), 7, 1) == match system {
                System::Sys525_60 => self.bgf2(),
                System::Sys625_50 => self.pc,
            },
    {
    }

    /// Unpacking undoes packing.
    pub proof fn lemma_unpack_pack(self, system: System)
        requires
            self.wf(),
        ensures
            Self::unpack(self.pack(system), system) == self,
    {
        self.lemma_unpack_pc1();
        self.lemma_unpack_pc2(system);
        self.lemma_unpack_pc3(system);
        self.lemma_unpack_pc4(system);
        assert(self.bgf == self.bgf0() + 2 * self.bgf1() + 4 * self.bgf2());
    }

    /// Reads the fields of a payload.
    pub fn read(raw: &RawPackData, system: System) -> (r: RawTimecode)
        ensures
            r == Self::unpack(*raw, system),
            r.wf(),
    {
        let top2 = get_bits(raw[1], 7, 1);
        let top3 = get_bits(raw[2], 7, 1);
        let top4 = get_bits(raw[3], 7, 1);
        let bgf1 = get_bits(raw[3], 6, 1);
        RawTimecode {
            frame_units: get_bits(raw[0], 0, 4),
            frame_tens: get_bits(raw[0], 4, 2),
            df: get_bits(raw[0], 6, 1) == 1,
            cf: get_bits(raw[0], 7, 1),
            second_units: get_bits(raw[1], 0, 4),
            second_tens: get_bits(raw[1], 4, 3),
            pc: match system {
                System::Sys525_60 => top2,
                System::Sys625_50 => top4,
            },
            minute_units: get_bits(raw[2], 0, 4),
            minute_tens: get_bits(raw[2], 4, 3),
            hour_units: get_bits(raw[3], 0, 4),
            hour_tens: get_bits(raw[3], 4, 2),
            bgf: match system {
                System::Sys525_60 => top3 + 2 * bgf1 + 4 * top4,
                System::Sys625_50 => top2 + 2 * bgf1 + 4 * top3,
            },
        }
    }

    /// Writes the payload that holds the fields.
    pub fn write(&self, system: System) -> (r: RawPackData)
        requires
            self.wf(),
        ensures
            r == self.pack(system),
    {
        let bgf0: u8 = self.bgf % 2;
        let bgf1: u8 = (self.bgf / 2) % 2;
        let bgf2: u8 = (self.bgf / 4) % 2;
        let top2: u8 = match system {
            System::Sys525_60 => self.pc,
            System::Sys625_50 => bgf0,
        };
        let top3: u8 = match system {
            System::Sys525_60 => bgf0,
            System::Sys625_50 => bgf2,
        };
        let top4: u8 = match system {
            System::Sys525_60 => bgf2,
            System::Sys625_50 => self.pc,
        };
        [
            self.frame_units + 16 * self.frame_tens + 64 * flag_bit(self.df) + 128 * self.cf,
            self.second_units + 16 * self.second_tens + 128 * top2,
            self.minute_units + 16 * self.minute_tens + 128 * top3,
            self.hour_units + 16 * self.hour_tens + 64 * bgf1 + 128 * top4,
        ]
    }
}

/// One two-digit number of a time, or the error that names it.
pub open spec fn time_number(field: BcdField, tens: u8, tens_width: nat, units: u8) -> Result<
    Option<u8>,
    DecodeError,
> {
    match bcd_tens(tens, tens_width, units) {
        Ok(n) => Ok(n),
        Err(e) => Err(DecodeError::Bcd { field, source: e }),
    }
}

/// The timecode that the fields stand for.
///
/// Hour, minute, second and frame number are binary-coded decimal numbers;
/// the first of them with a digit above 9 is the error. Hour, minute and
/// second are present or absent together, and without them there is no frame
/// number. The drop frame flag of an absent time is let go.
pub open spec fn timecode_of(f: RawTimecode) -> Result<RecordingTime, DecodeError> {
    let hour = time_number(BcdField::TimeHour, f.hour_tens, 2, f.hour_units);
    let minute = time_number(BcdField::TimeMinute, f.minute_tens, 3, f.minute_units);
    let second = time_number(BcdField::TimeSecond, f.second_tens, 3, f.second_units);
    let frame = time_number(BcdField::TimeFrame, f.frame_tens, 2, f.frame_units);
    if hour is Err {
        Err(hour->Err_0)
    } else if minute is Err {
        Err(minute->Err_0)
    } else if second is Err {
        Err(second->Err_0)
    } else if frame is Err {
        Err(frame->Err_0)
    } else {
        let h = hour->Ok_0;
        let m = minute->Ok_0;
        let s = second->Ok_0;
        let fr = frame->Ok_0;
        let absent = h is None || m is None || s is None;
        let present = h is Some || m is Some || s is Some;
        if absent == present {
            Err(DecodeError::PartialTime)
        } else if absent && fr is Some {
            Err(DecodeError::FrameWithoutTime)
        } else {
            Ok(
                Timecode {
                    time: if present {
                        Some(
                            TimeValue {
                                hour: h->Some_0,
                                minute: m->Some_0,
                                second: s->Some_0,
                                drop_frame: f.df,
                                frame: fr,
                            },
                        )
                    } else {
                        None
                    },
                    color_frame: ColorFrame::with_code(f.cf),
                    polarity_correction: PolarityCorrection::with_code(f.pc),
                    binary_group_flag: BinaryGroupFlag::with_code(f.bgf),
                },
            )
        }
    }
}

/// The fields that stand for a timecode: an absent number has every bit of
/// its digits set, and an absent time has the drop frame flag set.
pub open spec fn fields_of(t: RecordingTime) -> RawTimecode {
    let frame = match t.time {
        Some(time) => time.frame,
        None => None,
    };
    RawTimecode {
        frame_units: match frame {
            Some(f) => f % 10,
            None => 15u8,
        },
        frame_tens: match frame {
            Some(f) => f / 10,
            None => 3u8,
        },
        df: match t.time {
            Some(time) => time.drop_frame,
            None => true,
        },
        cf: t.color_frame.code(),
        second_units: match t.time {
            Some(time) => time.second % 10,
            None => 15u8,
        },
        second_tens: match t.time {
            Some(time) => time.second / 10,
            None => 7u8,
        },
        pc: t.polarity_correction.code(),
        minute_units: match t.time {
            Some(time) => time.minute % 10,
            None => 15u8,
        },
        minute_tens: match t.time {
            Some(time) => time.minute / 10,
            None => 7u8,
        },
        hour_units: match t.time {
            Some(time) => time.hour % 10,
            None => 15u8,
        },
        hour_tens: match t.time {
            Some(time) => time.hour / 10,
            None => 3u8,
        },
        bgf: t.binary_group_flag.code(),
    }
}

/// The frame number is one of the system, and with drop frame set in 525-60
/// it is none of the two that are skipped: 0 and 1 in second 0 of a minute
/// that is no multiple of 10.
pub open spec fn frame_check(time: TimeValueWithOptionalFrame, ctx: PackContext) -> Result<
    (),
    Violation,
> {
    let system = ctx.file_info.system();
    match time.frame {
        None => Ok(()),
        Some(frame) => if frame > system.max_frame_number() {
            Err(Violation::FrameNumberTooLarge { frame, max: system.max_frame_number(), system })
        } else if system == System::Sys525_60 && time.drop_frame && time.minute % 10 > 0
            && time.second == 0 && frame < 2 {
            Err(Violation::DroppedFrameNumber { frame })
        } else {
            Ok(())
        },
    }
}

/// The violations of a time: of its frame number, hour, minute and second.
pub open spec fn time_value_violations(time: TimeValueWithOptionalFrame, ctx: PackContext) -> Seq<
    FieldError,
> {
    entry(Field::Frame, frame_check(time, ctx)) + entry(
        Field::Hour,
        range_check(time.hour as int, 0, 23),
    ) + entry(Field::Minute, range_check(time.minute as int, 0, 59)) + entry(
        Field::Second,
        range_check(time.second as int, 0, 59),
    )
}

/// The violations of a time that may be absent: none if it is.
pub open spec fn time_violations(time: Option<TimeValueWithOptionalFrame>, ctx: PackContext) -> Seq<
    FieldError,
> {
    match time {
        Some(t) => time_value_violations(t, ctx),
        None => Seq::empty(),
    }
}

/// Blank flag and colour frame flag, which share one bit, have one code.
pub open spec fn blank_flag_check(blank_flag: BlankFlag, color_frame: ColorFrame) -> Result<
    (),
    Violation,
> {
    if blank_flag.code() != color_frame.code() {
        Err(
            Violation::BlankFlagMismatch {
                blank_flag: blank_flag.code(),
                color_frame: color_frame.code(),
            },
        )
    } else {
        Ok(())
    }
}

/// Validates the largest frame number, which depends on the system, and with
/// drop frame the smallest, so that no frame number is one that is skipped.
pub fn check_frame_number(time: &TimeValueWithOptionalFrame, ctx: &PackContext) -> (r: Result<
    (),
    Violation,
>)
    ensures
        r == frame_check(*time, *ctx),
{
    let system = ctx.file_info.system();
    match time.frame {
        None => Ok(()),
        Some(frame) => {
            let max = system.last_frame_number();
            if frame > max {
                return Err(Violation::FrameNumberTooLarge { frame, max, system });
            }
            match system {
                System::Sys525_60 => {
                    if time.drop_frame && time.minute % 10 > 0 && time.second == 0 && frame < 2 {
                        return Err(Violation::DroppedFrameNumber { frame });
                    }
                    Ok(())
                },
                System::Sys625_50 => Ok(()),
            }
        },
    }
}

/// Enforces that [`TitleTimecode::blank_flag`] and [`Timecode::color_frame`]
/// have the same binary value: they are one bit of the pack.
pub fn check_blank_flag(title_timecode: &TitleTimecode) -> (r: Result<(), Violation>)
    ensures
        r == blank_flag_check(title_timecode.blank_flag, title_timecode.timecode.color_frame),
{
    let blank_flag = title_timecode.blank_flag.to_bits();
    let color_frame = title_timecode.timecode.color_frame.to_bits();
    if blank_flag != color_frame {
        Err(Violation::BlankFlagMismatch { blank_flag, color_frame })
    } else {
        Ok(())
    }
}

/// Reports the violations of a time.
pub fn validate_time(time: &Option<TimeValueWithOptionalFrame>, ctx: &PackContext) -> (r: Report)
    ensures
        r@ == time_violations(*time, *ctx),
{
    let mut report = Report::new();
    match time {
        None => {},
        Some(t) => {
            report.record(Field::Frame, check_frame_number(t, ctx));
            report.record(Field::Hour, check_range(t.hour as u16, 0, 23));
            report.record(Field::Minute, check_range(t.minute as u16, 0, 59));
            report.record(Field::Second, check_range(t.second as u16, 0, 59));
        },
    }
    report
}

/// What the rules say of a time without violations.
pub proof fn lemma_valid_time(time: TimeValueWithOptionalFrame, ctx: PackContext)
    requires
        time_value_violations(time, ctx).len() == 0,
    ensures
        time.hour <= 23,
        time.minute <= 59,
        time.second <= 59,
        time.frame is Some ==> time.frame->Some_0 <= 29,
{
    assert(entry(Field::Frame, frame_check(time, ctx)).len() == 0);
    assert(entry(Field::Hour, range_check(time.hour as int, 0, 23)).len() == 0);
    assert(entry(Field::Minute, range_check(time.minute as int, 0, 59)).len() == 0);
    assert(entry(Field::Second, range_check(time.second as int, 0, 59)).len() == 0);
}

/// Entries under a parent are as many as without it.
pub proof fn lemma_nested_len(parent: Field, errors: Seq<FieldError>)
    ensures
        nested(parent, errors).len() == errors.len(),
{
}

/// Reads the timecode that the fields stand for.
pub fn timecode_from_fields(f: &RawTimecode) -> (r: Result<RecordingTime, DecodeError>)
    requires
        f.wf(),
    ensures
        r == timecode_of(*f),
{
    let hour = match from_bcd_tens(f.hour_tens, 2, f.hour_units) {
        Ok(n) => n,
        Err(e) => {
            return Err(DecodeError::Bcd { field: BcdField::TimeHour, source: e });
        },
    };
    let minute = match from_bcd_tens(f.minute_tens, 3, f.minute_units) {
        Ok(n) => n,
        Err(e) => {
            return Err(DecodeError::Bcd { field: BcdField::TimeMinute, source: e });
        },
    };
    let second = match from_bcd_tens(f.second_tens, 3, f.second_units) {
        Ok(n) => n,
        Err(e) => {
            return Err(DecodeError::Bcd { field: BcdField::TimeSecond, source: e });
        },
    };
    let frame = match from_bcd_tens(f.frame_tens, 2, f.frame_units) {
        Ok(n) => n,
        Err(e) => {
            return Err(DecodeError::Bcd { field: BcdField::TimeFrame, source: e });
        },
    };
    let time = match (hour, minute, second) {
        (Some(h), Some(m), Some(s)) => Some(
            TimeValue { hour: h, minute: m, second: s, drop_frame: f.df, frame },
        ),
        (None, None, None) => {
            if frame.is_some() {
                return Err(DecodeError::FrameWithoutTime);
            }
            None
        },
        _ => {
            return Err(DecodeError::PartialTime);
        },
    };
    Ok(
        Timecode {
            time,
            color_frame: ColorFrame::from_bits(f.cf),
            polarity_correction: PolarityCorrection::from_bits(f.pc),
            binary_group_flag: BinaryGroupFlag::from_bits(f.bgf),
        },
    )
}

/// Writes the fields that stand for a valid timecode.
pub fn timecode_to_fields(t: &RecordingTime, ctx: &PackContext) -> (r: RawTimecode)
    requires
        time_violations(t.time, *ctx).len() == 0,
    ensures
        r == fields_of(*t),
        r.wf(),
{
    proof {
        if t.time is Some {
            lemma_valid_time(t.time->Some_0, *ctx);
        }
    }
    let frame = match t.time {
        Some(time) => time.frame,
        None => None,
    };
    RawTimecode {
        frame_units: match frame {
            Some(f) => f % 10,
            None => 15,
        },
        frame_tens: match frame {
            Some(f) => f / 10,
            None => 3,
        },
        df: match t.time {
            Some(time) => time.drop_frame,
            None => true,
        },
        cf: t.color_frame.to_bits(),
        second_units: match t.time {
            Some(time) => time.second % 10,
            None => 15,
        },
        second_tens: match t.time {
            Some(time) => time.second / 10,
            None => 7,
        },
        pc: t.polarity_correction.to_bits(),
        minute_units: match t.time {
            Some(time) => time.minute % 10,
            None => 15,
        },
        minute_tens: match t.time {
            Some(time) => time.minute / 10,
            None => 7,
        },
        hour_units: match t.time {
            Some(time) => time.hour % 10,
            None => 15,
        },
        hour_tens: match t.time {
            Some(time) => time.hour / 10,
            None => 3,
        },
        bgf: t.binary_group_flag.to_bits(),
    }
}

/// A valid timecode is read back from its fields.
pub proof fn lemma_timecode_of_fields(t: RecordingTime, ctx: PackContext)
    requires
        time_violations(t.time, ctx).len() == 0,
    ensures
        fields_of(t).wf(),
        timecode_of(fields_of(t)) == Ok::<RecordingTime, DecodeError>(t),
{
    if t.time is Some {
        lemma_valid_time(t.time->Some_0, ctx);
    }
    t.color_frame.lemma_codes(0);
    t.polarity_correction.lemma_codes(0);
    t.binary_group_flag.lemma_codes(0);
    let f = fields_of(t);
    let r = timecode_of(f);
    assert(r is Ok);
    assert(r->Ok_0.time == t.time);
}

/// The fields of a timecode that was read are those it was read from, but
/// for the drop frame flag of an absent time, which is set.
pub proof fn lemma_fields_of_timecode(f: RawTimecode, ctx: PackContext)
    requires
        f.wf(),
        timecode_of(f) is Ok,
    ensures
        fields_of(timecode_of(f)->Ok_0) == (RawTimecode {
            df: f.df || timecode_of(f)->Ok_0.time is None,
            ..f
        }),
{
    let t = timecode_of(f)->Ok_0;
    t.color_frame.lemma_codes(f.cf);
    t.polarity_correction.lemma_codes(f.pc);
    t.binary_group_flag.lemma_codes(f.bgf);
    let g = fields_of(t);
    assert(g.cf == f.cf);
    assert(g.pc == f.pc);
    assert(g.bgf == f.bgf);
    assert(g.hour_units == f.hour_units && g.hour_tens == f.hour_tens);
    assert(g.minute_units == f.minute_units && g.minute_tens == f.minute_tens);
    assert(g.second_units == f.second_units && g.second_tens == f.second_tens);
    assert(g.frame_units == f.frame_units && g.frame_tens == f.frame_tens);
}

impl<TimeType: TimeTypeTrait> Timecode<TimeType> {
    /// The timecode with its time in the form that may lack the time and the
    /// frame number.
    pub open spec fn optional(self) -> RecordingTime {
        Timecode {
            time: self.time.optional(),
            color_frame: self.color_frame,
            polarity_correction: self.polarity_correction,
            binary_group_flag: self.binary_group_flag,
        }
    }

    pub fn to_optional(&self) -> (r: RecordingTime)
        ensures
            r == self.optional(),
    {
        Timecode {
            time: self.time.to_optional(),
            color_frame: self.color_frame,
            polarity_correction: self.polarity_correction,
            binary_group_flag: self.binary_group_flag,
        }
    }
}

/// The timecode with a required time that a timecode with an optional one
/// holds, if it holds the time and the frame number.
pub open spec fn required_of(t: RecordingTime) -> Result<
    Timecode<TimeValueWithRequiredFrame>,
    DecodeError,
> {
    match t.time {
        None => Err(DecodeError::TimeMissing),
        Some(time) => match time.frame {
            None => Err(DecodeError::FrameMissing),
            Some(frame) => Ok(
                Timecode {
                    time: TimeValue {
                        hour: time.hour,
                        minute: time.minute,
                        second: time.second,
                        drop_frame: time.drop_frame,
                        frame,
                    },
                    color_frame: t.color_frame,
                    polarity_correction: t.polarity_correction,
                    binary_group_flag: t.binary_group_flag,
                },
            ),
        },
    }
}

/// The payload of a recording time that reading and writing again gives: the
/// drop frame flag is set where the time is absent.
pub open spec fn canonical_time(raw: RawPackData) -> RawPackData {
    if bcd_tens(bits(raw[3], 4, 2), 2, bits(raw[3], 0, 4)) == Ok::<Option<u8>, BcdError>(None) {
        [with_bits(raw[0], 6, 1, 1), raw[1], raw[2], raw[3]]
    } else {
        raw
    }
}

impl PackData for RecordingTime {
    open spec fn decode(raw: RawPackData, ctx: PackContext) -> Result<Self, DecodeError> {
        timecode_of(RawTimecode::unpack(raw, ctx.file_info.system()))
    }

    open spec fn violations(&self, ctx: PackContext) -> Seq<FieldError> {
        nested(Field::Time, time_violations(self.time, ctx))
    }

    open spec fn encode(&self, ctx: PackContext) -> RawPackData {
        fields_of(*self).pack(ctx.file_info.system())
    }

    open spec fn canonical(raw: RawPackData, ctx: PackContext) -> RawPackData {
        canonical_time(raw)
    }

    fn try_from_raw(raw: &RawPackData, ctx: &PackContext) -> (r: Result<Self, DecodeError>) {
        let fields = RawTimecode::read(raw, ctx.file_info.system());
        timecode_from_fields(&fields)
    }

    fn validate_with(&self, ctx: &PackContext) -> (r: Result<(), Report>) {
        let inner = validate_time(&self.time, ctx);
        let mut report = Report::new();
        report.record_nested(Field::Time, &inner);
        proof {
            lemma_nested_len(Field::Time, time_violations(self.time, *ctx));
            assert(report@ =~= self.violations(*ctx));
        }
        report.into_result()
    }

    fn write(&self, ctx: &PackContext) -> (r: RawPackData) {
        proof {
            lemma_nested_len(Field::Time, time_violations(self.time, *ctx));
        }
        timecode_to_fields(self, ctx).write(ctx.file_info.system())
    }

    proof fn lemma_decode_encode(self, ctx: PackContext) {
        lemma_nested_len(Field::Time, time_violations(self.time, ctx));
        lemma_timecode_of_fields(self, ctx);
        fields_of(self).lemma_unpack_pack(ctx.file_info.system());
    }

    proof fn lemma_encode_decode(raw: RawPackData, ctx: PackContext) {
        let system = ctx.file_info.system();
        let f = RawTimecode::unpack(raw, system);
        RawTimecode::lemma_pack_unpack(raw, system);
        lemma_fields_of_timecode(f, ctx);
        let t = timecode_of(f)->Ok_0;
        let g = fields_of(t);
        let out = g.pack(system);
        let want = canonical_time(raw);
        assert(t.time is None <==> bcd_tens(f.hour_tens, 2, f.hour_units) == Ok::<
            Option<u8>,
            BcdError,
        >(None));
        assert(out[1] == raw[1]);
        assert(out[2] == raw[2]);
        assert(out[3] == raw[3]);
        assert(out[0] == want[0]);
    }
}

impl PackData for Timecode<TimeValueWithRequiredFrame> {
    open spec fn decode(raw: RawPackData, ctx: PackContext) -> Result<Self, DecodeError> {
        match RecordingTime::decode(raw, ctx) {
            Err(e) => Err(e),
            Ok(t) => required_of(t),
        }
    }

    open spec fn violations(&self, ctx: PackContext) -> Seq<FieldError> {
        nested(Field::Time, time_violations(self.time.optional(), ctx))
    }

    open spec fn encode(&self, ctx: PackContext) -> RawPackData {
        self.optional().encode(ctx)
    }

    /// A time that is present is written as it was read.
    open spec fn canonical(raw: RawPackData, ctx: PackContext) -> RawPackData {
        raw
    }

    fn try_from_raw(raw: &RawPackData, ctx: &PackContext) -> (r: Result<Self, DecodeError>) {
        let parsed = match RecordingTime::try_from_raw(raw, ctx) {
            Ok(t) => t,
            Err(e) => {
                return Err(e);
            },
        };
        let time = match parsed.time {
            Some(time) => time,
            None => {
                return Err(DecodeError::TimeMissing);
            },
        };
        let frame = match time.frame {
            Some(frame) => frame,
            None => {
                return Err(DecodeError::FrameMissing);
            },
        };
        Ok(
            Timecode {
                time: TimeValue {
                    hour: time.hour,
                    minute: time.minute,
                    second: time.second,
                    drop_frame: time.drop_frame,
                    frame,
                },
                color_frame: parsed.color_frame,
                polarity_correction: parsed.polarity_correction,
                binary_group_flag: parsed.binary_group_flag,
            },
        )
    }

    fn validate_with(&self, ctx: &PackContext) -> (r: Result<(), Report>) {
        self.to_optional().validate_with(ctx)
    }

    fn write(&self, ctx: &PackContext) -> (r: RawPackData) {
        self.to_optional().write(ctx)
    }

    proof fn lemma_decode_encode(self, ctx: PackContext) {
        self.optional().lemma_decode_encode(ctx);
    }

    proof fn lemma_encode_decode(raw: RawPackData, ctx: PackContext) {
        let t = RecordingTime::decode(raw, ctx)->Ok_0;
        let v = Self::decode(raw, ctx)->Ok_0;
        assert(v.optional() == t);
        RecordingTime::lemma_encode_decode(raw, ctx);
        let system = ctx.file_info.system();
        let f = RawTimecode::unpack(raw, system);
        assert(t.time is Some);
        assert(!(bcd_tens(f.hour_tens, 2, f.hour_units) == Ok::<
            Option<u8>,
            BcdError,
        >(None)));
    }
}

impl PackData for TitleTimecode {
    open spec fn decode(raw: RawPackData, ctx: PackContext) -> Result<Self, DecodeError> {
        match Timecode::<TimeValueWithRequiredFrame>::decode(raw, ctx) {
            Err(e) => Err(e),
            Ok(timecode) => Ok(
                TitleTimecode { timecode, blank_flag: BlankFlag::with_code(bits(raw[0], 7, 1)) },
            ),
        }
    }

    open spec fn violations(&self, ctx: PackContext) -> Seq<FieldError> {
        entry(Field::BlankFlag, blank_flag_check(self.blank_flag, self.timecode.color_frame))
            + nested(Field::Timecode, self.timecode.violations(ctx))
    }

    /// The blank flag is written by the colour frame flag, whose bit it
    /// shares.
    open spec fn encode(&self, ctx: PackContext) -> RawPackData {
        self.timecode.encode(ctx)
    }

    open spec fn canonical(raw: RawPackData, ctx: PackContext) -> RawPackData {
        raw
    }

    fn try_from_raw(raw: &RawPackData, ctx: &PackContext) -> (r: Result<Self, DecodeError>) {
        match Timecode::<TimeValueWithRequiredFrame>::try_from_raw(raw, ctx) {
            Err(e) => Err(e),
            Ok(timecode) => Ok(
                TitleTimecode { timecode, blank_flag: BlankFlag::from_bits(get_bits(raw[0], 7, 1)) },
            ),
        }
    }

    fn validate_with(&self, ctx: &PackContext) -> (r: Result<(), Report>) {
        let inner = validate_time(&self.timecode.time.to_optional(), ctx);
        let mut middle = Report::new();
        middle.record_nested(Field::Time, &inner);
        let mut report = Report::new();
        report.record(Field::BlankFlag, check_blank_flag(self));
        report.record_nested(Field::Timecode, &middle);
        proof {
            assert(middle@ =~= self.timecode.violations(*ctx));
            assert(report@ =~= self.violations(*ctx));
        }
        report.into_result()
    }

    fn write(&self, ctx: &PackContext) -> (r: RawPackData) {
        proof {
            lemma_nested_len(Field::Timecode, self.timecode.violations(*ctx));
        }
        self.timecode.write(ctx)
    }

    proof fn lemma_decode_encode(self, ctx: PackContext) {
        lemma_nested_len(Field::Timecode, self.timecode.violations(ctx));
        assert(entry(
            Field::BlankFlag,
            blank_flag_check(self.blank_flag, self.timecode.color_frame),
        ).len() == 0);
        self.timecode.lemma_decode_encode(ctx);
        let system = ctx.file_info.system();
        let t = self.timecode.optional();
        lemma_nested_len(Field::Time, time_violations(t.time, ctx));
        lemma_timecode_of_fields(t, ctx);
        fields_of(t).lemma_unpack_pack(system);
        let raw = self.encode(ctx);
        assert(bits(raw[0], 7, 1) == self.timecode.color_frame.code());
        self.blank_flag.lemma_codes(0);
    }

    proof fn lemma_encode_decode(raw: RawPackData, ctx: PackContext) {
        let v = Self::decode(raw, ctx)->Ok_0;
        lemma_nested_len(Field::Timecode, v.timecode.violations(ctx));
        Timecode::<TimeValueWithRequiredFrame>::lemma_encode_decode(raw, ctx);
    }
}

} // verus!
