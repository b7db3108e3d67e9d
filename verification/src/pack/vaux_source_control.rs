//! The VAUX source control pack.
use vstd::prelude::*;

use crate::pack::common::check_fits;
use crate::pack::common::check_genre_category;
use crate::pack::common::check_range;
use crate::pack::common::fits_check;
use crate::pack::common::genre_category_check;
use crate::pack::common::range_check;
use crate::pack::util::bits;
use crate::pack::util::get_bits;
use crate::pack::util::lemma_byte_2_1_1_1_1_1_1;
use crate::pack::util::lemma_byte_2_2_2_2;
use crate::pack::util::lemma_byte_3_1_2_1_1;
use crate::pack::util::lemma_byte_7_1;
use crate::pack::CompressionCount;
use crate::pack::CopyProtection;
use crate::pack::DecodeError;
use crate::pack::InputSource;
use crate::pack::PackContext;
use crate::pack::PackData;
use crate::pack::RawPackData;
use crate::pack::SourceSituation;
use crate::report::entry;
use crate::report::Field;
use crate::report::FieldError;
use crate::report::Report;

verus! {

/// Indicates the recording mode of the video.
///
/// New video content can be dubbed onto existing audio at a later time.  This flag is
/// supposed to indicate whether that has happened.
#[derive(Debug, PartialEq, Eq, Hash, Clone, Copy, Structural)]
pub enum VAUXRecordingMode {
    /// All video was recorded at the same time as the audio.
    Original,
    /// The video was updated with new content, while the audio block channels were left alone.
    Insert,
    InvalidRecording,
    Reserved,
}

impl VAUXRecordingMode {
    /// The code of the value in its field of 2 bits.
    pub open spec fn code(self) -> u8 {
        match self {
            VAUXRecordingMode::Original => 0x0u8,
            VAUXRecordingMode::Insert => 0x2u8,
            VAUXRecordingMode::InvalidRecording => 0x3u8,
            VAUXRecordingMode::Reserved => 0x1u8,
        }
    }

    /// The value with the given code.
    pub open spec fn with_code(code: u8) -> VAUXRecordingMode {
        if code == 0 {
            VAUXRecordingMode::Original
        } else if code == 1 {
            VAUXRecordingMode::Reserved
        } else if code == 2 {
            VAUXRecordingMode::Insert
        } else {
            VAUXRecordingMode::InvalidRecording
        }
    }

    pub fn to_bits(self) -> (r: u8)
        ensures
            r == self.code(),
            r < 4,
            VAUXRecordingMode::with_code(r) == self,
    {
        match self {
            VAUXRecordingMode::Original => 0x0,
            VAUXRecordingMode::Insert => 0x2,
            VAUXRecordingMode::InvalidRecording => 0x3,
            VAUXRecordingMode::Reserved => 0x1,
        }
    }

    pub fn from_bits(bits: u8) -> (r: VAUXRecordingMode)
        requires
            bits < 4,
        ensures
            r == VAUXRecordingMode::with_code(bits),
            r.code() == bits,
    {
        if bits == 0 {
            VAUXRecordingMode::Original
        } else if bits == 1 {
            VAUXRecordingMode::Reserved
        } else if bits == 2 {
            VAUXRecordingMode::Insert
        } else {
            VAUXRecordingMode::InvalidRecording
        }
    }

    /// Values and codes below 4 correspond one to one.
    pub proof fn lemma_codes(self, code: u8)
        ensures
            self.code() < 4,
            VAUXRecordingMode::with_code(self.code()) == self,
            code < 4 ==> VAUXRecordingMode::with_code(code).code() == code,
    {
    }
}

/// Indicates whether both fields are output in order or only one of them is output twice
/// during one frame period.
#[derive(Debug, PartialEq, Eq, Hash, Clone, Copy, Structural)]
pub enum FrameField {
    /// Only one of two fields is output twice
    OnlyOne,
    /// Both fields are output in order
    Both,
}

impl FrameField {
    /// The code of the value in its field of 1 bit.
    pub open spec fn code(self) -> u8 {
        match self {
            FrameField::OnlyOne => 0u8,
            FrameField::Both => 1u8,
        }
    }

    /// The value with the given code.
    pub open spec fn with_code(code: u8) -> FrameField {
        if code == 0 {
            FrameField::OnlyOne
        } else {
            FrameField::Both
        }
    }

    pub fn to_bits(self) -> (r: u8)
        ensures
            r == self.code(),
            r < 2,
            FrameField::with_code(r) == self,
    {
        match self {
            FrameField::OnlyOne => 0,
            FrameField::Both => 1,
        }
    }

    pub fn from_bits(bits: u8) -> (r: FrameField)
        requires
            bits < 2,
        ensures
            r == FrameField::with_code(bits),
            r.code() == bits,
    {
        if bits == 0 {
            FrameField::OnlyOne
        } else {
            FrameField::Both
        }
    }

    /// Values and codes below 2 correspond one to one.
    pub proof fn lemma_codes(self, code: u8)
        ensures
            self.code() < 2,
            FrameField::with_code(self.code()) == self,
            code < 2 ==> FrameField::with_code(code).code() == code,
    {
    }
}

/// Indicates whether the picture of the current frame is the same as the previous frame.
#[derive(Debug, PartialEq, Eq, Hash, Clone, Copy, Structural)]
pub enum FrameChange {
    /// The current frame has the same picture as the previous frame.
    SameAsPrevious,
    /// The current frame has a new picture that is different from the previous frame.
    DifferentFromPrevious,
}

impl FrameChange {
    /// The code of the value in its field of 1 bit.
    pub open spec fn code(self) -> u8 {
        match self {
            FrameChange::SameAsPrevious => 0u8,
            FrameChange::DifferentFromPrevious => 1u8,
        }
    }

    /// The value with the given code.
    pub open spec fn with_code(code: u8) -> FrameChange {
        if code == 0 {
            FrameChange::SameAsPrevious
        } else {
            FrameChange::DifferentFromPrevious
        }
    }

    pub fn to_bits(self) -> (r: u8)
        ensures
            r == self.code(),
            r < 2,
            FrameChange::with_code(r) == self,
    {
        match self {
            FrameChange::SameAsPrevious => 0,
            FrameChange::DifferentFromPrevious => 1,
        }
    }

    pub fn from_bits(bits: u8) -> (r: FrameChange)
        requires
            bits < 2,
        ensures
            r == FrameChange::with_code(bits),
            r.code() == bits,
    {
        if bits == 0 {
            FrameChange::SameAsPrevious
        } else {
            FrameChange::DifferentFromPrevious
        }
    }

    /// Values and codes below 2 correspond one to one.
    pub proof fn lemma_codes(self, code: u8)
        ensures
            self.code() < 2,
            FrameChange::with_code(self.code()) == self,
            code < 2 ==> FrameChange::with_code(code).code() == code,
    {
    }
}

/// Indicates the time difference between the two fields within a frame.
///
/// The value shall be the same for at least three consecutive frames.
#[derive(Debug, PartialEq, Eq, Hash, Clone, Copy, Structural)]
pub enum StillFieldPicture {
    /// No time elapsed between fields in a frame
    NoGap,
    /// 1001/60 (NTSC) or 1/50 (PAL/SECAM) seconds elapsed between fields
    HalfFrameTime,
}

impl StillFieldPicture {
    /// The code of the value in its field of 1 bit.
    pub open spec fn code(self) -> u8 {
        match self {
            StillFieldPicture::NoGap => 0u8,
            StillFieldPicture::HalfFrameTime => 1u8,
        }
    }

    /// The value with the given code.
    pub open spec fn with_code(code: u8) -> StillFieldPicture {
        if code == 0 {
            StillFieldPicture::NoGap
        } else {
            StillFieldPicture::HalfFrameTime
        }
    }

    pub fn to_bits(self) -> (r: u8)
        ensures
            r == self.code(),
            r < 2,
            StillFieldPicture::with_code(r) == self,
    {
        match self {
            StillFieldPicture::NoGap => 0,
            StillFieldPicture::HalfFrameTime => 1,
        }
    }

    pub fn from_bits(bits: u8) -> (r: StillFieldPicture)
        requires
            bits < 2,
        ensures
            r == StillFieldPicture::with_code(bits),
            r.code() == bits,
    {
        if bits == 0 {
            StillFieldPicture::NoGap
        } else {
            StillFieldPicture::HalfFrameTime
        }
    }

    /// Values and codes below 2 correspond one to one.
    pub proof fn lemma_codes(self, code: u8)
        ensures
            self.code() < 2,
            StillFieldPicture::with_code(self.code()) == self,
            code < 2 ==> StillFieldPicture::with_code(code).code() == code,
    {
    }
}

/// Contains some metadata about the video stream.
///
/// DV standards:
///
/// - IEC 61834-4:1998 Section 9.2 - Source Control (VAUX)
/// - SMPTE 306M-2002 Section 8.9.2 - VAUX source control pack (VSC)
#[derive(Debug, PartialEq, Eq, Hash, Clone, Copy, Structural)]
pub struct VAUXSourceControl {
    /// Broadcast system type, in two bits: `0` for type 0 (IEC 61880,
    /// EIA-608), `1` for type 1 (prETS 300 294), other values reserved. See
    /// the table in IEC 61834-4 for how it relates to
    /// [`VAUXSourceControl::display_mode`].
    pub broadcast_system: u8,
    /// Display select mode, in three bits. See the table in IEC 61834-4 for
    /// how it relates to [`VAUXSourceControl::broadcast_system`].
    pub display_mode: u8,
    /// Indicates whether both fields are output in order or only one of them
    /// is output twice during one frame period.
    pub frame_field: FrameField,
    /// Indicates which field to output during field 1 period: `1` or `2`.
    pub first_second: u8,
    /// Indicates whether the picture of the current frame is the same as the
    /// previous frame.
    pub frame_change: FrameChange,
    /// Indicates whether the data of two fields within one frame are
    /// interlaced or non-interlaced.
    pub interlaced: bool,
    /// Indicates the time difference between the two fields within a frame.
    pub still_field_picture: StillFieldPicture,
    /// Indicates that the frame is a still camera picture.
    pub still_camera_picture: bool,
    /// Copy protection flags
    pub copy_protection: CopyProtection,
    /// Indicates whether the source was scrambled and whether it was
    /// descrambled when recorded.
    pub source_situation: Option<SourceSituation>,
    /// Input source of the recorded content, if known.
    pub input_source: Option<InputSource>,
    /// The number of times the content has been compressed, if known.
    pub compression_count: Option<CompressionCount>,
    /// Indicates whether this pack marks the start of a new recording.
    pub recording_start_point: bool,
    /// Indicates the recording mode of the video.
    pub recording_mode: VAUXRecordingMode,
    /// Defines the genre or category of the video source, below `0x7F`. See
    /// IEC 61834-4:1998 Section 3.3 - Timer Activation Date (CONTROL) for
    /// the list.
    pub genre_category: Option<u8>,
    /// Reserved bits, three of them; should normally be set to 0x7.
    pub reserved: u8,
}

/// The bit fields of a VAUX source control payload.
pub struct RawVAUXSourceControl {
    pub ss: u8,
    pub compression: u8,
    pub isr: u8,
    pub cgms: u8,
    pub disp: u8,
    pub reserved: u8,
    pub rec_mode: u8,
    pub rec_st: u8,
    pub bcsys: u8,
    pub sc: u8,
    pub st: u8,
    pub il: u8,
    pub fc: u8,
    pub fs: u8,
    pub ff: u8,
    pub genre_category: u8,
}

impl RawVAUXSourceControl {
    /// Every field fits into its bits.
    pub open spec fn wf(self) -> bool {
        &&& self.ss < 4
        &&& self.compression < 4
        &&& self.isr < 4
        &&& self.cgms < 4
        &&& self.disp < 8
        &&& self.reserved < 8
        &&& self.rec_mode < 4
        &&& self.rec_st < 2
        &&& self.bcsys < 4
        &&& self.sc < 2
        &&& self.st < 2
        &&& self.il < 2
        &&& self.fc < 2
        &&& self.fs < 2
        &&& self.ff < 2
        &&& self.genre_category < 128
    }

    /// The fields of a payload, by byte and bits (lowest bits first where a
    /// field has several parts): `ss` 1:0-1, `compression` 1:2-3, `isr` 1:4-5, `cgms`
    /// 1:6-7, `disp` 2:0-2, `reserved` 2:3 with 2:6 with 4:7, `rec_mode` 2:4-5,
    /// `rec_st` 2:7, `bcsys` 3:0-1, `sc` 3:2, `st` 3:3, `il` 3:4, `fc` 3:5,
    /// `fs` 3:6, `ff` 3:7, `genre_category` 4:0-6.
    pub open spec fn unpack(raw: RawPackData) -> RawVAUXSourceControl {
        RawVAUXSourceControl {
            ss: bits(raw[0], 0, 2),
            compression: bits(raw[0], 2, 2),
            isr: bits(raw[0], 4, 2),
            cgms: bits(raw[0], 6, 2),
            disp: bits(raw[1], 0, 3),
            reserved: (bits(raw[1], 3, 1) + 2 * bits(raw[1], 6, 1) + 4 * bits(raw[3], 7, 1)) as u8,
            rec_mode: bits(raw[1], 4, 2),
            rec_st: bits(raw[1], 7, 1),
            bcsys: bits(raw[2], 0, 2),
            sc: bits(raw[2], 2, 1),
            st: bits(raw[2], 3, 1),
            il: bits(raw[2], 4, 1),
            fc: bits(raw[2], 5, 1),
            fs: bits(raw[2], 6, 1),
            ff: bits(raw[2], 7, 1),
            genre_category: bits(raw[3], 0, 7),
        }
    }

    /// First byte of the payload.
    pub open spec fn pc1(self) -> u8 {
        (self.ss + 4 * self.compression + 16 * self.isr + 64 * self.cgms) as u8
    }

    /// Second byte of the payload.
    pub open spec fn pc2(self) -> u8 {
        (self.disp + 8 * (self.reserved % 2) + 16 * self.rec_mode + 64 * ((self.reserved / 2) % 2)
            + 128 * self.rec_st) as u8
    }

    /// Third byte of the payload.
    pub open spec fn pc3(self) -> u8 {
        (self.bcsys + 4 * self.sc + 8 * self.st + 16 * self.il + 32 * self.fc + 64 * self.fs
            + 128 * self.ff) as u8
    }

    /// Fourth byte of the payload.
    pub open spec fn pc4(self) -> u8 {
        (self.genre_category + 128 * (self.reserved / 4)) as u8
    }

    /// The payload that holds the fields: the inverse of
    /// [`RawVAUXSourceControl::unpack`].
    pub open spec fn pack(self) -> RawPackData {
        [self.pc1(), self.pc2(), self.pc3(), self.pc4()]
    }

    /// Packing undoes unpacking.
    pub proof fn lemma_pack_unpack(raw: RawPackData)
        ensures
            Self::unpack(raw).wf(),
            Self::unpack(raw).pack() == raw,
    {
        let f = Self::unpack(raw);
        lemma_byte_2_2_2_2(raw[0]);
        lemma_byte_3_1_2_1_1(raw[1]);
        lemma_byte_2_1_1_1_1_1_1(raw[2]);
        lemma_byte_7_1(raw[3]);
        assert(f.reserved % 2 == bits(raw[1], 3, 1));
        assert((f.reserved / 2) % 2 == bits(raw[1], 6, 1));
        assert(f.reserved / 4 == bits(raw[3], 7, 1));
        assert(f.pc1() == raw[0]);
        assert(f.pc2() == raw[1]);
        assert(f.pc3() == raw[2]);
        assert(f.pc4() == raw[3]);
    }

    proof fn lemma_unpack_pc1(self)
        requires
            self.wf(),
        ensures
            bits(self.pc1(), 0, 2) == self.ss,
            bits(self.pc1(), 2, 2) == self.compression,
            bits(self.pc1(), 4, 2) == self.isr,
            bits(self.pc1(), 6, 2) == self.cgms,
    {
    }

    proof fn lemma_unpack_pc2(self)
        requires
            self.wf(),
        ensures
            bits(self.pc2(), 0, 3) == self.disp,
            bits(self.pc2(), 3, 1) == self.reserved % 2,
            bits(self.pc2(), 4, 2) == self.rec_mode,
            bits(self.pc2(), 6, 1) == (self.reserved / 2) % 2,
            bits(self.pc2(), 7, 1) == self.rec_st,
    {
    }

    proof fn lemma_unpack_pc3(self)
        requires
            self.wf(),
        ensures
            bits(self.pc3(), 0, 2) == self.bcsys,
            bits(self.pc3(), 2, 1) == self.sc,
            bits(self.pc3(), 3, 1) == self.st,
            bits(self.pc3(), 4, 1) == self.il,
            bits(self.pc3(), 5, 1) == self.fc,
            bits(self.pc3(), 6, 1) == self.fs,
            bits(self.pc3(), 7, 1) == self.ff,
    {
    }

    proof fn lemma_unpack_pc4(self)
        requires
            self.wf(),
        ensures
            bits(self.pc4(), 0, 7) == self.genre_category,
            bits(self.pc4(), 7, 1) == self.reserved / 4,
    {
    }

    /// Unpacking undoes packing.
    pub proof fn lemma_unpack_pack(self)
        requires
            self.wf(),
        ensures
            Self::unpack(self.pack()) == self,
    {
        self.lemma_unpack_pc1();
        self.lemma_unpack_pc2();
        self.lemma_unpack_pc3();
        self.lemma_unpack_pc4();
        assert(self.reserved == self.reserved % 2 + 2 * ((self.reserved / 2) % 2)
            + 4 * (self.reserved / 4));
    }

    /// Reads the fields of a payload.
    pub fn read(raw: &RawPackData) -> (r: RawVAUXSourceControl)
        ensures
            r == Self::unpack(*raw),
            r.wf(),
    {
        RawVAUXSourceControl {
            ss: get_bits(raw[0], 0, 2),
            compression: get_bits(raw[0], 2, 2),
            isr: get_bits(raw[0], 4, 2),
            cgms: get_bits(raw[0], 6, 2),
            disp: get_bits(raw[1], 0, 3),
            reserved: get_bits(raw[1], 3, 1) + 2 * get_bits(raw[1], 6, 1)
                + 4 * get_bits(raw[3], 7, 1),
            rec_mode: get_bits(raw[1], 4, 2),
            rec_st: get_bits(raw[1], 7, 1),
            bcsys: get_bits(raw[2], 0, 2),
            sc: get_bits(raw[2], 2, 1),
            st: get_bits(raw[2], 3, 1),
            il: get_bits(raw[2], 4, 1),
            fc: get_bits(raw[2], 5, 1),
            fs: get_bits(raw[2], 6, 1),
            ff: get_bits(raw[2], 7, 1),
            genre_category: get_bits(raw[3], 0, 7),
        }
    }

    /// Writes the payload that holds the fields.
    pub fn write(&self) -> (r: RawPackData)
        requires
            self.wf(),
        ensures
            r == self.pack(),
    {
        [
            self.ss + 4 * self.compression + 16 * self.isr + 64 * self.cgms,
            self.disp + 8 * (self.reserved % 2) + 16 * self.rec_mode
                + 64 * ((self.reserved / 2) % 2) + 128 * self.rec_st,
            self.bcsys + 4 * self.sc + 8 * self.st + 16 * self.il + 32 * self.fc + 64 * self.fs
                + 128 * self.ff,
            self.genre_category + 128 * (self.reserved / 4),
        ]
    }
}

/// The VAUX source control that the fields stand for. Every payload stands
/// for one.
pub open spec fn vaux_source_control_of(f: RawVAUXSourceControl) -> VAUXSourceControl {
    VAUXSourceControl {
        broadcast_system: f.bcsys,
        display_mode: f.disp,
        frame_field: FrameField::with_code(f.ff),
        first_second: if f.fs == 0 {
            2u8
        } else {
            1u8
        },
        frame_change: FrameChange::with_code(f.fc),
        interlaced: f.il == 1,
        still_field_picture: StillFieldPicture::with_code(f.st),
        still_camera_picture: f.sc == 0,
        copy_protection: CopyProtection::with_code(f.cgms),
        source_situation: SourceSituation::with_optional_code(f.ss),
        input_source: InputSource::with_optional_code(f.isr),
        compression_count: CompressionCount::with_optional_code(f.compression),
        recording_start_point: f.rec_st == 0,
        recording_mode: VAUXRecordingMode::with_code(f.rec_mode),
        genre_category: if f.genre_category == 0x7F {
            None
        } else {
            Some(f.genre_category)
        },
        reserved: f.reserved,
    }
}

/// The fields that stand for a VAUX source control.
pub open spec fn fields_of(v: VAUXSourceControl) -> RawVAUXSourceControl {
    RawVAUXSourceControl {
        ss: SourceSituation::optional_code(v.source_situation),
        compression: CompressionCount::optional_code(v.compression_count),
        isr: InputSource::optional_code(v.input_source),
        cgms: v.copy_protection.code(),
        disp: v.display_mode,
        reserved: v.reserved,
        rec_mode: v.recording_mode.code(),
        rec_st: if v.recording_start_point {
            0u8
        } else {
            1u8
        },
        bcsys: v.broadcast_system,
        sc: if v.still_camera_picture {
            0u8
        } else {
            1u8
        },
        st: v.still_field_picture.code(),
        il: if v.interlaced {
            1u8
        } else {
            0u8
        },
        fc: v.frame_change.code(),
        fs: if v.first_second == 1 {
            1u8
        } else {
            0u8
        },
        ff: v.frame_field.code(),
        genre_category: match v.genre_category {
            Some(g) => g,
            None => 0x7Fu8,
        },
    }
}

/// Reads the VAUX source control that the fields stand for.
pub fn vaux_source_control_from_fields(f: &RawVAUXSourceControl) -> (r: VAUXSourceControl)
    requires
        f.wf(),
    ensures
        r == vaux_source_control_of(*f),
{
    VAUXSourceControl {
        broadcast_system: f.bcsys,
        display_mode: f.disp,
        frame_field: FrameField::from_bits(f.ff),
        first_second: if f.fs == 0 {
            2
        } else {
            1
        },
        frame_change: FrameChange::from_bits(f.fc),
        interlaced: f.il == 1,
        still_field_picture: StillFieldPicture::from_bits(f.st),
        still_camera_picture: f.sc == 0,
        copy_protection: CopyProtection::from_bits(f.cgms),
        source_situation: SourceSituation::from_optional_bits(f.ss),
        input_source: InputSource::from_optional_bits(f.isr),
        compression_count: CompressionCount::from_optional_bits(f.compression),
        recording_start_point: f.rec_st == 0,
        recording_mode: VAUXRecordingMode::from_bits(f.rec_mode),
        genre_category: if f.genre_category == 0x7F {
            None
        } else {
            Some(f.genre_category)
        },
        reserved: f.reserved,
    }
}

impl VAUXSourceControl {
    /// What the rules of the single fields say of a value without violations.
    pub proof fn lemma_valid(self, ctx: PackContext)
        requires
            self.violations(ctx).len() == 0,
        ensures
            self.broadcast_system <= 3,
            self.display_mode <= 7,
            1 <= self.first_second <= 2,
            genre_category_check(self.genre_category) is Ok,
            self.reserved <= 7,
    {
        assert(entry(Field::BroadcastSystem, fits_check(self.broadcast_system, 3)).len() == 0);
        assert(entry(Field::DisplayMode, fits_check(self.display_mode, 7)).len() == 0);
        assert(entry(Field::FirstSecond, range_check(self.first_second as int, 1, 2)).len() == 0);
        assert(entry(Field::GenreCategory, genre_category_check(self.genre_category)).len() == 0);
        assert(entry(Field::Reserved, fits_check(self.reserved, 7)).len() == 0);
    }

    /// Writes the fields that stand for a valid VAUX source control.
    pub fn to_fields(&self, ctx: &PackContext) -> (r: RawVAUXSourceControl)
        requires
            self.violations(*ctx).len() == 0,
        ensures
            r == fields_of(*self),
            r.wf(),
    {
        proof {
            self.lemma_valid(*ctx);
        }
        RawVAUXSourceControl {
            ss: SourceSituation::to_optional_bits(self.source_situation),
            compression: CompressionCount::to_optional_bits(self.compression_count),
            isr: InputSource::to_optional_bits(self.input_source),
            cgms: self.copy_protection.to_bits(),
            disp: self.display_mode,
            reserved: self.reserved,
            rec_mode: self.recording_mode.to_bits(),
            rec_st: if self.recording_start_point {
                0
            } else {
                1
            },
            bcsys: self.broadcast_system,
            sc: if self.still_camera_picture {
                0
            } else {
                1
            },
            st: self.still_field_picture.to_bits(),
            il: if self.interlaced {
                1
            } else {
                0
            },
            fc: self.frame_change.to_bits(),
            fs: if self.first_second == 1 {
                1
            } else {
                0
            },
            ff: self.frame_field.to_bits(),
            genre_category: match self.genre_category {
                Some(g) => g,
                None => 0x7F,
            },
        }
    }

    /// A valid VAUX source control is read back from its fields.
    pub proof fn lemma_of_fields(self, ctx: PackContext)
        requires
            self.violations(ctx).len() == 0,
        ensures
            fields_of(self).wf(),
            vaux_source_control_of(fields_of(self)) == self,
    {
        self.lemma_valid(ctx);
        self.frame_field.lemma_codes(0);
        self.frame_change.lemma_codes(0);
        self.still_field_picture.lemma_codes(0);
        self.copy_protection.lemma_codes(0);
        self.recording_mode.lemma_codes(0);
        SourceSituation::lemma_optional_codes(self.source_situation, 0);
        InputSource::lemma_optional_codes(self.input_source, 0);
        CompressionCount::lemma_optional_codes(self.compression_count, 0);
    }

    /// The fields of a VAUX source control that was read are those it was
    /// read from.
    pub proof fn lemma_fields_of(f: RawVAUXSourceControl)
        requires
            f.wf(),
        ensures
            fields_of(vaux_source_control_of(f)) == f,
    {
        let v = vaux_source_control_of(f);
        v.frame_field.lemma_codes(f.ff);
        v.frame_change.lemma_codes(f.fc);
        v.still_field_picture.lemma_codes(f.st);
        v.copy_protection.lemma_codes(f.cgms);
        v.recording_mode.lemma_codes(f.rec_mode);
        SourceSituation::lemma_optional_codes(v.source_situation, f.ss);
        InputSource::lemma_optional_codes(v.input_source, f.isr);
        CompressionCount::lemma_optional_codes(v.compression_count, f.compression);
    }
}

impl PackData for VAUXSourceControl {
    open spec fn decode(raw: RawPackData, ctx: PackContext) -> Result<Self, DecodeError> {
        Ok(vaux_source_control_of(RawVAUXSourceControl::unpack(raw)))
    }

    open spec fn violations(&self, ctx: PackContext) -> Seq<FieldError> {
        entry(Field::BroadcastSystem, fits_check(self.broadcast_system, 3)) + entry(
            Field::DisplayMode,
            fits_check(self.display_mode, 7),
        ) + entry(Field::FirstSecond, range_check(self.first_second as int, 1, 2)) + entry(
            Field::GenreCategory,
            genre_category_check(self.genre_category),
        ) + entry(Field::Reserved, fits_check(self.reserved, 7))
    }

    open spec fn encode(&self, ctx: PackContext) -> RawPackData {
        fields_of(*self).pack()
    }

    /// Every bit of the payload has its field: nothing is let go.
    open spec fn canonical(raw: RawPackData, ctx: PackContext) -> RawPackData {
        raw
    }

    fn try_from_raw(raw: &RawPackData, ctx: &PackContext) -> (r: Result<Self, DecodeError>) {
        let fields = RawVAUXSourceControl::read(raw);
        Ok(vaux_source_control_from_fields(&fields))
    }

    fn validate_with(&self, ctx: &PackContext) -> (r: Result<(), Report>) {
        let mut report = Report::new();
        report.record(Field::BroadcastSystem, check_fits(self.broadcast_system, 3));
        report.record(Field::DisplayMode, check_fits(self.display_mode, 7));
        report.record(Field::FirstSecond, check_range(self.first_second as u16, 1, 2));
        report.record(Field::GenreCategory, check_genre_category(self.genre_category));
        report.record(Field::Reserved, check_fits(self.reserved, 7));
        report.into_result()
    }

    fn write(&self, ctx: &PackContext) -> (r: RawPackData) {
        self.to_fields(ctx).write()
    }

    proof fn lemma_decode_encode(self, ctx: PackContext) {
        self.lemma_of_fields(ctx);
        fields_of(self).lemma_unpack_pack();
    }

    proof fn lemma_encode_decode(raw: RawPackData, ctx: PackContext) {
        RawVAUXSourceControl::lemma_pack_unpack(raw);
        Self::lemma_fields_of(RawVAUXSourceControl::unpack(raw));
    }
}

} // verus!
