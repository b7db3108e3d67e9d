//! The list of pack types, and the packs that hold no parsed content.
use vstd::prelude::*;

use vstd::std_specs::convert::FromSpecImpl;

use crate::pack::is_valid;
use crate::pack::lemma_outcome;
use crate::pack::outcome;
use crate::pack::rewritten;
use crate::pack::written;
use crate::pack::AAUXSource;
use crate::pack::AAUXSourceControl;
use crate::pack::BinaryGroup;
use crate::pack::CameraConsumer1;
use crate::pack::DecodeError;
use crate::pack::Failure;
use crate::pack::PackContext;
use crate::pack::PackData;
use crate::pack::RawError;
use crate::pack::RawPack;
use crate::pack::RawPackData;
use crate::pack::RecordingDate;
use crate::pack::RecordingTime;
use crate::pack::TitleTimecode;
use crate::pack::VAUXSource;
use crate::pack::VAUXSourceControl;
use crate::pack::ValidPack;
use crate::pack::ValidPackDataTrait;
use crate::report::FieldError;
use crate::report::Report;

verus! {

/// Possible DV pack types
///
/// [`Type::of`] gives the type of a raw pack header byte, [`Type::header`]
/// the header byte of a type; so do the conversions from and into `u8`.
#[derive(Debug, PartialEq, Eq, Clone, Copy, Hash, Structural)]
pub enum Type {
    /// The timecode data showing elapsed time in the title at the tape position where this
    /// was recorded.
    ///
    /// - IEC 61834-4:1998 Section 4.4 - Time Code (TITLE)
    /// - SMPTE 306M-2002 Section 9.2.1 - Time code pack (TC)
    TitleTimecode,
    /// Additional binary group data associated with the title timecode pack.
    ///
    /// - IEC 61834-4:1998 Section 4.5 - Binary Group (TITLE)
    /// - SMPTE 306M-2002 Section 9.2.2 - Binary group pack (BG)
    TitleBinaryGroup,
    /// Information about the audio stream.
    ///
    /// - IEC 61834-4:1998 Section 8.1 - Source (AAUX)
    /// - SMPTE 306M-2002 Section 7.4.1 - AAUX source pack (AS)
    AAUXSource,
    /// Further information about the audio stream.
    ///
    /// - IEC 61834-4:1998 Section 8.2 - Source control (AAUX)
    /// - SMPTE 306M-2002 Section 7.4.2 - AAUX source control pack (ASC)
    AAUXSourceControl,
    /// The date when audio data is recorded.
    ///
    /// - IEC 61834-4:1998 Section 8.3 - Rec Date (AAUX)
    AAUXRecordingDate,
    /// The time when audio data is recorded.
    ///
    /// - IEC 61834-4:1998 Section 8.4 - Rec Time (AAUX)
    AAUXRecordingTime,
    /// Additional binary group data associated with the AAUX recording time pack.
    ///
    /// - IEC 61834-4:1998 Section 8.5 - Binary Group (AAUX)
    AAUXBinaryGroup,
    /// Information about the video stream.
    ///
    /// - IEC 61834-4:1998 Section 9.1 - Source (VAUX)
    /// - SMPTE 306M-2002 Section 8.9.1 - VAUX source pack (VS)
    VAUXSource,
    /// Further information about the video stream.
    ///
    /// - IEC 61834-4:1998 Section 9.2 - Source control (VAUX)
    /// - SMPTE 306M-2002 Section 8.9.2 - VAUX source control pack (VSC)
    VAUXSourceControl,
    /// The date when video data is recorded.
    ///
    /// - IEC 61834-4:1998 Section 9.3 - Rec Date (VAUX)
    VAUXRecordingDate,
    /// The time when video data is recorded.
    ///
    /// - IEC 61834-4:1998 Section 9.4 - Rec Time (VAUX)
    VAUXRecordingTime,
    /// Additional binary group data associated with the VAUX recording time pack.
    ///
    /// - IEC 61834-4:1998 Section 9.5 - Binary Group (VAUX)
    VAUXBinaryGroup,
    /// Settings of a consumer camera.
    ///
    /// - IEC 61834-4:1998 Section 10.1 - Consumer Camera 1 (CAMERA)
    CameraConsumer1,
    /// No information: there is no pack in this position, or it dropped out.
    ///
    /// - IEC 61834-4:1998 Section 12.16 - No Info: No information (SOFT MODE)
    NoInfo,
    /// DV pack type that is not yet supported, with its header byte.
    Unknown(u8),
}

impl Type {
    /// The type of a pack header byte: unrecognized bytes are
    /// [`Type::Unknown`].
    pub open spec fn of(header: u8) -> Type {
        if header == 0x13 {
            Type::TitleTimecode
        } else if header == 0x14 {
            Type::TitleBinaryGroup
        } else if header == 0x50 {
            Type::AAUXSource
        } else if header == 0x51 {
            Type::AAUXSourceControl
        } else if header == 0x52 {
            Type::AAUXRecordingDate
        } else if header == 0x53 {
            Type::AAUXRecordingTime
        } else if header == 0x54 {
            Type::AAUXBinaryGroup
        } else if header == 0x60 {
            Type::VAUXSource
        } else if header == 0x61 {
            Type::VAUXSourceControl
        } else if header == 0x62 {
            Type::VAUXRecordingDate
        } else if header == 0x63 {
            Type::VAUXRecordingTime
        } else if header == 0x64 {
            Type::VAUXBinaryGroup
        } else if header == 0x70 {
            Type::CameraConsumer1
        } else if header == 0xFF {
            Type::NoInfo
        } else {
            Type::Unknown(header)
        }
    }

    /// The pack header byte of a type.
    pub open spec fn header(self) -> u8 {
        match self {
            Type::TitleTimecode => 0x13u8,
            Type::TitleBinaryGroup => 0x14u8,
            Type::AAUXSource => 0x50u8,
            Type::AAUXSourceControl => 0x51u8,
            Type::AAUXRecordingDate => 0x52u8,
            Type::AAUXRecordingTime => 0x53u8,
            Type::AAUXBinaryGroup => 0x54u8,
            Type::VAUXSource => 0x60u8,
            Type::VAUXSourceControl => 0x61u8,
            Type::VAUXRecordingDate => 0x62u8,
            Type::VAUXRecordingTime => 0x63u8,
            Type::VAUXBinaryGroup => 0x64u8,
            Type::CameraConsumer1 => 0x70u8,
            Type::NoInfo => 0xFFu8,
            Type::Unknown(header) => header,
        }
    }

    /// The type is one that a header byte has: a known one, or
    /// [`Type::Unknown`] with a byte that no known type has.
    pub open spec fn is_canonical(self) -> bool {
        Type::of(self.header()) == self
    }

    /// Header bytes and the types that they have correspond one to one.
    pub proof fn lemma_headers(self, header: u8)
        ensures
            Type::of(header).header() == header,
            Type::of(header).is_canonical(),
            self.is_canonical() <==> !(self is Unknown) || Type::of(self->Unknown_0) is Unknown,
    {
    }

    /// Converts a raw pack header byte to its type.
    pub fn from_header(header: u8) -> (r: Type)
        ensures
            r == Type::of(header),
    {
        if header == 0x13 {
            Type::TitleTimecode
        } else if header == 0x14 {
            Type::TitleBinaryGroup
        } else if header == 0x50 {
            Type::AAUXSource
        } else if header == 0x51 {
            Type::AAUXSourceControl
        } else if header == 0x52 {
            Type::AAUXRecordingDate
        } else if header == 0x53 {
            Type::AAUXRecordingTime
        } else if header == 0x54 {
            Type::AAUXBinaryGroup
        } else if header == 0x60 {
            Type::VAUXSource
        } else if header == 0x61 {
            Type::VAUXSourceControl
        } else if header == 0x62 {
            Type::VAUXRecordingDate
        } else if header == 0x63 {
            Type::VAUXRecordingTime
        } else if header == 0x64 {
            Type::VAUXBinaryGroup
        } else if header == 0x70 {
            Type::CameraConsumer1
        } else if header == 0xFF {
            Type::NoInfo
        } else {
            Type::Unknown(header)
        }
    }

    /// Converts a type to its raw pack header byte.
    pub fn to_header(self) -> (r: u8)
        ensures
            r == self.header(),
    {
        match self {
            Type::TitleTimecode => 0x13,
            Type::TitleBinaryGroup => 0x14,
            Type::AAUXSource => 0x50,
            Type::AAUXSourceControl => 0x51,
            Type::AAUXRecordingDate => 0x52,
            Type::AAUXRecordingTime => 0x53,
            Type::AAUXBinaryGroup => 0x54,
            Type::VAUXSource => 0x60,
            Type::VAUXSourceControl => 0x61,
            Type::VAUXRecordingDate => 0x62,
            Type::VAUXRecordingTime => 0x63,
            Type::VAUXBinaryGroup => 0x64,
            Type::CameraConsumer1 => 0x70,
            Type::NoInfo => 0xFF,
            Type::Unknown(header) => header,
        }
    }
}

impl From<u8> for Type {
    fn from(value: u8) -> (r: Type) {
        Type::from_header(value)
    }
}

impl FromSpecImpl<u8> for Type {
    open spec fn obeys_from_spec() -> bool {
        true
    }

    open spec fn from_spec(value: u8) -> Type {
        Type::of(value)
    }
}

impl From<Type> for u8 {
    fn from(value: Type) -> (r: u8) {
        value.to_header()
    }
}

impl FromSpecImpl<Type> for u8 {
    open spec fn obeys_from_spec() -> bool {
        true
    }

    open spec fn from_spec(value: Type) -> u8 {
        value.header()
    }
}

/// DV pack data of any type.
#[derive(Debug, PartialEq, Eq, Clone, Copy)]
pub enum Pack {
    /// The timecode data showing elapsed time in the title at the tape position where this
    /// was recorded.
    ///
    /// - IEC 61834-4:1998 Section 4.4 - Time Code (TITLE)
    /// - SMPTE 306M-2002 Section 9.2.1 - Time code pack (TC)
    TitleTimecode(ValidPack<TitleTimecode>),
    /// Additional binary group data associated with the title timecode pack.
    ///
    /// - IEC 61834-4:1998 Section 4.5 - Binary Group (TITLE)
    /// - SMPTE 306M-2002 Section 9.2.2 - Binary group pack (BG)
    TitleBinaryGroup(ValidPack<BinaryGroup>),
    /// Information about the audio stream.
    ///
    /// - IEC 61834-4:1998 Section 8.1 - Source (AAUX)
    /// - SMPTE 306M-2002 Section 7.4.1 - AAUX source pack (AS)
    AAUXSource(ValidPack<AAUXSource>),
    /// Further information about the audio stream.
    ///
    /// - IEC 61834-4:1998 Section 8.2 - Source control (AAUX)
    /// - SMPTE 306M-2002 Section 7.4.2 - AAUX source control pack (ASC)
    AAUXSourceControl(ValidPack<AAUXSourceControl>),
    /// The date when audio data is recorded.
    ///
    /// - IEC 61834-4:1998 Section 8.3 - Rec Date (AAUX)
    AAUXRecordingDate(ValidPack<RecordingDate>),
    /// The time when audio data is recorded.
    ///
    /// - IEC 61834-4:1998 Section 8.4 - Rec Time (AAUX)
    AAUXRecordingTime(ValidPack<RecordingTime>),
    /// Additional binary group data associated with the AAUX recording time pack.
    ///
    /// - IEC 61834-4:1998 Section 8.5 - Binary Group (AAUX)
    AAUXBinaryGroup(ValidPack<BinaryGroup>),
    /// Information about the video stream.
    ///
    /// - IEC 61834-4:1998 Section 9.1 - Source (VAUX)
    /// - SMPTE 306M-2002 Section 8.9.1 - VAUX source pack (VS)
    VAUXSource(ValidPack<VAUXSource>),
    /// Further information about the video stream.
    ///
    /// - IEC 61834-4:1998 Section 9.2 - Source control (VAUX)
    /// - SMPTE 306M-2002 Section 8.9.2 - VAUX source control pack (VSC)
    VAUXSourceControl(ValidPack<VAUXSourceControl>),
    /// The date when video data is recorded.
    ///
    /// - IEC 61834-4:1998 Section 9.3 - Rec Date (VAUX)
    VAUXRecordingDate(ValidPack<RecordingDate>),
    /// The time when video data is recorded.
    ///
    /// - IEC 61834-4:1998 Section 9.4 - Rec Time (VAUX)
    VAUXRecordingTime(ValidPack<RecordingTime>),
    /// Additional binary group data associated with the VAUX recording time pack.
    ///
    /// - IEC 61834-4:1998 Section 9.5 - Binary Group (VAUX)
    VAUXBinaryGroup(ValidPack<BinaryGroup>),
    /// Settings of a consumer camera.
    ///
    /// - IEC 61834-4:1998 Section 10.1 - Consumer Camera 1 (CAMERA)
    CameraConsumer1(ValidPack<CameraConsumer1>),
    /// No information: there is no pack in this position, or it dropped out.
    ///
    /// - IEC 61834-4:1998 Section 12.16 - No Info: No information (SOFT MODE)
    NoInfo(ValidPack<NoInfo>),
    /// Holds the contents of an invalid pack: the pack type is known, and the
    /// contents could not be read, or broke a rule of the type.
    Invalid(Type, ValidPack<Unparsed>),
    /// Holds the contents of an unknown pack: the pack type is not known.
    /// The pack is likely a valid one of a type that is not yet supported.
    Unknown(u8, ValidPack<Unparsed>),
}

/// The four bytes after the header byte.
pub open spec fn payload_of(raw: RawPack) -> RawPackData {
    [raw[1], raw[2], raw[3], raw[4]]
}

/// The header byte before the four bytes of a payload.
pub open spec fn with_header(header: u8, payload: RawPackData) -> RawPack {
    [header, payload[0], payload[1], payload[2], payload[3]]
}

/// The pack that keeps a payload as it is.
pub open spec fn unparsed(payload: RawPackData) -> ValidPack<Unparsed> {
    ValidPack::of(Unparsed { data: payload })
}

impl Pack {
    /// The pack type of the pack.
    pub open spec fn type_of(self) -> Type {
        match self {
            Pack::TitleTimecode(_) => Type::TitleTimecode,
            Pack::TitleBinaryGroup(_) => Type::TitleBinaryGroup,
            Pack::AAUXSource(_) => Type::AAUXSource,
            Pack::AAUXSourceControl(_) => Type::AAUXSourceControl,
            Pack::AAUXRecordingDate(_) => Type::AAUXRecordingDate,
            Pack::AAUXRecordingTime(_) => Type::AAUXRecordingTime,
            Pack::AAUXBinaryGroup(_) => Type::AAUXBinaryGroup,
            Pack::VAUXSource(_) => Type::VAUXSource,
            Pack::VAUXSourceControl(_) => Type::VAUXSourceControl,
            Pack::VAUXRecordingDate(_) => Type::VAUXRecordingDate,
            Pack::VAUXRecordingTime(_) => Type::VAUXRecordingTime,
            Pack::VAUXBinaryGroup(_) => Type::VAUXBinaryGroup,
            Pack::CameraConsumer1(_) => Type::CameraConsumer1,
            Pack::NoInfo(_) => Type::NoInfo,
            Pack::Invalid(ty, _) => ty,
            Pack::Unknown(header, _) => Type::Unknown(header),
        }
    }

    /// Whether the contents of the pack break no rule in the given context.
    pub open spec fn is_valid(self, ctx: PackContext) -> bool {
        match self {
            Pack::TitleTimecode(p) => is_valid(p@, ctx),
            Pack::TitleBinaryGroup(p) => is_valid(p@, ctx),
            Pack::AAUXSource(p) => is_valid(p@, ctx),
            Pack::AAUXSourceControl(p) => is_valid(p@, ctx),
            Pack::AAUXRecordingDate(p) => is_valid(p@, ctx),
            Pack::AAUXRecordingTime(p) => is_valid(p@, ctx),
            Pack::AAUXBinaryGroup(p) => is_valid(p@, ctx),
            Pack::VAUXSource(p) => is_valid(p@, ctx),
            Pack::VAUXSourceControl(p) => is_valid(p@, ctx),
            Pack::VAUXRecordingDate(p) => is_valid(p@, ctx),
            Pack::VAUXRecordingTime(p) => is_valid(p@, ctx),
            Pack::VAUXBinaryGroup(p) => is_valid(p@, ctx),
            Pack::CameraConsumer1(p) => is_valid(p@, ctx),
            Pack::NoInfo(p) => is_valid(p@, ctx),
            Pack::Invalid(_, _) => true,
            Pack::Unknown(_, _) => true,
        }
    }

    /// The payload of a valid pack.
    pub open spec fn payload(self, ctx: PackContext) -> RawPackData {
        match self {
            Pack::TitleTimecode(p) => written(p@, ctx),
            Pack::TitleBinaryGroup(p) => written(p@, ctx),
            Pack::AAUXSource(p) => written(p@, ctx),
            Pack::AAUXSourceControl(p) => written(p@, ctx),
            Pack::AAUXRecordingDate(p) => written(p@, ctx),
            Pack::AAUXRecordingTime(p) => written(p@, ctx),
            Pack::AAUXBinaryGroup(p) => written(p@, ctx),
            Pack::VAUXSource(p) => written(p@, ctx),
            Pack::VAUXSourceControl(p) => written(p@, ctx),
            Pack::VAUXRecordingDate(p) => written(p@, ctx),
            Pack::VAUXRecordingTime(p) => written(p@, ctx),
            Pack::VAUXBinaryGroup(p) => written(p@, ctx),
            Pack::CameraConsumer1(p) => written(p@, ctx),
            Pack::NoInfo(p) => written(p@, ctx),
            Pack::Invalid(_, p) => written(p@, ctx),
            Pack::Unknown(_, p) => written(p@, ctx),
        }
    }

    /// The five bytes of a valid pack: the header byte of its type, then its
    /// payload.
    pub open spec fn bytes(self, ctx: PackContext) -> RawPack {
        with_header(self.type_of().header(), self.payload(ctx))
    }

    /// Why the five bytes are no valid pack of the type of their header, if
    /// they are none.
    pub open spec fn failure(raw: RawPack, ctx: PackContext) -> Option<Failure> {
        let payload = payload_of(raw);
        match Type::of(raw[0]) {
            Type::TitleTimecode => match outcome::<TitleTimecode>(payload, ctx) {
                Ok(_) => None,
                Err(e) => Some(e),
            },
            Type::TitleBinaryGroup => match outcome::<BinaryGroup>(payload, ctx) {
                Ok(_) => None,
                Err(e) => Some(e),
            },
            Type::AAUXSource => match outcome::<AAUXSource>(payload, ctx) {
                Ok(_) => None,
                Err(e) => Some(e),
            },
            Type::AAUXSourceControl => match outcome::<AAUXSourceControl>(payload, ctx) {
                Ok(_) => None,
                Err(e) => Some(e),
            },
            Type::AAUXRecordingDate => match outcome::<RecordingDate>(payload, ctx) {
                Ok(_) => None,
                Err(e) => Some(e),
            },
            Type::AAUXRecordingTime => match outcome::<RecordingTime>(payload, ctx) {
                Ok(_) => None,
                Err(e) => Some(e),
            },
            Type::AAUXBinaryGroup => match outcome::<BinaryGroup>(payload, ctx) {
                Ok(_) => None,
                Err(e) => Some(e),
            },
            Type::VAUXSource => match outcome::<VAUXSource>(payload, ctx) {
                Ok(_) => None,
                Err(e) => Some(e),
            },
            Type::VAUXSourceControl => match outcome::<VAUXSourceControl>(payload, ctx) {
                Ok(_) => None,
                Err(e) => Some(e),
            },
            Type::VAUXRecordingDate => match outcome::<RecordingDate>(payload, ctx) {
                Ok(_) => None,
                Err(e) => Some(e),
            },
            Type::VAUXRecordingTime => match outcome::<RecordingTime>(payload, ctx) {
                Ok(_) => None,
                Err(e) => Some(e),
            },
            Type::VAUXBinaryGroup => match outcome::<BinaryGroup>(payload, ctx) {
                Ok(_) => None,
                Err(e) => Some(e),
            },
            Type::CameraConsumer1 => match outcome::<CameraConsumer1>(payload, ctx) {
                Ok(_) => None,
                Err(e) => Some(e),
            },
            Type::NoInfo => match outcome::<NoInfo>(payload, ctx) {
                Ok(_) => None,
                Err(e) => Some(e),
            },
            Type::Unknown(_) => None,
        }
    }

    /// The pack that five bytes stand for: the valid pack of the type of their
    /// header; where they are none, an invalid pack of that type with the
    /// payload as it is; for a header of no known type, an unknown pack with
    /// the payload as it is.
    pub open spec fn parse(raw: RawPack, ctx: PackContext) -> Pack {
        let payload = payload_of(raw);
        match Type::of(raw[0]) {
            Type::TitleTimecode => match outcome::<TitleTimecode>(payload, ctx) {
                Ok(v) => Pack::TitleTimecode(ValidPack::of(v)),
                Err(_) => Pack::Invalid(Type::TitleTimecode, unparsed(payload)),
            },
            Type::TitleBinaryGroup => match outcome::<BinaryGroup>(payload, ctx) {
                Ok(v) => Pack::TitleBinaryGroup(ValidPack::of(v)),
                Err(_) => Pack::Invalid(Type::TitleBinaryGroup, unparsed(payload)),
            },
            Type::AAUXSource => match outcome::<AAUXSource>(payload, ctx) {
                Ok(v) => Pack::AAUXSource(ValidPack::of(v)),
                Err(_) => Pack::Invalid(Type::AAUXSource, unparsed(payload)),
            },
            Type::AAUXSourceControl => match outcome::<AAUXSourceControl>(payload, ctx) {
                Ok(v) => Pack::AAUXSourceControl(ValidPack::of(v)),
                Err(_) => Pack::Invalid(Type::AAUXSourceControl, unparsed(payload)),
            },
            Type::AAUXRecordingDate => match outcome::<RecordingDate>(payload, ctx) {
                Ok(v) => Pack::AAUXRecordingDate(ValidPack::of(v)),
                Err(_) => Pack::Invalid(Type::AAUXRecordingDate, unparsed(payload)),
            },
            Type::AAUXRecordingTime => match outcome::<RecordingTime>(payload, ctx) {
                Ok(v) => Pack::AAUXRecordingTime(ValidPack::of(v)),
                Err(_) => Pack::Invalid(Type::AAUXRecordingTime, unparsed(payload)),
            },
            Type::AAUXBinaryGroup => match outcome::<BinaryGroup>(payload, ctx) {
                Ok(v) => Pack::AAUXBinaryGroup(ValidPack::of(v)),
                Err(_) => Pack::Invalid(Type::AAUXBinaryGroup, unparsed(payload)),
            },
            Type::VAUXSource => match outcome::<VAUXSource>(payload, ctx) {
                Ok(v) => Pack::VAUXSource(ValidPack::of(v)),
                Err(_) => Pack::Invalid(Type::VAUXSource, unparsed(payload)),
            },
            Type::VAUXSourceControl => match outcome::<VAUXSourceControl>(payload, ctx) {
                Ok(v) => Pack::VAUXSourceControl(ValidPack::of(v)),
                Err(_) => Pack::Invalid(Type::VAUXSourceControl, unparsed(payload)),
            },
            Type::VAUXRecordingDate => match outcome::<RecordingDate>(payload, ctx) {
                Ok(v) => Pack::VAUXRecordingDate(ValidPack::of(v)),
                Err(_) => Pack::Invalid(Type::VAUXRecordingDate, unparsed(payload)),
            },
            Type::VAUXRecordingTime => match outcome::<RecordingTime>(payload, ctx) {
                Ok(v) => Pack::VAUXRecordingTime(ValidPack::of(v)),
                Err(_) => Pack::Invalid(Type::VAUXRecordingTime, unparsed(payload)),
            },
            Type::VAUXBinaryGroup => match outcome::<BinaryGroup>(payload, ctx) {
                Ok(v) => Pack::VAUXBinaryGroup(ValidPack::of(v)),
                Err(_) => Pack::Invalid(Type::VAUXBinaryGroup, unparsed(payload)),
            },
            Type::CameraConsumer1 => match outcome::<CameraConsumer1>(payload, ctx) {
                Ok(v) => Pack::CameraConsumer1(ValidPack::of(v)),
                Err(_) => Pack::Invalid(Type::CameraConsumer1, unparsed(payload)),
            },
            Type::NoInfo => match outcome::<NoInfo>(payload, ctx) {
                Ok(v) => Pack::NoInfo(ValidPack::of(v)),
                Err(_) => Pack::Invalid(Type::NoInfo, unparsed(payload)),
            },
            Type::Unknown(header) => Pack::Unknown(header, unparsed(payload)),
        }
    }

    /// The five bytes that five bytes become when they are read and written
    /// again: the bytes themselves where they are no valid pack of a known
    /// type, else the header with the payload in the canonical form of the
    /// type.
    pub open spec fn canonical(raw: RawPack, ctx: PackContext) -> RawPack {
        let payload = payload_of(raw);
        if Pack::failure(raw, ctx) is Some {
            raw
        } else {
            match Type::of(raw[0]) {
                Type::TitleTimecode => with_header(raw[0], rewritten::<TitleTimecode>(payload, ctx)),
                Type::TitleBinaryGroup => with_header(raw[0], rewritten::<BinaryGroup>(payload, ctx)),
                Type::AAUXSource => with_header(raw[0], rewritten::<AAUXSource>(payload, ctx)),
                Type::AAUXSourceControl => with_header(raw[0], rewritten::<AAUXSourceControl>(payload, ctx)),
                Type::AAUXRecordingDate => with_header(raw[0], rewritten::<RecordingDate>(payload, ctx)),
                Type::AAUXRecordingTime => with_header(raw[0], rewritten::<RecordingTime>(payload, ctx)),
                Type::AAUXBinaryGroup => with_header(raw[0], rewritten::<BinaryGroup>(payload, ctx)),
                Type::VAUXSource => with_header(raw[0], rewritten::<VAUXSource>(payload, ctx)),
                Type::VAUXSourceControl => with_header(raw[0], rewritten::<VAUXSourceControl>(payload, ctx)),
                Type::VAUXRecordingDate => with_header(raw[0], rewritten::<RecordingDate>(payload, ctx)),
                Type::VAUXRecordingTime => with_header(raw[0], rewritten::<RecordingTime>(payload, ctx)),
                Type::VAUXBinaryGroup => with_header(raw[0], rewritten::<BinaryGroup>(payload, ctx)),
                Type::CameraConsumer1 => with_header(raw[0], rewritten::<CameraConsumer1>(payload, ctx)),
                Type::NoInfo => with_header(raw[0], rewritten::<NoInfo>(payload, ctx)),
                Type::Unknown(_) => raw,
            }
        }
    }

    /// A payload that is kept as it is is written as it is.
    pub proof fn lemma_kept(payload: RawPackData, ctx: PackContext)
        ensures
            written(unparsed(payload)@, ctx) == payload,
            is_valid(unparsed(payload)@, ctx),
    {
        reveal(written);
        reveal(is_valid);
        ValidPack::<Unparsed>::lemma_of_view(Unparsed { data: payload });
    }

    /// Whether reading finds the pack again in what is written of it: the
    /// pack is not invalid, and if unknown, its header is of no known type.
    pub open spec fn is_regular(self) -> bool {
        match self {
            Pack::Invalid(_, _) => false,
            Pack::Unknown(header, _) => Type::of(header) is Unknown,
            _ => true,
        }
    }

    /// Whether the pack is valid in the context: what [`Pack::to_raw`] asks
    /// for. A pack is valid in the context that it was read or validated in.
    pub fn is_valid_in(&self, ctx: &PackContext) -> (r: bool)
        ensures
            r == self.is_valid(*ctx),
    {
        match self {
            Pack::TitleTimecode(p) => p.holds_in(ctx),
            Pack::TitleBinaryGroup(p) => p.holds_in(ctx),
            Pack::AAUXSource(p) => p.holds_in(ctx),
            Pack::AAUXSourceControl(p) => p.holds_in(ctx),
            Pack::AAUXRecordingDate(p) => p.holds_in(ctx),
            Pack::AAUXRecordingTime(p) => p.holds_in(ctx),
            Pack::AAUXBinaryGroup(p) => p.holds_in(ctx),
            Pack::VAUXSource(p) => p.holds_in(ctx),
            Pack::VAUXSourceControl(p) => p.holds_in(ctx),
            Pack::VAUXRecordingDate(p) => p.holds_in(ctx),
            Pack::VAUXRecordingTime(p) => p.holds_in(ctx),
            Pack::VAUXBinaryGroup(p) => p.holds_in(ctx),
            Pack::CameraConsumer1(p) => p.holds_in(ctx),
            Pack::NoInfo(p) => p.holds_in(ctx),
            Pack::Invalid(_, _) => true,
            Pack::Unknown(_, _) => true,
        }
    }

    /// Serialize the DV pack to binary suitable for writing to a DV file. The
    /// pack has to be valid in the context that it is written in.
    pub fn to_raw(&self, ctx: &PackContext) -> (r: RawPack)
        requires
            self.is_valid(*ctx),
        ensures
            r == self.bytes(*ctx),
    {
        proof {
            reveal(is_valid);
        }
        let header = self.pack_type().to_header();
        let payload = match self {
            Pack::TitleTimecode(p) => p.to_raw(ctx),
            Pack::TitleBinaryGroup(p) => p.to_raw(ctx),
            Pack::AAUXSource(p) => p.to_raw(ctx),
            Pack::AAUXSourceControl(p) => p.to_raw(ctx),
            Pack::AAUXRecordingDate(p) => p.to_raw(ctx),
            Pack::AAUXRecordingTime(p) => p.to_raw(ctx),
            Pack::AAUXBinaryGroup(p) => p.to_raw(ctx),
            Pack::VAUXSource(p) => p.to_raw(ctx),
            Pack::VAUXSourceControl(p) => p.to_raw(ctx),
            Pack::VAUXRecordingDate(p) => p.to_raw(ctx),
            Pack::VAUXRecordingTime(p) => p.to_raw(ctx),
            Pack::VAUXBinaryGroup(p) => p.to_raw(ctx),
            Pack::CameraConsumer1(p) => p.to_raw(ctx),
            Pack::NoInfo(p) => p.to_raw(ctx),
            Pack::Invalid(_, p) => p.to_raw(ctx),
            Pack::Unknown(_, p) => p.to_raw(ctx),
        };
        [header, payload[0], payload[1], payload[2], payload[3]]
    }

    /// Deserialize the DV pack from binary bytes obtained from a DV file.
    ///
    /// A pack is always returned. If the payload cannot be read or breaks a
    /// rule of its type, the pack is [`Pack::Invalid`] and the error is
    /// returned beside it: invalid packs are kept through reading and
    /// writing, and callers who do not want them remove them.
    pub fn from_raw(raw: &RawPack, ctx: &PackContext) -> (r: (Pack, Option<RawError>))
        ensures
            r.0 == Pack::parse(*raw, *ctx),
            r.0.is_valid(*ctx),
            r.1 is Some <==> r.0 is Invalid,
            match r.1 {
                Some(e) => Pack::failure(*raw, *ctx) == Some(e@),
                None => Pack::failure(*raw, *ctx) is None,
            },
    {
        let ty = Type::from_header(raw[0]);
        let payload: RawPackData = [raw[1], raw[2], raw[3], raw[4]];
        let invalid = ValidPack::keep(payload, ctx);
        proof {
            Pack::lemma_kept(payload, *ctx);
        }
        match ty {
            Type::TitleTimecode => match ValidPack::<TitleTimecode>::try_from_raw(&payload, ctx) {
                Ok(p) => {
                    proof {
                        ValidPack::<TitleTimecode>::lemma_view_of(p);
                        lemma_outcome::<TitleTimecode>(payload, p@, *ctx);
                    }
                    (Pack::TitleTimecode(p), None)
                },
                Err(e) => (Pack::Invalid(ty, invalid), Some(e)),
            },
            Type::TitleBinaryGroup => match ValidPack::<BinaryGroup>::try_from_raw(&payload, ctx) {
                Ok(p) => {
                    proof {
                        ValidPack::<BinaryGroup>::lemma_view_of(p);
                        lemma_outcome::<BinaryGroup>(payload, p@, *ctx);
                    }
                    (Pack::TitleBinaryGroup(p), None)
                },
                Err(e) => (Pack::Invalid(ty, invalid), Some(e)),
            },
            Type::AAUXSource => match ValidPack::<AAUXSource>::try_from_raw(&payload, ctx) {
                Ok(p) => {
                    proof {
                        ValidPack::<AAUXSource>::lemma_view_of(p);
                        lemma_outcome::<AAUXSource>(payload, p@, *ctx);
                    }
                    (Pack::AAUXSource(p), None)
                },
                Err(e) => (Pack::Invalid(ty, invalid), Some(e)),
            },
            Type::AAUXSourceControl => match ValidPack::<AAUXSourceControl>::try_from_raw(&payload, ctx) {
                Ok(p) => {
                    proof {
                        ValidPack::<AAUXSourceControl>::lemma_view_of(p);
                        lemma_outcome::<AAUXSourceControl>(payload, p@, *ctx);
                    }
                    (Pack::AAUXSourceControl(p), None)
                },
                Err(e) => (Pack::Invalid(ty, invalid), Some(e)),
            },
            Type::AAUXRecordingDate => match ValidPack::<RecordingDate>::try_from_raw(&payload, ctx) {
                Ok(p) => {
                    proof {
                        ValidPack::<RecordingDate>::lemma_view_of(p);
                        lemma_outcome::<RecordingDate>(payload, p@, *ctx);
                    }
                    (Pack::AAUXRecordingDate(p), None)
                },
                Err(e) => (Pack::Invalid(ty, invalid), Some(e)),
            },
            Type::AAUXRecordingTime => match ValidPack::<RecordingTime>::try_from_raw(&payload, ctx) {
                Ok(p) => {
                    proof {
                        ValidPack::<RecordingTime>::lemma_view_of(p);
                        lemma_outcome::<RecordingTime>(payload, p@, *ctx);
                    }
                    (Pack::AAUXRecordingTime(p), None)
                },
                Err(e) => (Pack::Invalid(ty, invalid), Some(e)),
            },
            Type::AAUXBinaryGroup => match ValidPack::<BinaryGroup>::try_from_raw(&payload, ctx) {
                Ok(p) => {
                    proof {
                        ValidPack::<BinaryGroup>::lemma_view_of(p);
                        lemma_outcome::<BinaryGroup>(payload, p@, *ctx);
                    }
                    (Pack::AAUXBinaryGroup(p), None)
                },
                Err(e) => (Pack::Invalid(ty, invalid), Some(e)),
            },
            Type::VAUXSource => match ValidPack::<VAUXSource>::try_from_raw(&payload, ctx) {
                Ok(p) => {
                    proof {
                        ValidPack::<VAUXSource>::lemma_view_of(p);
                        lemma_outcome::<VAUXSource>(payload, p@, *ctx);
                    }
                    (Pack::VAUXSource(p), None)
                },
                Err(e) => (Pack::Invalid(ty, invalid), Some(e)),
            },
            Type::VAUXSourceControl => match ValidPack::<VAUXSourceControl>::try_from_raw(&payload, ctx) {
                Ok(p) => {
                    proof {
                        ValidPack::<VAUXSourceControl>::lemma_view_of(p);
                        lemma_outcome::<VAUXSourceControl>(payload, p@, *ctx);
                    }
                    (Pack::VAUXSourceControl(p), None)
                },
                Err(e) => (Pack::Invalid(ty, invalid), Some(e)),
            },
            Type::VAUXRecordingDate => match ValidPack::<RecordingDate>::try_from_raw(&payload, ctx) {
                Ok(p) => {
                    proof {
                        ValidPack::<RecordingDate>::lemma_view_of(p);
                        lemma_outcome::<RecordingDate>(payload, p@, *ctx);
                    }
                    (Pack::VAUXRecordingDate(p), None)
                },
                Err(e) => (Pack::Invalid(ty, invalid), Some(e)),
            },
            Type::VAUXRecordingTime => match ValidPack::<RecordingTime>::try_from_raw(&payload, ctx) {
                Ok(p) => {
                    proof {
                        ValidPack::<RecordingTime>::lemma_view_of(p);
                        lemma_outcome::<RecordingTime>(payload, p@, *ctx);
                    }
                    (Pack::VAUXRecordingTime(p), None)
                },
                Err(e) => (Pack::Invalid(ty, invalid), Some(e)),
            },
            Type::VAUXBinaryGroup => match ValidPack::<BinaryGroup>::try_from_raw(&payload, ctx) {
                Ok(p) => {
                    proof {
                        ValidPack::<BinaryGroup>::lemma_view_of(p);
                        lemma_outcome::<BinaryGroup>(payload, p@, *ctx);
                    }
                    (Pack::VAUXBinaryGroup(p), None)
                },
                Err(e) => (Pack::Invalid(ty, invalid), Some(e)),
            },
            Type::CameraConsumer1 => match ValidPack::<CameraConsumer1>::try_from_raw(&payload, ctx) {
                Ok(p) => {
                    proof {
                        ValidPack::<CameraConsumer1>::lemma_view_of(p);
                        lemma_outcome::<CameraConsumer1>(payload, p@, *ctx);
                    }
                    (Pack::CameraConsumer1(p), None)
                },
                Err(e) => (Pack::Invalid(ty, invalid), Some(e)),
            },
            Type::NoInfo => match ValidPack::<NoInfo>::try_from_raw(&payload, ctx) {
                Ok(p) => {
                    proof {
                        ValidPack::<NoInfo>::lemma_view_of(p);
                        lemma_outcome::<NoInfo>(payload, p@, *ctx);
                    }
                    (Pack::NoInfo(p), None)
                },
                Err(e) => (Pack::Invalid(ty, invalid), Some(e)),
            },
            Type::Unknown(header) => (Pack::Unknown(header, invalid), None),
        }
    }

    /// Get the pack type for this pack.
    pub fn pack_type(&self) -> (r: Type)
        ensures
            r == self.type_of(),
    {
        match self {
            Pack::TitleTimecode(_) => Type::TitleTimecode,
            Pack::TitleBinaryGroup(_) => Type::TitleBinaryGroup,
            Pack::AAUXSource(_) => Type::AAUXSource,
            Pack::AAUXSourceControl(_) => Type::AAUXSourceControl,
            Pack::AAUXRecordingDate(_) => Type::AAUXRecordingDate,
            Pack::AAUXRecordingTime(_) => Type::AAUXRecordingTime,
            Pack::AAUXBinaryGroup(_) => Type::AAUXBinaryGroup,
            Pack::VAUXSource(_) => Type::VAUXSource,
            Pack::VAUXSourceControl(_) => Type::VAUXSourceControl,
            Pack::VAUXRecordingDate(_) => Type::VAUXRecordingDate,
            Pack::VAUXRecordingTime(_) => Type::VAUXRecordingTime,
            Pack::VAUXBinaryGroup(_) => Type::VAUXBinaryGroup,
            Pack::CameraConsumer1(_) => Type::CameraConsumer1,
            Pack::NoInfo(_) => Type::NoInfo,
            Pack::Invalid(ty, _) => *ty,
            Pack::Unknown(header, _) => Type::Unknown(*header),
        }
    }

    /// Round trip from a value: a regular pack that is valid in a context is
    /// what reading finds in the bytes that are written of it, without an
    /// error.
    pub proof fn lemma_parse_bytes(self, ctx: PackContext)
        requires
            self.is_valid(ctx),
            self.is_regular(),
        ensures
            Pack::parse(self.bytes(ctx), ctx) == self,
            Pack::failure(self.bytes(ctx), ctx) is None,
    {
        let raw = self.bytes(ctx);
        assert(payload_of(raw) == self.payload(ctx));
        self.type_of().lemma_headers(0);
        match self {
            Pack::TitleTimecode(p) => {
                lemma_outcome::<TitleTimecode>(payload_of(raw), p@, ctx);
                ValidPack::<TitleTimecode>::lemma_view_of(p);
            },
            Pack::TitleBinaryGroup(p) => {
                lemma_outcome::<BinaryGroup>(payload_of(raw), p@, ctx);
                ValidPack::<BinaryGroup>::lemma_view_of(p);
            },
            Pack::AAUXSource(p) => {
                lemma_outcome::<AAUXSource>(payload_of(raw), p@, ctx);
                ValidPack::<AAUXSource>::lemma_view_of(p);
            },
            Pack::AAUXSourceControl(p) => {
                lemma_outcome::<AAUXSourceControl>(payload_of(raw), p@, ctx);
                ValidPack::<AAUXSourceControl>::lemma_view_of(p);
            },
            Pack::AAUXRecordingDate(p) => {
                lemma_outcome::<RecordingDate>(payload_of(raw), p@, ctx);
                ValidPack::<RecordingDate>::lemma_view_of(p);
            },
            Pack::AAUXRecordingTime(p) => {
                lemma_outcome::<RecordingTime>(payload_of(raw), p@, ctx);
                ValidPack::<RecordingTime>::lemma_view_of(p);
            },
            Pack::AAUXBinaryGroup(p) => {
                lemma_outcome::<BinaryGroup>(payload_of(raw), p@, ctx);
                ValidPack::<BinaryGroup>::lemma_view_of(p);
            },
            Pack::VAUXSource(p) => {
                lemma_outcome::<VAUXSource>(payload_of(raw), p@, ctx);
                ValidPack::<VAUXSource>::lemma_view_of(p);
            },
            Pack::VAUXSourceControl(p) => {
                lemma_outcome::<VAUXSourceControl>(payload_of(raw), p@, ctx);
                ValidPack::<VAUXSourceControl>::lemma_view_of(p);
            },
            Pack::VAUXRecordingDate(p) => {
                lemma_outcome::<RecordingDate>(payload_of(raw), p@, ctx);
                ValidPack::<RecordingDate>::lemma_view_of(p);
            },
            Pack::VAUXRecordingTime(p) => {
                lemma_outcome::<RecordingTime>(payload_of(raw), p@, ctx);
                ValidPack::<RecordingTime>::lemma_view_of(p);
            },
            Pack::VAUXBinaryGroup(p) => {
                lemma_outcome::<BinaryGroup>(payload_of(raw), p@, ctx);
                ValidPack::<BinaryGroup>::lemma_view_of(p);
            },
            Pack::CameraConsumer1(p) => {
                lemma_outcome::<CameraConsumer1>(payload_of(raw), p@, ctx);
                ValidPack::<CameraConsumer1>::lemma_view_of(p);
            },
            Pack::NoInfo(p) => {
                lemma_outcome::<NoInfo>(payload_of(raw), p@, ctx);
                ValidPack::<NoInfo>::lemma_view_of(p);
            },
            Pack::Invalid(_, _) => {},
            Pack::Unknown(header, p) => {
                ValidPack::<Unparsed>::lemma_view_of(p);
                reveal(written);
            },
        }
    }

    /// Round trip from bytes: what reading finds in five bytes is valid, and
    /// what is written of it are the five bytes in their canonical form.
    pub proof fn lemma_bytes_parse(raw: RawPack, ctx: PackContext)
        ensures
            Pack::parse(raw, ctx).is_valid(ctx),
            Pack::parse(raw, ctx).bytes(ctx) == Pack::canonical(raw, ctx),
    {
        let payload = payload_of(raw);
        Type::of(raw[0]).lemma_headers(raw[0]);
        Pack::lemma_kept(payload, ctx);
        match Type::of(raw[0]) {
            Type::TitleTimecode => {
                match outcome::<TitleTimecode>(payload, ctx) {
                    Ok(v) => {
                        ValidPack::<TitleTimecode>::lemma_of_view(v);
                        lemma_outcome::<TitleTimecode>(payload, v, ctx);
                    },
                    Err(_) => {},
                }
            },
            Type::TitleBinaryGroup => {
                match outcome::<BinaryGroup>(payload, ctx) {
                    Ok(v) => {
                        ValidPack::<BinaryGroup>::lemma_of_view(v);
                        lemma_outcome::<BinaryGroup>(payload, v, ctx);
                    },
                    Err(_) => {},
                }
            },
            Type::AAUXSource => {
                match outcome::<AAUXSource>(payload, ctx) {
                    Ok(v) => {
                        ValidPack::<AAUXSource>::lemma_of_view(v);
                        lemma_outcome::<AAUXSource>(payload, v, ctx);
                    },
                    Err(_) => {},
                }
            },
            Type::AAUXSourceControl => {
                match outcome::<AAUXSourceControl>(payload, ctx) {
                    Ok(v) => {
                        ValidPack::<AAUXSourceControl>::lemma_of_view(v);
                        lemma_outcome::<AAUXSourceControl>(payload, v, ctx);
                    },
                    Err(_) => {},
                }
            },
            Type::AAUXRecordingDate => {
                match outcome::<RecordingDate>(payload, ctx) {
                    Ok(v) => {
                        ValidPack::<RecordingDate>::lemma_of_view(v);
                        lemma_outcome::<RecordingDate>(payload, v, ctx);
                    },
                    Err(_) => {},
                }
            },
            Type::AAUXRecordingTime => {
                match outcome::<RecordingTime>(payload, ctx) {
                    Ok(v) => {
                        ValidPack::<RecordingTime>::lemma_of_view(v);
                        lemma_outcome::<RecordingTime>(payload, v, ctx);
                    },
                    Err(_) => {},
                }
            },
            Type::AAUXBinaryGroup => {
                match outcome::<BinaryGroup>(payload, ctx) {
                    Ok(v) => {
                        ValidPack::<BinaryGroup>::lemma_of_view(v);
                        lemma_outcome::<BinaryGroup>(payload, v, ctx);
                    },
                    Err(_) => {},
                }
            },
            Type::VAUXSource => {
                match outcome::<VAUXSource>(payload, ctx) {
                    Ok(v) => {
                        ValidPack::<VAUXSource>::lemma_of_view(v);
                        lemma_outcome::<VAUXSource>(payload, v, ctx);
                    },
                    Err(_) => {},
                }
            },
            Type::VAUXSourceControl => {
                match outcome::<VAUXSourceControl>(payload, ctx) {
                    Ok(v) => {
                        ValidPack::<VAUXSourceControl>::lemma_of_view(v);
                        lemma_outcome::<VAUXSourceControl>(payload, v, ctx);
                    },
                    Err(_) => {},
                }
            },
            Type::VAUXRecordingDate => {
                match outcome::<RecordingDate>(payload, ctx) {
                    Ok(v) => {
                        ValidPack::<RecordingDate>::lemma_of_view(v);
                        lemma_outcome::<RecordingDate>(payload, v, ctx);
                    },
                    Err(_) => {},
                }
            },
            Type::VAUXRecordingTime => {
                match outcome::<RecordingTime>(payload, ctx) {
                    Ok(v) => {
                        ValidPack::<RecordingTime>::lemma_of_view(v);
                        lemma_outcome::<RecordingTime>(payload, v, ctx);
                    },
                    Err(_) => {},
                }
            },
            Type::VAUXBinaryGroup => {
                match outcome::<BinaryGroup>(payload, ctx) {
                    Ok(v) => {
                        ValidPack::<BinaryGroup>::lemma_of_view(v);
                        lemma_outcome::<BinaryGroup>(payload, v, ctx);
                    },
                    Err(_) => {},
                }
            },
            Type::CameraConsumer1 => {
                match outcome::<CameraConsumer1>(payload, ctx) {
                    Ok(v) => {
                        ValidPack::<CameraConsumer1>::lemma_of_view(v);
                        lemma_outcome::<CameraConsumer1>(payload, v, ctx);
                    },
                    Err(_) => {},
                }
            },
            Type::NoInfo => {
                match outcome::<NoInfo>(payload, ctx) {
                    Ok(v) => {
                        ValidPack::<NoInfo>::lemma_of_view(v);
                        lemma_outcome::<NoInfo>(payload, v, ctx);
                    },
                    Err(_) => {},
                }
            },
            Type::Unknown(_) => {},
        }
    }

    /// Unknown packs are kept: five bytes with a header of no known type are
    /// read as an unknown pack without an error, and written as they were.
    pub proof fn lemma_unknown_kept(raw: RawPack, ctx: PackContext)
        requires
            Type::of(raw[0]) is Unknown,
        ensures
            Pack::parse(raw, ctx) == Pack::Unknown(raw[0], unparsed(payload_of(raw))),
            Pack::failure(raw, ctx) is None,
            Pack::parse(raw, ctx).bytes(ctx) == raw,
    {
        Pack::lemma_kept(payload_of(raw), ctx);
    }

    /// Invalid packs are kept: five bytes that are no valid pack of the type
    /// of their header are read as an invalid pack of that type, and written
    /// as they were.
    pub proof fn lemma_invalid_kept(raw: RawPack, ctx: PackContext)
        requires
            Pack::failure(raw, ctx) is Some,
        ensures
            Pack::parse(raw, ctx) == Pack::Invalid(Type::of(raw[0]), unparsed(payload_of(raw))),
            Pack::parse(raw, ctx).bytes(ctx) == raw,
    {
        Type::of(raw[0]).lemma_headers(raw[0]);
        Pack::lemma_kept(payload_of(raw), ctx);
    }
}

/// No information pack
///
/// There is no pack in this position, or it dropped out: tape decks give this
/// pack where they could not read one.
///
/// - IEC 61834-4:1998 Section 12.16 - No Info: No information (SOFT MODE)
#[derive(Debug, PartialEq, Eq, Clone, Copy, Hash, Structural)]
pub struct NoInfo {}

impl PackData for NoInfo {
    /// Any payload reads as no information: after a dropout of the header
    /// byte, what follows belongs to an unknown pack and is let go.
    open spec fn decode(raw: RawPackData, ctx: PackContext) -> Result<Self, DecodeError> {
        Ok(NoInfo {  })
    }

    open spec fn violations(&self, ctx: PackContext) -> Seq<FieldError> {
        Seq::empty()
    }

    /// The payload has every bit set.
    open spec fn encode(&self, ctx: PackContext) -> RawPackData {
        [0xFFu8, 0xFFu8, 0xFFu8, 0xFFu8]
    }

    open spec fn canonical(raw: RawPackData, ctx: PackContext) -> RawPackData {
        [0xFFu8, 0xFFu8, 0xFFu8, 0xFFu8]
    }

    fn try_from_raw(raw: &RawPackData, ctx: &PackContext) -> (r: Result<Self, DecodeError>) {
        Ok(NoInfo {  })
    }

    fn validate_with(&self, ctx: &PackContext) -> (r: Result<(), Report>) {
        Ok(())
    }

    fn write(&self, ctx: &PackContext) -> (r: RawPackData) {
        [0xFF, 0xFF, 0xFF, 0xFF]
    }

    proof fn lemma_decode_encode(self, ctx: PackContext) {
    }

    proof fn lemma_encode_decode(raw: RawPackData, ctx: PackContext) {
    }
}

/// Holds the contents of an invalid or unknown pack.
#[derive(Debug, PartialEq, Eq, Clone, Copy, Hash)]
pub struct Unparsed {
    /// Contents of the invalid or unknown pack.
    pub data: [u8; 4],
}

impl PackData for Unparsed {
    open spec fn decode(raw: RawPackData, ctx: PackContext) -> Result<Self, DecodeError> {
        Ok(Unparsed { data: raw })
    }

    open spec fn violations(&self, ctx: PackContext) -> Seq<FieldError> {
        Seq::empty()
    }

    open spec fn encode(&self, ctx: PackContext) -> RawPackData {
        self.data
    }

    open spec fn canonical(raw: RawPackData, ctx: PackContext) -> RawPackData {
        raw
    }

    fn try_from_raw(raw: &RawPackData, ctx: &PackContext) -> (r: Result<Self, DecodeError>) {
        Ok(Unparsed { data: *raw })
    }

    fn validate_with(&self, ctx: &PackContext) -> (r: Result<(), Report>) {
        Ok(())
    }

    fn write(&self, ctx: &PackContext) -> (r: RawPackData) {
        self.data
    }

    proof fn lemma_decode_encode(self, ctx: PackContext) {
    }

    proof fn lemma_encode_decode(raw: RawPackData, ctx: PackContext) {
    }
}

} // verus!
