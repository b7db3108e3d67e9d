//! Model structures for the packs of IEC 61834-4.
//!
//! The top-level type is the [`Pack`] enumeration, with one variant for each
//! supported pack type. [`Pack::from_raw`] reads a pack from its five bytes,
//! [`Pack::to_raw`] writes it back.
use vstd::prelude::*;

use crate::file::ValidInfo;
use crate::report::FieldError;
use crate::report::Report;

pub mod aaux_source;
pub mod aaux_source_control;
pub mod binary_group;
pub mod calendar;
pub mod camera_common;
pub mod camera_consumer_1;
pub mod common;
pub mod date;
pub mod error;
pub mod lookup;
pub mod time;
pub mod time_text;
pub mod types;
pub mod util;
pub mod vaux_source;
pub mod vaux_source_control;

pub use aaux_source::AAUXSource;
pub use aaux_source::AudioBlockPairing;
pub use aaux_source::AudioQuantization;
pub use aaux_source::EmphasisTimeConstant;
pub use aaux_source::LockedMode;
pub use aaux_source::StereoMode;
pub use aaux_source_control::AAUXInsertChannel;
pub use aaux_source_control::AAUXRecordingMode;
pub use aaux_source_control::AAUXSourceControl;
pub use aaux_source_control::Direction;
pub use binary_group::BinaryGroup;
pub use calendar::Date;
pub use calendar::FixedOffset;
pub use calendar::Weekday;
pub use camera_common::check_focus_position;
pub use camera_common::FocusMode;
pub use camera_consumer_1::AutoExposureMode;
pub use camera_consumer_1::CameraConsumer1;
pub use camera_consumer_1::FNumber;
pub use camera_consumer_1::WhiteBalance;
pub use camera_consumer_1::WhiteBalanceMode;
pub use common::check_field_count;
pub use common::check_genre_category;
pub use common::CompressionCount;
pub use common::CopyProtection;
pub use common::InputSource;
pub use common::SourceSituation;
pub use common::SourceType;
pub use date::DaylightSavingTime;
pub use date::RecordingDate;
pub use error::BcdField;
pub use error::DecodeError;
pub use error::Failure;
pub use error::RawError;
pub use time::BinaryGroupFlag;
pub use time::BlankFlag;
pub use time::ColorFrame;
pub use time::FrameTypeTrait;
pub use time::PolarityCorrection;
pub use time::RecordingTime;
pub use time::TimeTypeTrait;
pub use time::TimeValue;
pub use time::TimeValueWithOptionalFrame;
pub use time::TimeValueWithRequiredFrame;
pub use time::Timecode;
pub use time::TitleTimecode;
pub use time_text::TimeTextError;
pub use types::NoInfo;
pub use types::Pack;
pub use types::Type;
pub use types::Unparsed;
pub use vaux_source::BlackAndWhiteFlag;
pub use vaux_source::ColorFramesID;
pub use vaux_source::SourceCode;
pub use vaux_source::VAUXSource;
pub use vaux_source_control::FrameChange;
pub use vaux_source_control::FrameField;
pub use vaux_source_control::StillFieldPicture;
pub use vaux_source_control::VAUXRecordingMode;
pub use vaux_source_control::VAUXSourceControl;

verus! {

/// Raw bytes composing a DV data pack, excluding the pack header byte.
pub type RawPackData = [u8; 4];

/// Raw bytes composing a DV data pack, including the pack header byte.
pub type RawPack = [u8; 5];

/// What reading, validating and writing a pack need to know of the DV file
/// that it belongs to, such as the [`crate::file::System`] in use.
#[derive(Debug, Clone, Copy)]
pub struct PackContext {
    /// Information about the file that the pack was obtained from.
    pub file_info: ValidInfo,
}

/// Unvalidated contents of a DV data pack.
///
/// A value can be read from any four bytes that stand for one, whether or not
/// it keeps the rules of its type. It can be written only once it is
/// validated: see [`ValidPack`].
pub trait PackData: Sized + Copy {
    /// The value that a payload stands for, or why it stands for none.
    spec fn decode(raw: RawPackData, ctx: PackContext) -> Result<Self, DecodeError>;

    /// Every rule that the value breaks in the given context, one entry for
    /// each violated field, in the alphabetical order of the fields.
    spec fn violations(&self, ctx: PackContext) -> Seq<FieldError>;

    /// The payload of a value that breaks no rule.
    spec fn encode(&self, ctx: PackContext) -> RawPackData;

    /// The payload that a payload becomes when it is read and written again:
    /// the payload itself, but for bits that reading lets go beside an
    /// absent value, which are written as the type says.
    spec fn canonical(raw: RawPackData, ctx: PackContext) -> RawPackData;

    /// Reads the pack from raw bytes. The value is not validated.
    fn try_from_raw(raw: &RawPackData, ctx: &PackContext) -> (r: Result<Self, DecodeError>)
        ensures
            r == Self::decode(*raw, *ctx),
    ;

    /// Checks every rule of the type.
    fn validate_with(&self, ctx: &PackContext) -> (r: Result<(), Report>)
        ensures
            r is Ok <==> self.violations(*ctx).len() == 0,
            r is Err ==> r->Err_0@ == self.violations(*ctx),
    ;

    /// Writes the payload of a value that breaks no rule.
    fn write(&self, ctx: &PackContext) -> (r: RawPackData)
        requires
            self.violations(*ctx).len() == 0,
        ensures
            r == self.encode(*ctx),
    ;

    /// A value that breaks no rule is read back from its payload.
    proof fn lemma_decode_encode(self, ctx: PackContext)
        requires
            self.violations(ctx).len() == 0,
        ensures
            Self::decode(self.encode(ctx), ctx) == Ok::<Self, DecodeError>(self),
    ;

    /// The value read from a payload, if it breaks no rule, is written as the
    /// payload in its canonical form.
    proof fn lemma_encode_decode(raw: RawPackData, ctx: PackContext)
        requires
            Self::decode(raw, ctx) is Ok,
            Self::decode(raw, ctx)->Ok_0.violations(ctx).len() == 0,
        ensures
            Self::decode(raw, ctx)->Ok_0.encode(ctx) == Self::canonical(raw, ctx),
    ;
}

/// Whether the value breaks no rule of its type in the given context.
#[verifier::opaque]
pub open spec fn is_valid<T: PackData>(value: T, ctx: PackContext) -> bool {
    value.violations(ctx).len() == 0
}

/// The payload that is written of a value that breaks no rule.
#[verifier::opaque]
pub open spec fn written<T: PackData>(value: T, ctx: PackContext) -> RawPackData {
    value.encode(ctx)
}

/// The payload that a payload of the type becomes when it is read and written
/// again.
#[verifier::opaque]
pub open spec fn rewritten<T: PackData>(raw: RawPackData, ctx: PackContext) -> RawPackData {
    T::canonical(raw, ctx)
}

/// What reading and then validating a payload gives: the value, or the
/// failure of the first of the two steps that fails.
#[verifier::opaque]
pub open spec fn outcome<T: PackData>(raw: RawPackData, ctx: PackContext) -> Result<T, Failure> {
    match T::decode(raw, ctx) {
        Err(e) => Err(Failure::Malformed(e)),
        Ok(v) => if is_valid(v, ctx) {
            Ok(v)
        } else {
            Err(Failure::Invalid(v.violations(ctx)))
        },
    }
}

/// The round trip of every pack type: a payload that reads as a valid value
/// is written again in its canonical form, and a valid value is read from
/// what is written of it.
pub proof fn lemma_outcome<T: PackData>(raw: RawPackData, value: T, ctx: PackContext)
    ensures
        outcome::<T>(raw, ctx) is Ok ==> {
            &&& is_valid(outcome::<T>(raw, ctx)->Ok_0, ctx)
            &&& written(outcome::<T>(raw, ctx)->Ok_0, ctx) == rewritten::<T>(raw, ctx)
        },
        is_valid(value, ctx) ==> outcome::<T>(written(value, ctx), ctx) == Ok::<T, Failure>(value),
{
    reveal(outcome);
    reveal(is_valid);
    reveal(written);
    reveal(rewritten);
    if outcome::<T>(raw, ctx) is Ok {
        T::lemma_encode_decode(raw, ctx);
    }
    if is_valid(value, ctx) {
        value.lemma_decode_encode(ctx);
    }
}

/// Validated contents of a DV data pack.
///
/// The only way to one is through validation: [`ValidPack::validate`], or
/// [`ValidPackDataTrait::try_from_raw`].
#[derive(Debug, PartialEq, Eq, Copy, Hash)]
pub struct ValidPack<T: PackData> {
    value: T,
}

impl<T: PackData> Clone for ValidPack<T> {
    fn clone(&self) -> (r: Self)
        ensures
            r == *self,
    {
        *self
    }
}

impl<T: PackData> View for ValidPack<T> {
    type V = T;

    closed spec fn view(&self) -> T {
        self.value
    }
}

impl ValidPack<Unparsed> {
    /// The pack that keeps a payload as it is: it has no rule to break.
    pub fn keep(payload: RawPackData, ctx: &PackContext) -> (r: ValidPack<Unparsed>)
        ensures
            r == Self::of(Unparsed { data: payload }),
    {
        reveal(is_valid);
        let value = Unparsed { data: payload };
        let ghost pack = ValidPack { value };
        assert(is_valid(pack.value, *ctx));
        ValidPack { value }
    }
}

impl<T: PackData> ValidPack<T> {
    #[verifier::type_invariant]
    spec fn inv(self) -> bool {
        exists|ctx: PackContext| #[trigger] is_valid(self.value, ctx)
    }

    /// The wrapper around a value, for use in contracts: it says nothing of
    /// whether the value is valid.
    pub closed spec fn of(value: T) -> ValidPack<T> {
        ValidPack { value }
    }

    /// The wrapper is its value and nothing more.
    pub broadcast proof fn lemma_of_view(value: T)
        ensures
            (#[trigger] Self::of(value))@ == value,
    {
    }

    /// Wrappers of one value are one.
    pub broadcast proof fn lemma_view_of(pack: ValidPack<T>)
        ensures
            Self::of(#[trigger] pack@) == pack,
    {
    }

    /// Validates the value and wraps it, or reports each field that breaks a
    /// rule.
    pub fn validate(value: T, ctx: &PackContext) -> (r: Result<ValidPack<T>, Report>)
        ensures
            r is Ok <==> is_valid(value, *ctx),
            r is Ok ==> r->Ok_0 == Self::of(value),
            r is Err ==> r->Err_0@ == value.violations(*ctx),
    {
        reveal(is_valid);
        match value.validate_with(ctx) {
            Ok(_) => {
                assert(is_valid(value, *ctx));
                let ghost pack = ValidPack { value };
                assert(is_valid(pack.value, *ctx));
                Ok(ValidPack { value })
            },
            Err(report) => Err(report),
        }
    }

    /// Whether the value, validated in some context, is valid in this one:
    /// what [`ValidPackDataTrait::to_raw`] asks for.
    pub fn holds_in(&self, ctx: &PackContext) -> (r: bool)
        ensures
            r == is_valid(self@, *ctx),
    {
        reveal(is_valid);
        self.value.validate_with(ctx).is_ok()
    }

    /// The validated value.
    pub fn get(&self) -> (r: T)
        ensures
            r == self@,
    {
        self.value
    }
}

/// What a validated pack can do beyond its value.
pub trait ValidPackDataTrait<T: PackData>: Sized {
    /// The value that was validated.
    spec fn value(&self) -> T;

    /// Writes the payload of the pack. The pack has to be valid in the
    /// context that it is written in.
    fn to_raw(&self, ctx: &PackContext) -> (r: RawPackData)
        requires
            is_valid(self.value(), *ctx),
        ensures
            r == written(self.value(), *ctx),
    ;

    /// Reads the pack from raw bytes and validates it.
    fn try_from_raw(raw: &RawPackData, ctx: &PackContext) -> (r: Result<Self, RawError>)
        ensures
            match r {
                Ok(pack) => outcome::<T>(*raw, *ctx) == Ok::<T, Failure>(pack.value()),
                Err(e) => outcome::<T>(*raw, *ctx) == Err::<T, Failure>(e@),
            },
    ;
}

impl<T: PackData> ValidPackDataTrait<T> for ValidPack<T> {
    open spec fn value(&self) -> T {
        self@
    }

    fn to_raw(&self, ctx: &PackContext) -> (r: RawPackData) {
        reveal(is_valid);
        reveal(written);
        self.value.write(ctx)
    }

    fn try_from_raw(raw: &RawPackData, ctx: &PackContext) -> (r: Result<Self, RawError>) {
        reveal(outcome);
        match T::try_from_raw(raw, ctx) {
            Err(e) => Err(RawError::Malformed { source: e }),
            Ok(value) => match ValidPack::validate(value, ctx) {
                Ok(pack) => Ok(pack),
                Err(report) => Err(RawError::PackValidation { source: report }),
            },
        }
    }
}

} // verus!
