//! Data types and rules shared between several packs.
use vstd::prelude::*;

use crate::pack::PackContext;
use crate::report::Violation;

verus! {

/// Determines which video system type is in use.
///
/// The video system is also determined in conjunction with the `field_count` pack field.
///
/// DV standards:
///
/// - AAUX source
///   - IEC 61834-4:1998 Section 8.1 - Source (AAUX)
///   - SMPTE 306M-2002 Section 7.4.1 - AAUX source pack (AS)
/// - VAUX source
///   - IEC 61834-4:1998 Section 9.1 - Source (VAUX)
///   - SMPTE 306M-2002 Section 8.9.1 - VAUX source pack (VS)
#[derive(Debug, PartialEq, Eq, Hash, Clone, Copy, Structural)]
pub enum SourceType {
    /// Defines a 525 line, 60 field system, or a 625 line, 50 field system
    ///
    /// 25 mbps bitrate, 4:1:1 chroma subsampling on NTSC
    ///
    /// Relevant standards:
    ///
    /// - IEC 61834-2:1998 - SD format for 525-60 and 625-50 systems
    /// - SMPTE 306M-2002 - 6.35-mm Type D-7 Component Format - Video Compression at 25 Mb/s and
    ///   50 Mb/s - 525/60 and 625/50
    StandardDefinitionCompressedChroma,
    Reserved1,
    /// Defines a 1125 line, 60 field system, or a 1250, 50 field system
    ///
    /// Relevant standards:
    ///
    /// - IEC 61834-3:1999 - HD format for 1125-60 and 1250-50 systems
    AnalogHighDefinition1125_1250,
    Reserved3,
    /// Defines a higher-bitrate 525 line, 60 field system, or a 625 line, 50 field system
    ///
    /// 50 mbps bitrate, 4:2:2 chroma subsampling in SMPTE 306M
    ///
    /// Relevant standards:
    ///
    /// - SMPTE 306M-2002 - 6.35-mm Type D-7 Component Format - Video Compression at 25 Mb/s and
    ///   50 Mb/s - 525/60 and 625/50
    StandardDefinitionMoreChroma,
    Reserved5,
    Reserved6,
    Reserved7,
    Reserved8,
    Reserved9,
    Reserved10,
    Reserved11,
    Reserved12,
    Reserved13,
    Reserved14,
    Reserved15,
    Reserved16,
    Reserved17,
    Reserved18,
    Reserved19,
    Reserved20,
    Reserved21,
    Reserved22,
    Reserved23,
    Reserved24,
    Reserved25,
    Reserved26,
    Reserved27,
    Reserved28,
    Reserved29,
    Reserved30,
    Reserved31,
}

impl SourceType {
    /// The code of the value in its field of 5 bits.
    pub open spec fn code(self) -> u8 {
        match self {
            SourceType::StandardDefinitionCompressedChroma => 0x0u8,
            SourceType::Reserved1 => 0x1u8,
            SourceType::AnalogHighDefinition1125_1250 => 0x2u8,
            SourceType::Reserved3 => 0x3u8,
            SourceType::StandardDefinitionMoreChroma => 0x4u8,
            SourceType::Reserved5 => 0x5u8,
            SourceType::Reserved6 => 0x6u8,
            SourceType::Reserved7 => 0x7u8,
            SourceType::Reserved8 => 0x8u8,
            SourceType::Reserved9 => 0x9u8,
            SourceType::Reserved10 => 0xau8,
            SourceType::Reserved11 => 0xbu8,
            SourceType::Reserved12 => 0xcu8,
            SourceType::Reserved13 => 0xdu8,
            SourceType::Reserved14 => 0xeu8,
            SourceType::Reserved15 => 0xfu8,
            SourceType::Reserved16 => 0x10u8,
            SourceType::Reserved17 => 0x11u8,
            SourceType::Reserved18 => 0x12u8,
            SourceType::Reserved19 => 0x13u8,
            SourceType::Reserved20 => 0x14u8,
            SourceType::Reserved21 => 0x15u8,
            SourceType::Reserved22 => 0x16u8,
            SourceType::Reserved23 => 0x17u8,
            SourceType::Reserved24 => 0x18u8,
            SourceType::Reserved25 => 0x19u8,
            SourceType::Reserved26 => 0x1au8,
            SourceType::Reserved27 => 0x1bu8,
            SourceType::Reserved28 => 0x1cu8,
            SourceType::Reserved29 => 0x1du8,
            SourceType::Reserved30 => 0x1eu8,
            SourceType::Reserved31 => 0x1fu8,
        }
    }

    /// The value with the given code.
    pub open spec fn with_code(code: u8) -> SourceType {
        if code == 0 {
            SourceType::StandardDefinitionCompressedChroma
        } else if code == 1 {
            SourceType::Reserved1
        } else if code == 2 {
            SourceType::AnalogHighDefinition1125_1250
        } else if code == 3 {
            SourceType::Reserved3
        } else if code == 4 {
            SourceType::StandardDefinitionMoreChroma
        } else if code == 5 {
            SourceType::Reserved5
        } else if code == 6 {
            SourceType::Reserved6
        } else if code == 7 {
            SourceType::Reserved7
        } else if code == 8 {
            SourceType::Reserved8
        } else if code == 9 {
            SourceType::Reserved9
        } else if code == 10 {
            SourceType::Reserved10
        } else if code == 11 {
            SourceType::Reserved11
        } else if code == 12 {
            SourceType::Reserved12
        } else if code == 13 {
            SourceType::Reserved13
        } else if code == 14 {
            SourceType::Reserved14
        } else if code == 15 {
            SourceType::Reserved15
        } else if code == 16 {
            SourceType::Reserved16
        } else if code == 17 {
            SourceType::Reserved17
        } else if code == 18 {
            SourceType::Reserved18
        } else if code == 19 {
            SourceType::Reserved19
        } else if code == 20 {
            SourceType::Reserved20
        } else if code == 21 {
            SourceType::Reserved21
        } else if code == 22 {
            SourceType::Reserved22
        } else if code == 23 {
            SourceType::Reserved23
        } else if code == 24 {
            SourceType::Reserved24
        } else if code == 25 {
            SourceType::Reserved25
        } else if code == 26 {
            SourceType::Reserved26
        } else if code == 27 {
            SourceType::Reserved27
        } else if code == 28 {
            SourceType::Reserved28
        } else if code == 29 {
            SourceType::Reserved29
        } else if code == 30 {
            SourceType::Reserved30
        } else {
            SourceType::Reserved31
        }
    }

    pub fn to_bits(self) -> (r: u8)
        ensures
            r == self.code(),
            r < 32,
            SourceType::with_code(r) == self,
    {
        match self {
            SourceType::StandardDefinitionCompressedChroma => 0x0,
            SourceType::Reserved1 => 0x1,
            SourceType::AnalogHighDefinition1125_1250 => 0x2,
            SourceType::Reserved3 => 0x3,
            SourceType::StandardDefinitionMoreChroma => 0x4,
            SourceType::Reserved5 => 0x5,
            SourceType::Reserved6 => 0x6,
            SourceType::Reserved7 => 0x7,
            SourceType::Reserved8 => 0x8,
            SourceType::Reserved9 => 0x9,
            SourceType::Reserved10 => 0xa,
            SourceType::Reserved11 => 0xb,
            SourceType::Reserved12 => 0xc,
            SourceType::Reserved13 => 0xd,
            SourceType::Reserved14 => 0xe,
            SourceType::Reserved15 => 0xf,
            SourceType::Reserved16 => 0x10,
            SourceType::Reserved17 => 0x11,
            SourceType::Reserved18 => 0x12,
            SourceType::Reserved19 => 0x13,
            SourceType::Reserved20 => 0x14,
            SourceType::Reserved21 => 0x15,
            SourceType::Reserved22 => 0x16,
            SourceType::Reserved23 => 0x17,
            SourceType::Reserved24 => 0x18,
            SourceType::Reserved25 => 0x19,
            SourceType::Reserved26 => 0x1a,
            SourceType::Reserved27 => 0x1b,
            SourceType::Reserved28 => 0x1c,
            SourceType::Reserved29 => 0x1d,
            SourceType::Reserved30 => 0x1e,
            SourceType::Reserved31 => 0x1f,
        }
    }

    pub fn from_bits(bits: u8) -> (r: SourceType)
        requires
            bits < 32,
        ensures
            r == SourceType::with_code(bits),
            r.code() == bits,
    {
        if bits == 0 {
            SourceType::StandardDefinitionCompressedChroma
        } else if bits == 1 {
            SourceType::Reserved1
        } else if bits == 2 {
            SourceType::AnalogHighDefinition1125_1250
        } else if bits == 3 {
            SourceType::Reserved3
        } else if bits == 4 {
            SourceType::StandardDefinitionMoreChroma
        } else if bits == 5 {
            SourceType::Reserved5
        } else if bits == 6 {
            SourceType::Reserved6
        } else if bits == 7 {
            SourceType::Reserved7
        } else if bits == 8 {
            SourceType::Reserved8
        } else if bits == 9 {
            SourceType::Reserved9
        } else if bits == 10 {
            SourceType::Reserved10
        } else if bits == 11 {
            SourceType::Reserved11
        } else if bits == 12 {
            SourceType::Reserved12
        } else if bits == 13 {
            SourceType::Reserved13
        } else if bits == 14 {
            SourceType::Reserved14
        } else if bits == 15 {
            SourceType::Reserved15
        } else if bits == 16 {
            SourceType::Reserved16
        } else if bits == 17 {
            SourceType::Reserved17
        } else if bits == 18 {
            SourceType::Reserved18
        } else if bits == 19 {
            SourceType::Reserved19
        } else if bits == 20 {
            SourceType::Reserved20
        } else if bits == 21 {
            SourceType::Reserved21
        } else if bits == 22 {
            SourceType::Reserved22
        } else if bits == 23 {
            SourceType::Reserved23
        } else if bits == 24 {
            SourceType::Reserved24
        } else if bits == 25 {
            SourceType::Reserved25
        } else if bits == 26 {
            SourceType::Reserved26
        } else if bits == 27 {
            SourceType::Reserved27
        } else if bits == 28 {
            SourceType::Reserved28
        } else if bits == 29 {
            SourceType::Reserved29
        } else if bits == 30 {
            SourceType::Reserved30
        } else {
            SourceType::Reserved31
        }
    }

    /// Values and codes below 32 correspond one to one.
    pub proof fn lemma_codes(self, code: u8)
        ensures
            self.code() < 32,
            SourceType::with_code(self.code()) == self,
            code < 32 ==> SourceType::with_code(code).code() == code,
    {
    }
}

/// Copy protection flags
///
/// This flag is used by equipment to restrict copies from being made.  From the days before
/// copy protection used encryption.
#[derive(Debug, PartialEq, Eq, Hash, Clone, Copy, Structural)]
pub enum CopyProtection {
    /// The content may be copied without restriction.  Copies shall also have this flag.
    NoRestriction,
    Reserved,
    /// Only one copy of the content may be made.  Copies made of this content shall be flagged
    /// with [`CopyProtection::NotPermitted`].
    OneGenerationOnly,
    /// No copies of the content shall be allowed to be made.
    NotPermitted,
}

impl CopyProtection {
    /// The code of the value in its field of 2 bits.
    pub open spec fn code(self) -> u8 {
        match self {
            CopyProtection::NoRestriction => 0x0u8,
            CopyProtection::Reserved => 0x1u8,
            CopyProtection::OneGenerationOnly => 0x2u8,
            CopyProtection::NotPermitted => 0x3u8,
        }
    }

    /// The value with the given code.
    pub open spec fn with_code(code: u8) -> CopyProtection {
        if code == 0 {
            CopyProtection::NoRestriction
        } else if code == 1 {
            CopyProtection::Reserved
        } else if code == 2 {
            CopyProtection::OneGenerationOnly
        } else {
            CopyProtection::NotPermitted
        }
    }

    pub fn to_bits(self) -> (r: u8)
        ensures
            r == self.code(),
            r < 4,
            CopyProtection::with_code(r) == self,
    {
        match self {
            CopyProtection::NoRestriction => 0x0,
            CopyProtection::Reserved => 0x1,
            CopyProtection::OneGenerationOnly => 0x2,
            CopyProtection::NotPermitted => 0x3,
        }
    }

    pub fn from_bits(bits: u8) -> (r: CopyProtection)
        requires
            bits < 4,
        ensures
            r == CopyProtection::with_code(bits),
            r.code() == bits,
    {
        if bits == 0 {
            CopyProtection::NoRestriction
        } else if bits == 1 {
            CopyProtection::Reserved
        } else if bits == 2 {
            CopyProtection::OneGenerationOnly
        } else {
            CopyProtection::NotPermitted
        }
    }

    /// Values and codes below 4 correspond one to one.
    pub proof fn lemma_codes(self, code: u8)
        ensures
            self.code() < 4,
            CopyProtection::with_code(self.code()) == self,
            code < 4 ==> CopyProtection::with_code(code).code() == code,
    {
    }
}

/// Indicates whether the source was scrambled and whether it was descrambled when recorded.
#[derive(Debug, PartialEq, Eq, Hash, Clone, Copy, Structural)]
pub enum SourceSituation {
    /// The source was scrambled with audience restrictions, and was recorded without
    /// descrambling.
    ScrambledSourceWithAudienceRestrictions,
    /// The source was scrambled without audience restrictions, and was recorded without
    /// descrambling.
    ScrambledSourceWithoutAudienceRestrictions,
    /// The source has audience restrictions.  If it was scrambled, then it was descrambled.  In
    /// this scenario, the `TitleKey` pack should be recorded in the AAUX optional area.
    SourceWithAudienceRestrictions,
}

impl SourceSituation {
    /// The code of the value in its field of 2 bits.
    pub open spec fn code(self) -> u8 {
        match self {
            SourceSituation::ScrambledSourceWithAudienceRestrictions => 0x0u8,
            SourceSituation::ScrambledSourceWithoutAudienceRestrictions => 0x1u8,
            SourceSituation::SourceWithAudienceRestrictions => 0x2u8,
        }
    }

    /// The code of a value that may be absent: every bit set stands for
    /// "no information".
    pub open spec fn optional_code(value: Option<SourceSituation>) -> u8 {
        match value {
            Some(v) => v.code(),
            None => 0x3u8,
        }
    }

    /// The value with the given code, absent for the code with every bit set.
    pub open spec fn with_optional_code(code: u8) -> Option<SourceSituation> {
        if code == 0 {
            Some(SourceSituation::ScrambledSourceWithAudienceRestrictions)
        } else if code == 1 {
            Some(SourceSituation::ScrambledSourceWithoutAudienceRestrictions)
        } else if code == 2 {
            Some(SourceSituation::SourceWithAudienceRestrictions)
        } else {
            None
        }
    }

    pub fn to_optional_bits(value: Option<SourceSituation>) -> (r: u8)
        ensures
            r == SourceSituation::optional_code(value),
            r < 4,
            SourceSituation::with_optional_code(r) == value,
    {
        match value {
            Some(SourceSituation::ScrambledSourceWithAudienceRestrictions) => 0x0,
            Some(SourceSituation::ScrambledSourceWithoutAudienceRestrictions) => 0x1,
            Some(SourceSituation::SourceWithAudienceRestrictions) => 0x2,
            None => 0x3,
        }
    }

    pub fn from_optional_bits(bits: u8) -> (r: Option<SourceSituation>)
        requires
            bits < 4,
        ensures
            r == SourceSituation::with_optional_code(bits),
            SourceSituation::optional_code(r) == bits,
    {
        if bits == 0 {
            Some(SourceSituation::ScrambledSourceWithAudienceRestrictions)
        } else if bits == 1 {
            Some(SourceSituation::ScrambledSourceWithoutAudienceRestrictions)
        } else if bits == 2 {
            Some(SourceSituation::SourceWithAudienceRestrictions)
        } else {
            None
        }
    }

    /// Values, present or absent, and codes below 4 correspond one to one.
    pub proof fn lemma_optional_codes(value: Option<SourceSituation>, code: u8)
        ensures
            SourceSituation::optional_code(value) < 4,
            SourceSituation::with_optional_code(SourceSituation::optional_code(value)) == value,
            code < 4 ==> SourceSituation::optional_code(SourceSituation::with_optional_code(code)) == code,
    {
    }
}

/// Input source of the recorded content.
#[derive(Debug, PartialEq, Eq, Hash, Clone, Copy, Structural)]
pub enum InputSource {
    /// Analog input was used to record the content.
    Analog,
    /// Digital input was used to record the content.
    Digital,
    Reserved,
}

impl InputSource {
    /// The code of the value in its field of 2 bits.
    pub open spec fn code(self) -> u8 {
        match self {
            InputSource::Analog => 0x0u8,
            InputSource::Digital => 0x1u8,
            InputSource::Reserved => 0x2u8,
        }
    }

    /// The code of a value that may be absent: every bit set stands for
    /// "no information".
    pub open spec fn optional_code(value: Option<InputSource>) -> u8 {
        match value {
            Some(v) => v.code(),
            None => 0x3u8,
        }
    }

    /// The value with the given code, absent for the code with every bit set.
    pub open spec fn with_optional_code(code: u8) -> Option<InputSource> {
        if code == 0 {
            Some(InputSource::Analog)
        } else if code == 1 {
            Some(InputSource::Digital)
        } else if code == 2 {
            Some(InputSource::Reserved)
        } else {
            None
        }
    }

    pub fn to_optional_bits(value: Option<InputSource>) -> (r: u8)
        ensures
            r == InputSource::optional_code(value),
            r < 4,
            InputSource::with_optional_code(r) == value,
    {
        match value {
            Some(InputSource::Analog) => 0x0,
            Some(InputSource::Digital) => 0x1,
            Some(InputSource::Reserved) => 0x2,
            None => 0x3,
        }
    }

    pub fn from_optional_bits(bits: u8) -> (r: Option<InputSource>)
        requires
            bits < 4,
        ensures
            r == InputSource::with_optional_code(bits),
            InputSource::optional_code(r) == bits,
    {
        if bits == 0 {
            Some(InputSource::Analog)
        } else if bits == 1 {
            Some(InputSource::Digital)
        } else if bits == 2 {
            Some(InputSource::Reserved)
        } else {
            None
        }
    }

    /// Values, present or absent, and codes below 4 correspond one to one.
    pub proof fn lemma_optional_codes(value: Option<InputSource>, code: u8)
        ensures
            InputSource::optional_code(value) < 4,
            InputSource::with_optional_code(InputSource::optional_code(value)) == value,
            code < 4 ==> InputSource::optional_code(InputSource::with_optional_code(code)) == code,
    {
    }
}

/// The number of times the content has been compressed.
#[derive(Debug, PartialEq, Eq, Hash, Clone, Copy, Structural)]
pub enum CompressionCount {
    /// One generation of compression.
    Compressed1,
    /// Two generations of compression.
    Compressed2,
    /// Three or more generations of compression.
    Compressed3OrMore,
}

impl CompressionCount {
    /// The code of the value in its field of 2 bits.
    pub open spec fn code(self) -> u8 {
        match self {
            CompressionCount::Compressed1 => 0x0u8,
            CompressionCount::Compressed2 => 0x1u8,
            CompressionCount::Compressed3OrMore => 0x2u8,
        }
    }

    /// The code of a value that may be absent: every bit set stands for
    /// "no information".
    pub open spec fn optional_code(value: Option<CompressionCount>) -> u8 {
        match value {
            Some(v) => v.code(),
            None => 0x3u8,
        }
    }

    /// The value with the given code, absent for the code with every bit set.
    pub open spec fn with_optional_code(code: u8) -> Option<CompressionCount> {
        if code == 0 {
            Some(CompressionCount::Compressed1)
        } else if code == 1 {
            Some(CompressionCount::Compressed2)
        } else if code == 2 {
            Some(CompressionCount::Compressed3OrMore)
        } else {
            None
        }
    }

    pub fn to_optional_bits(value: Option<CompressionCount>) -> (r: u8)
        ensures
            r == CompressionCount::optional_code(value),
            r < 4,
            CompressionCount::with_optional_code(r) == value,
    {
        match value {
            Some(CompressionCount::Compressed1) => 0x0,
            Some(CompressionCount::Compressed2) => 0x1,
            Some(CompressionCount::Compressed3OrMore) => 0x2,
            None => 0x3,
        }
    }

    pub fn from_optional_bits(bits: u8) -> (r: Option<CompressionCount>)
        requires
            bits < 4,
        ensures
            r == CompressionCount::with_optional_code(bits),
            CompressionCount::optional_code(r) == bits,
    {
        if bits == 0 {
            Some(CompressionCount::Compressed1)
        } else if bits == 1 {
            Some(CompressionCount::Compressed2)
        } else if bits == 2 {
            Some(CompressionCount::Compressed3OrMore)
        } else {
            None
        }
    }

    /// Values, present or absent, and codes below 4 correspond one to one.
    pub proof fn lemma_optional_codes(value: Option<CompressionCount>, code: u8)
        ensures
            CompressionCount::optional_code(value) < 4,
            CompressionCount::with_optional_code(CompressionCount::optional_code(value)) == value,
            code < 4 ==> CompressionCount::optional_code(CompressionCount::with_optional_code(code)) == code,
    {
    }
}

/// The rule of a field with a smallest and a largest value.
pub open spec fn range_check(value: int, min: u16, max: u16) -> Result<(), Violation> {
    if value < min {
        Err(Violation::LowerThan { min })
    } else if value > max {
        Err(Violation::GreaterThan { max })
    } else {
        Ok(())
    }
}

/// The rule of a field of a few bits: the value fits into them.
pub open spec fn fits_check(value: u8, max: u8) -> Result<(), Violation> {
    range_check(value as int, 0, max as u16)
}

/// The rule of a field of a few bits whose largest value stands for "no
/// information": an absent value is written as `None`, never as that value.
pub open spec fn sentinel_check(value: Option<u8>, sentinel: u8) -> Result<(), Violation> {
    match value {
        None => Ok(()),
        Some(v) => if v == sentinel {
            Err(Violation::SentinelValue { sentinel })
        } else if v > sentinel {
            Err(Violation::GreaterThan { max: sentinel as u16 })
        } else {
            Ok(())
        },
    }
}

/// The field count is the one of the file's system: 60 for 525-60, 50 for
/// 625-50.
pub open spec fn field_count_check(field_count: u8, ctx: PackContext) -> Result<(), Violation> {
    let system = ctx.file_info.system();
    if field_count != system.field_count() {
        Err(Violation::FieldCountMismatch { field_count, expected: system.field_count(), system })
    } else {
        Ok(())
    }
}

/// The genre category is absent or below `0x7F`.
pub open spec fn genre_category_check(genre_category: Option<u8>) -> Result<(), Violation> {
    sentinel_check(genre_category, 0x7F)
}

/// Decides [`range_check`].
pub fn check_range(value: u16, min: u16, max: u16) -> (r: Result<(), Violation>)
    ensures
        r == range_check(value as int, min, max),
{
    if value < min {
        Err(Violation::LowerThan { min })
    } else if value > max {
        Err(Violation::GreaterThan { max })
    } else {
        Ok(())
    }
}

/// Decides [`fits_check`].
pub fn check_fits(value: u8, max: u8) -> (r: Result<(), Violation>)
    ensures
        r == fits_check(value, max),
{
    check_range(value as u16, 0, max as u16)
}

/// Decides [`sentinel_check`].
pub fn check_sentinel(value: Option<u8>, sentinel: u8) -> (r: Result<(), Violation>)
    ensures
        r == sentinel_check(value, sentinel),
{
    match value {
        None => Ok(()),
        Some(v) => if v == sentinel {
            Err(Violation::SentinelValue { sentinel })
        } else if v > sentinel {
            Err(Violation::GreaterThan { max: sentinel as u16 })
        } else {
            Ok(())
        },
    }
}

/// Validates that the field count is 50 or 60, and matches with the system.
pub fn check_field_count(field_count: u8, ctx: &PackContext) -> (r: Result<(), Violation>)
    ensures
        r == field_count_check(field_count, *ctx),
{
    let system = ctx.file_info.system();
    let expected = system.expected_field_count();
    if field_count != expected {
        Err(Violation::FieldCountMismatch { field_count, expected, system })
    } else {
        Ok(())
    }
}

/// Ensures that a genre category without information is given as `None`,
/// not as `Some(0x7F)`.
pub fn check_genre_category(genre_category: Option<u8>) -> (r: Result<(), Violation>)
    ensures
        r == genre_category_check(genre_category),
{
    check_sentinel(genre_category, 0x7F)
}

} // verus!
