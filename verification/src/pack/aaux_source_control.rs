//! The AAUX source control pack.
use vstd::prelude::*;

use crate::file::Ratio;
use crate::pack::common::check_fits;
use crate::pack::common::check_genre_category;
use crate::pack::common::fits_check;
use crate::pack::common::genre_category_check;
use crate::pack::lookup::first_code;
use crate::pack::lookup::lemma_first_code;
use crate::pack::lookup::lemma_first_code_of_value;
use crate::pack::util::bits;
use crate::pack::util::get_bits;
use crate::pack::util::lemma_byte_2_2_2_2;
use crate::pack::util::lemma_byte_3_3_1_1;
use crate::pack::util::lemma_byte_7_1;
use crate::pack::CompressionCount;
use crate::pack::CopyProtection;
use crate::pack::DecodeError;
use crate::pack::InputSource;
use crate::pack::PackContext;
use crate::pack::PackData;
use crate::pack::RawPackData;
use crate::pack::SourceSituation;
use crate::report::entry;
use crate::report::Field;
use crate::report::FieldError;
use crate::report::Report;
use crate::report::Violation;

verus! {

/// Indicates the recording mode of the audio.
///
/// New audio content can be dubbed onto existing video at a later time.  This flag is
/// supposed to indicate whether that has happened, and if so, onto which channels.
#[derive(Debug, PartialEq, Eq, Hash, Clone, Copy, Structural)]
pub enum AAUXRecordingMode {
    /// All audio was recorded at the same time as the video.
    Original,
    /// One of the audio block channels was updated with new content.  The remaining audio block
    /// channels were recorded at the same time as the video.
    OneChannelInsert,
    /// Two of the audio block channels were updated with new content.  The remaining audio block
    /// channels were recorded at the same time as the video.
    ///
    /// The inserted audio block channels must be either CH1 and CH2, or CH3 and CH4.
    TwoChannelInsert,
    /// All four of the audio block channels were updated with new content at a later time after
    /// the video was recorded.
    FourChannelInsert,
    InvalidRecording,
    Reserved0,
    Reserved2,
    Reserved6,
}

impl AAUXRecordingMode {
    /// The code of the value in its field of 3 bits.
    pub open spec fn code(self) -> u8 {
        match self {
            AAUXRecordingMode::Original => 0x1u8,
            AAUXRecordingMode::OneChannelInsert => 0x3u8,
            AAUXRecordingMode::TwoChannelInsert => 0x5u8,
            AAUXRecordingMode::FourChannelInsert => 0x4u8,
            AAUXRecordingMode::InvalidRecording => 0x7u8,
            AAUXRecordingMode::Reserved0 => 0x0u8,
            AAUXRecordingMode::Reserved2 => 0x2u8,
            AAUXRecordingMode::Reserved6 => 0x6u8,
        }
    }

    /// The value with the given code.
    pub open spec fn with_code(code: u8) -> AAUXRecordingMode {
        if code == 0 {
            AAUXRecordingMode::Reserved0
        } else if code == 1 {
            AAUXRecordingMode::Original
        } else if code == 2 {
            AAUXRecordingMode::Reserved2
        } else if code == 3 {
            AAUXRecordingMode::OneChannelInsert
        } else if code == 4 {
            AAUXRecordingMode::FourChannelInsert
        } else if code == 5 {
            AAUXRecordingMode::TwoChannelInsert
        } else if code == 6 {
            AAUXRecordingMode::Reserved6
        } else {
            AAUXRecordingMode::InvalidRecording
        }
    }

    pub fn to_bits(self) -> (r: u8)
        ensures
            r == self.code(),
            r < 8,
            AAUXRecordingMode::with_code(r) == self,
    {
        match self {
            AAUXRecordingMode::Original => 0x1,
            AAUXRecordingMode::OneChannelInsert => 0x3,
            AAUXRecordingMode::TwoChannelInsert => 0x5,
            AAUXRecordingMode::FourChannelInsert => 0x4,
            AAUXRecordingMode::InvalidRecording => 0x7,
            AAUXRecordingMode::Reserved0 => 0x0,
            AAUXRecordingMode::Reserved2 => 0x2,
            AAUXRecordingMode::Reserved6 => 0x6,
        }
    }

    pub fn from_bits(bits: u8) -> (r: AAUXRecordingMode)
        requires
            bits < 8,
        ensures
            r == AAUXRecordingMode::with_code(bits),
            r.code() == bits,
    {
        if bits == 0 {
            AAUXRecordingMode::Reserved0
        } else if bits == 1 {
            AAUXRecordingMode::Original
        } else if bits == 2 {
            AAUXRecordingMode::Reserved2
        } else if bits == 3 {
            AAUXRecordingMode::OneChannelInsert
        } else if bits == 4 {
            AAUXRecordingMode::FourChannelInsert
        } else if bits == 5 {
            AAUXRecordingMode::TwoChannelInsert
        } else if bits == 6 {
            AAUXRecordingMode::Reserved6
        } else {
            AAUXRecordingMode::InvalidRecording
        }
    }

    /// Values and codes below 8 correspond one to one.
    pub proof fn lemma_codes(self, code: u8)
        ensures
            self.code() < 8,
            AAUXRecordingMode::with_code(self.code()) == self,
            code < 8 ==> AAUXRecordingMode::with_code(code).code() == code,
    {
    }
}

/// Indicates which channels were inserted.
///
/// The value is only meaningful for Memory in Cassette (MIC).  Packs recorded on tape are not
/// supposed to specify a value here.
#[derive(Debug, PartialEq, Eq, Hash, Clone, Copy, Structural)]
pub enum AAUXInsertChannel {
    /// Audio block channel 1 inserted.
    Channel1,
    /// Audio block channel 2 inserted.
    Channel2,
    /// Audio block channel 3 inserted.
    Channel3,
    /// Audio block channel 4 inserted.
    Channel4,
    /// Audio block channels 1 and 2 inserted.
    Channels1_2,
    /// Audio block channels 3 and 4 inserted.
    Channels3_4,
    /// Audio block channels 1 through 4 inserted.
    Channels1_2_3_4,
}

impl AAUXInsertChannel {
    /// The code of the value in its field of 3 bits.
    pub open spec fn code(self) -> u8 {
        match self {
            AAUXInsertChannel::Channel1 => 0x0u8,
            AAUXInsertChannel::Channel2 => 0x1u8,
            AAUXInsertChannel::Channel3 => 0x2u8,
            AAUXInsertChannel::Channel4 => 0x3u8,
            AAUXInsertChannel::Channels1_2 => 0x4u8,
            AAUXInsertChannel::Channels3_4 => 0x5u8,
            AAUXInsertChannel::Channels1_2_3_4 => 0x6u8,
        }
    }

    /// The code of a value that may be absent: every bit set stands for
    /// "no information".
    pub open spec fn optional_code(value: Option<AAUXInsertChannel>) -> u8 {
        match value {
            Some(v) => v.code(),
            None => 0x7u8,
        }
    }

    /// The value with the given code, absent for the code with every bit set.
    pub open spec fn with_optional_code(code: u8) -> Option<AAUXInsertChannel> {
        if code == 0 {
            Some(AAUXInsertChannel::Channel1)
        } else if code == 1 {
            Some(AAUXInsertChannel::Channel2)
        } else if code == 2 {
            Some(AAUXInsertChannel::Channel3)
        } else if code == 3 {
            Some(AAUXInsertChannel::Channel4)
        } else if code == 4 {
            Some(AAUXInsertChannel::Channels1_2)
        } else if code == 5 {
            Some(AAUXInsertChannel::Channels3_4)
        } else if code == 6 {
            Some(AAUXInsertChannel::Channels1_2_3_4)
        } else {
            None
        }
    }

    pub fn to_optional_bits(value: Option<AAUXInsertChannel>) -> (r: u8)
        ensures
            r == AAUXInsertChannel::optional_code(value),
            r < 8,
            AAUXInsertChannel::with_optional_code(r) == value,
    {
        match value {
            Some(AAUXInsertChannel::Channel1) => 0x0,
            Some(AAUXInsertChannel::Channel2) => 0x1,
            Some(AAUXInsertChannel::Channel3) => 0x2,
            Some(AAUXInsertChannel::Channel4) => 0x3,
            Some(AAUXInsertChannel::Channels1_2) => 0x4,
            Some(AAUXInsertChannel::Channels3_4) => 0x5,
            Some(AAUXInsertChannel::Channels1_2_3_4) => 0x6,
            None => 0x7,
        }
    }

    pub fn from_optional_bits(bits: u8) -> (r: Option<AAUXInsertChannel>)
        requires
            bits < 8,
        ensures
            r == AAUXInsertChannel::with_optional_code(bits),
            AAUXInsertChannel::optional_code(r) == bits,
    {
        if bits == 0 {
            Some(AAUXInsertChannel::Channel1)
        } else if bits == 1 {
            Some(AAUXInsertChannel::Channel2)
        } else if bits == 2 {
            Some(AAUXInsertChannel::Channel3)
        } else if bits == 3 {
            Some(AAUXInsertChannel::Channel4)
        } else if bits == 4 {
            Some(AAUXInsertChannel::Channels1_2)
        } else if bits == 5 {
            Some(AAUXInsertChannel::Channels3_4)
        } else if bits == 6 {
            Some(AAUXInsertChannel::Channels1_2_3_4)
        } else {
            None
        }
    }

    /// Values, present or absent, and codes below 8 correspond one to one.
    pub proof fn lemma_optional_codes(value: Option<AAUXInsertChannel>, code: u8)
        ensures
            AAUXInsertChannel::optional_code(value) < 8,
            AAUXInsertChannel::with_optional_code(AAUXInsertChannel::optional_code(value)) == value,
            code < 8 ==> AAUXInsertChannel::optional_code(AAUXInsertChannel::with_optional_code(code)) == code,
    {
    }
}

/// Playback direction.
#[derive(Debug, PartialEq, Eq, Hash, Clone, Copy, Structural)]
pub enum Direction {
    /// Tape playback was in a forward direction.
    Forward,
    /// Tape playback was in a reverse direction.
    Reverse,
}

impl Direction {
    /// The code of the value in its field of 1 bit.
    pub open spec fn code(self) -> u8 {
        match self {
            Direction::Forward => 1u8,
            Direction::Reverse => 0u8,
        }
    }

    /// The value with the given code.
    pub open spec fn with_code(code: u8) -> Direction {
        if code == 0 {
            Direction::Reverse
        } else {
            Direction::Forward
        }
    }

    pub fn to_bits(self) -> (r: u8)
        ensures
            r == self.code(),
            r < 2,
            Direction::with_code(r) == self,
    {
        match self {
            Direction::Forward => 1,
            Direction::Reverse => 0,
        }
    }

    pub fn from_bits(bits: u8) -> (r: Direction)
        requires
            bits < 2,
        ensures
            r == Direction::with_code(bits),
            r.code() == bits,
    {
        if bits == 0 {
            Direction::Reverse
        } else {
            Direction::Forward
        }
    }

    /// Values and codes below 2 correspond one to one.
    pub proof fn lemma_codes(self, code: u8)
        ensures
            self.code() < 2,
            Direction::with_code(self.code()) == self,
            code < 2 ==> Direction::with_code(code).code() == code,
    {
    }
}

/// Contains some metadata about the audio stream.
///
/// DV standards:
///
/// - IEC 61834-4:1998 Section 8.2 - Source control (AAUX)
/// - SMPTE 306M-2002 Section 7.4.2 - AAUX source control pack (ASC)
#[derive(Debug, PartialEq, Eq, Hash, Clone, Copy, Structural)]
pub struct AAUXSourceControl {
    /// Copy protection flags
    pub copy_protection: CopyProtection,
    /// Indicates whether the source was scrambled and whether it was
    /// descrambled when recorded.
    pub source_situation: Option<SourceSituation>,
    /// Input source of the recorded content, if known.
    pub input_source: Option<InputSource>,
    /// The number of times the content has been compressed, if known.
    pub compression_count: Option<CompressionCount>,
    /// Indicates whether this pack marks the start of a new recording.
    pub recording_start_point: bool,
    /// Indicates whether this pack marks the end of a recording.
    pub recording_end_point: bool,
    /// Indicates the recording mode of the audio.
    pub recording_mode: AAUXRecordingMode,
    /// Indicates which channels were inserted. Packs recorded on tape should
    /// hold `None`: the value has a meaning only for Memory in Cassette.
    pub insert_channel: Option<AAUXInsertChannel>,
    /// Defines the genre or category of the audio source, below `0x7F`. See
    /// IEC 61834-4:1998 Section 3.3 - Timer Activation Date (CONTROL) for
    /// the list.
    pub genre_category: Option<u8>,
    /// Playback direction.
    pub direction: Direction,
    /// Playback speed, if known, as one of the fractions that
    /// [`AAUXSourceControl::valid_playback_speeds`] gives, in their lowest
    /// terms.
    ///
    /// For a tape recorded from a source at normal speed, this is the speed
    /// at which the tape deck plays. For a tape recorded from a source that
    /// played at another speed, it is that speed if the deck plays at normal
    /// speed, and absent otherwise. See IEC 61834-2:1998 Section 11.6 -
    /// Playback speed.
    pub playback_speed: Option<Ratio<u8>>,
    /// Reserved bit; should normally be set to 0x1.
    pub reserved: u8,
}

/// Thirty-two times the playback speed of a code from `0x10` to `0x7E`. The
/// low four bits of the code are a fine value `f`, the bits above them a
/// coarse value `c`, and the speed is `(16 + f) / 32` doubled `c - 1` times.
pub open spec fn scaled_speed(code: u8) -> nat {
    let n = (16 + code % 16) as nat;
    let coarse = code / 16;
    if coarse == 1 {
        n
    } else if coarse == 2 {
        2 * n
    } else if coarse == 3 {
        4 * n
    } else if coarse == 4 {
        8 * n
    } else if coarse == 5 {
        16 * n
    } else if coarse == 6 {
        32 * n
    } else {
        64 * n
    }
}

/// The fraction `s / 32` in lowest terms.
pub open spec fn thirty_seconds(s: nat) -> Ratio<u8> {
    if s % 32 == 0 {
        Ratio { numer: (s / 32) as u8, denom: 1u8 }
    } else if s % 16 == 0 {
        Ratio { numer: (s / 16) as u8, denom: 2u8 }
    } else if s % 8 == 0 {
        Ratio { numer: (s / 8) as u8, denom: 4u8 }
    } else if s % 4 == 0 {
        Ratio { numer: (s / 4) as u8, denom: 8u8 }
    } else if s % 2 == 0 {
        Ratio { numer: (s / 2) as u8, denom: 16u8 }
    } else {
        Ratio { numer: s as u8, denom: 32u8 }
    }
}

/// The playback speed of a code of seven bits: none for `0x7F`, zero for 0,
/// 1/32 (which stands for any speed below 1/16) for 1, `1 / (18 - code)` for
/// the other codes below `0x10`, and what [`scaled_speed`] says above.
pub open spec fn playback_speed_of(code: u8) -> Option<Ratio<u8>> {
    if code >= 0x7F {
        None
    } else if code == 0 {
        Some(Ratio { numer: 0u8, denom: 1u8 })
    } else if code == 1 {
        Some(Ratio { numer: 1u8, denom: 32u8 })
    } else if code < 16 {
        Some(Ratio { numer: 1u8, denom: (18 - code) as u8 })
    } else {
        Some(thirty_seconds(scaled_speed(code)))
    }
}

/// The code of a playback speed: the smallest one that stands for it.
pub open spec fn playback_speed_code(speed: Option<Ratio<u8>>) -> Option<u8> {
    first_code(|code: u8| playback_speed_of(code), speed, 0, 128)
}

/// A playback speed is absent or has a code.
pub open spec fn playback_speed_check(speed: Option<Ratio<u8>>) -> Result<(), Violation> {
    match speed {
        None => Ok(()),
        Some(s) => if playback_speed_code(speed) is Some {
            Ok(())
        } else {
            Err(Violation::PlaybackSpeedUnsupported { speed: s })
        },
    }
}

/// Computes [`playback_speed_of`].
pub fn playback_speed(code: u8) -> (r: Option<Ratio<u8>>)
    ensures
        r == playback_speed_of(code),
{
    if code >= 0x7F {
        None
    } else if code == 0 {
        Some(Ratio { numer: 0, denom: 1 })
    } else if code == 1 {
        Some(Ratio { numer: 1, denom: 32 })
    } else if code < 16 {
        Some(Ratio { numer: 1, denom: 18 - code })
    } else {
        let n: u16 = 16 + (code % 16) as u16;
        let coarse: u8 = code / 16;
        let s: u16 = if coarse == 1 {
            n
        } else if coarse == 2 {
            2 * n
        } else if coarse == 3 {
            4 * n
        } else if coarse == 4 {
            8 * n
        } else if coarse == 5 {
            16 * n
        } else if coarse == 6 {
            32 * n
        } else {
            64 * n
        };
        Some(
            if s % 32 == 0 {
                Ratio { numer: (s / 32) as u8, denom: 1 }
            } else if s % 16 == 0 {
                Ratio { numer: (s / 16) as u8, denom: 2 }
            } else if s % 8 == 0 {
                Ratio { numer: (s / 8) as u8, denom: 4 }
            } else if s % 4 == 0 {
                Ratio { numer: (s / 4) as u8, denom: 8 }
            } else if s % 2 == 0 {
                Ratio { numer: (s / 2) as u8, denom: 16 }
            } else {
                Ratio { numer: s as u8, denom: 32 }
            }
        )
    }
}

/// Whether two playback speeds, present or absent, are one.
fn same_speed(a: Option<Ratio<u8>>, b: Option<Ratio<u8>>) -> (r: bool)
    ensures
        r == (a == b),
{
    match (a, b) {
        (None, None) => true,
        (Some(x), Some(y)) => x.numer == y.numer && x.denom == y.denom,
        _ => false,
    }
}

/// Computes [`playback_speed_code`].
pub fn find_playback_speed_code(speed: Option<Ratio<u8>>) -> (r: Option<u8>)
    ensures
        r == playback_speed_code(speed),
{
    let ghost table = |code: u8| playback_speed_of(code);
    let mut code: u8 = 0;
    while code < 128
        invariant
            code <= 128,
            table == (|code: u8| playback_speed_of(code)),
            first_code(table, speed, 0, 128) == first_code(table, speed, code as nat, 128),
        decreases 128 - code,
    {
        if same_speed(playback_speed(code), speed) {
            assert(table(code) == speed);
            return Some(code);
        }
        assert(table(code) != speed);
        code = code + 1;
    }
    None
}

/// A playback speed is one of those that a code stands for.
pub fn check_playback_speed(speed: Option<Ratio<u8>>) -> (r: Result<(), Violation>)
    ensures
        r == playback_speed_check(speed),
{
    match speed {
        None => Ok(()),
        Some(s) => if find_playback_speed_code(speed).is_some() {
            Ok(())
        } else {
            Err(Violation::PlaybackSpeedUnsupported { speed: s })
        },
    }
}

/// The playback speed of a code from `0x10` to `0x7E` is a 32nd of
/// [`scaled_speed`]; that of a code below `0x10` is less than a half.
pub proof fn lemma_speed_value(code: u8)
    requires
        code < 0x7F,
    ensures
        playback_speed_of(code) is Some,
        ({
            let r = playback_speed_of(code)->Some_0;
            &&& r.denom > 0
            &&& code >= 16 ==> r.numer * 32 == scaled_speed(code) * r.denom
            &&& code < 16 ==> r.numer * 32 < 16 * r.denom
        }),
{
}

/// No two codes stand for one playback speed, nor for none.
pub proof fn lemma_speed_codes_differ(a: u8, b: u8)
    requires
        a < 128,
        b < 128,
        playback_speed_of(a) == playback_speed_of(b),
    ensures
        a == b,
{
    if a < 0x7F && b < 0x7F {
        lemma_speed_value(a);
        lemma_speed_value(b);
        let r = playback_speed_of(a)->Some_0;
        if a >= 16 && b >= 16 {
            let d = r.denom as int;
            let x = scaled_speed(a) as int;
            let y = scaled_speed(b) as int;
            assert(x * d == y * d);
            assert(x == y) by (nonlinear_arith)
                requires
                    x * d == y * d,
                    d > 0,
            ;
        } else if a >= 16 {
            assert(scaled_speed(a) >= 16);
            assert(scaled_speed(a) * r.denom >= 16 * r.denom) by (nonlinear_arith)
                requires
                    scaled_speed(a) >= 16,
                    r.denom > 0,
            ;
        } else if b >= 16 {
            assert(scaled_speed(b) >= 16);
            assert(scaled_speed(b) * r.denom >= 16 * r.denom) by (nonlinear_arith)
                requires
                    scaled_speed(b) >= 16,
                    r.denom > 0,
            ;
        }
    }
}

/// The code of the playback speed of a code is the code: law of the table of
/// playback speeds.
pub proof fn lemma_playback_speed_code(code: u8)
    requires
        code < 128,
    ensures
        playback_speed_code(playback_speed_of(code)) == Some(code),
{
    let table = |code: u8| playback_speed_of(code);
    assert forall|a: u8, b: u8|
        a < 128 && b < 128 && #[trigger] table(a) == #[trigger] table(b) implies a == b by {
        lemma_speed_codes_differ(a, b);
    }
    lemma_first_code_of_value(table, code, 128);
}

/// A playback speed that has a code is the speed of its code.
pub proof fn lemma_playback_speed_of_code(speed: Option<Ratio<u8>>)
    requires
        playback_speed_code(speed) is Some,
    ensures
        playback_speed_code(speed)->Some_0 < 128,
        playback_speed_of(playback_speed_code(speed)->Some_0) == speed,
{
    lemma_first_code(|code: u8| playback_speed_of(code), speed, 0, 128);
}

/// The bit fields of an AAUX source control payload.
pub struct RawAAUXSourceControl {
    pub ss: u8,
    pub compression: u8,
    pub isr: u8,
    pub cgms: u8,
    pub insert_ch: u8,
    pub rec_mode: u8,
    pub rec_end: u8,
    pub rec_st: u8,
    pub speed: u8,
    pub drf: u8,
    pub genre_category: u8,
    pub reserved: u8,
}

impl RawAAUXSourceControl {
    /// Every field fits into its bits.
    pub open spec fn wf(self) -> bool {
        &&& self.ss < 4
        &&& self.compression < 4
        &&& self.isr < 4
        &&& self.cgms < 4
        &&& self.insert_ch < 8
        &&& self.rec_mode < 8
        &&& self.rec_end < 2
        &&& self.rec_st < 2
        &&& self.speed < 128
        &&& self.drf < 2
        &&& self.genre_category < 128
        &&& self.reserved < 2
    }

    /// The fields of a payload, by byte and bits (lowest bits first where a
    /// field has several parts): `ss` 1:0-1, `compression` 1:2-3, `isr` 1:4-5,
    /// `cgms` 1:6-7, `insert_ch` 2:0-2, `rec_mode` 2:3-5, `rec_end` 2:6,
    /// `rec_st` 2:7, `speed` 3:0-6, `drf` 3:7, `genre_category` 4:0-6,
    /// `reserved` 4:7.
    pub open spec fn unpack(raw: RawPackData) -> RawAAUXSourceControl {
        RawAAUXSourceControl {
            ss: bits(raw[0], 0, 2),
            compression: bits(raw[0], 2, 2),
            isr: bits(raw[0], 4, 2),
            cgms: bits(raw[0], 6, 2),
            insert_ch: bits(raw[1], 0, 3),
            rec_mode: bits(raw[1], 3, 3),
            rec_end: bits(raw[1], 6, 1),
            rec_st: bits(raw[1], 7, 1),
            speed: bits(raw[2], 0, 7),
            drf: bits(raw[2], 7, 1),
            genre_category: bits(raw[3], 0, 7),
            reserved: bits(raw[3], 7, 1),
        }
    }

    /// First byte of the payload.
    pub open spec fn pc1(self) -> u8 {
        (self.ss + 4 * self.compression + 16 * self.isr + 64 * self.cgms) as u8
    }

    /// Second byte of the payload.
    pub open spec fn pc2(self) -> u8 {
        (self.insert_ch + 8 * self.rec_mode + 64 * self.rec_end + 128 * self.rec_st) as u8
    }

    /// Third byte of the payload.
    pub open spec fn pc3(self) -> u8 {
        (self.speed + 128 * self.drf) as u8
    }

    /// Fourth byte of the payload.
    pub open spec fn pc4(self) -> u8 {
        (self.genre_category + 128 * self.reserved) as u8
    }

    /// The payload that holds the fields: the inverse of
    /// [`RawAAUXSourceControl::unpack`].
    pub open spec fn pack(self) -> RawPackData {
        [self.pc1(), self.pc2(), self.pc3(), self.pc4()]
    }

    /// Packing undoes unpacking.
    pub proof fn lemma_pack_unpack(raw: RawPackData)
        ensures
            Self::unpack(raw).wf(),
            Self::unpack(raw).pack() == raw,
    {
        let f = Self::unpack(raw);
        lemma_byte_2_2_2_2(raw[0]);
        lemma_byte_3_3_1_1(raw[1]);
        lemma_byte_7_1(raw[2]);
        lemma_byte_7_1(raw[3]);
        assert(f.pc1() == raw[0]);
        assert(f.pc2() == raw[1]);
        assert(f.pc3() == raw[2]);
        assert(f.pc4() == raw[3]);
    }

    proof fn lemma_unpack_pc1(self)
        requires
            self.wf(),
        ensures
            bits(self.pc1(), 0, 2) == self.ss,
            bits(self.pc1(), 2, 2) == self.compression,
            bits(self.pc1(), 4, 2) == self.isr,
            bits(self.pc1(), 6, 2) == self.cgms,
    {
    }

    proof fn lemma_unpack_pc2(self)
        requires
            self.wf(),
        ensures
            bits(self.pc2(), 0, 3) == self.insert_ch,
            bits(self.pc2(), 3, 3) == self.rec_mode,
            bits(self.pc2(), 6, 1) == self.rec_end,
            bits(self.pc2(), 7, 1) == self.rec_st,
    {
    }

    proof fn lemma_unpack_pc3(self)
        requires
            self.wf(),
        ensures
            bits(self.pc3(), 0, 7) == self.speed,
            bits(self.pc3(), 7, 1) == self.drf,
    {
    }

    proof fn lemma_unpack_pc4(self)
        requires
            self.wf(),
        ensures
            bits(self.pc4(), 0, 7) == self.genre_category,
            bits(self.pc4(), 7, 1) == self.reserved,
    {
    }

    /// Unpacking undoes packing.
    pub proof fn lemma_unpack_pack(self)
        requires
            self.wf(),
        ensures
            Self::unpack(self.pack()) == self,
    {
        self.lemma_unpack_pc1();
        self.lemma_unpack_pc2();
        self.lemma_unpack_pc3();
        self.lemma_unpack_pc4();
    }

    /// Reads the fields of a payload.
    pub fn read(raw: &RawPackData) -> (r: RawAAUXSourceControl)
        ensures
            r == Self::unpack(*raw),
            r.wf(),
    {
        RawAAUXSourceControl {
            ss: get_bits(raw[0], 0, 2),
            compression: get_bits(raw[0], 2, 2),
            isr: get_bits(raw[0], 4, 2),
            cgms: get_bits(raw[0], 6, 2),
            insert_ch: get_bits(raw[1], 0, 3),
            rec_mode: get_bits(raw[1], 3, 3),
            rec_end: get_bits(raw[1], 6, 1),
            rec_st: get_bits(raw[1], 7, 1),
            speed: get_bits(raw[2], 0, 7),
            drf: get_bits(raw[2], 7, 1),
            genre_category: get_bits(raw[3], 0, 7),
            reserved: get_bits(raw[3], 7, 1),
        }
    }

    /// Writes the payload that holds the fields.
    pub fn write(&self) -> (r: RawPackData)
        requires
            self.wf(),
        ensures
            r == self.pack(),
    {
        [
            self.ss + 4 * self.compression + 16 * self.isr + 64 * self.cgms,
            self.insert_ch + 8 * self.rec_mode + 64 * self.rec_end + 128 * self.rec_st,
            self.speed + 128 * self.drf,
            self.genre_category + 128 * self.reserved,
        ]
    }
}

/// The AAUX source control that the fields stand for. Every payload stands
/// for one.
pub open spec fn aaux_source_control_of(f: RawAAUXSourceControl) -> AAUXSourceControl {
    AAUXSourceControl {
        copy_protection: CopyProtection::with_code(f.cgms),
        source_situation: SourceSituation::with_optional_code(f.ss),
        input_source: InputSource::with_optional_code(f.isr),
        compression_count: CompressionCount::with_optional_code(f.compression),
        recording_start_point: f.rec_st == 0,
        recording_end_point: f.rec_end == 0,
        recording_mode: AAUXRecordingMode::with_code(f.rec_mode),
        insert_channel: AAUXInsertChannel::with_optional_code(f.insert_ch),
        genre_category: if f.genre_category == 0x7F {
            None
        } else {
            Some(f.genre_category)
        },
        direction: Direction::with_code(f.drf),
        playback_speed: playback_speed_of(f.speed),
        reserved: f.reserved,
    }
}

/// The fields that stand for an AAUX source control.
pub open spec fn fields_of(v: AAUXSourceControl) -> RawAAUXSourceControl {
    RawAAUXSourceControl {
        ss: SourceSituation::optional_code(v.source_situation),
        compression: CompressionCount::optional_code(v.compression_count),
        isr: InputSource::optional_code(v.input_source),
        cgms: v.copy_protection.code(),
        insert_ch: AAUXInsertChannel::optional_code(v.insert_channel),
        rec_mode: v.recording_mode.code(),
        rec_end: if v.recording_end_point {
            0u8
        } else {
            1u8
        },
        rec_st: if v.recording_start_point {
            0u8
        } else {
            1u8
        },
        speed: match playback_speed_code(v.playback_speed) {
            Some(code) => code,
            None => 0x7Fu8,
        },
        drf: v.direction.code(),
        genre_category: match v.genre_category {
            Some(g) => g,
            None => 0x7Fu8,
        },
        reserved: v.reserved,
    }
}

/// Reads the AAUX source control that the fields stand for.
pub fn aaux_source_control_from_fields(f: &RawAAUXSourceControl) -> (r: AAUXSourceControl)
    requires
        f.wf(),
    ensures
        r == aaux_source_control_of(*f),
{
    AAUXSourceControl {
        copy_protection: CopyProtection::from_bits(f.cgms),
        source_situation: SourceSituation::from_optional_bits(f.ss),
        input_source: InputSource::from_optional_bits(f.isr),
        compression_count: CompressionCount::from_optional_bits(f.compression),
        recording_start_point: f.rec_st == 0,
        recording_end_point: f.rec_end == 0,
        recording_mode: AAUXRecordingMode::from_bits(f.rec_mode),
        insert_channel: AAUXInsertChannel::from_optional_bits(f.insert_ch),
        genre_category: if f.genre_category == 0x7F {
            None
        } else {
            Some(f.genre_category)
        },
        direction: Direction::from_bits(f.drf),
        playback_speed: playback_speed(f.speed),
        reserved: f.reserved,
    }
}

impl AAUXSourceControl {
    /// The playback speeds that [`AAUXSourceControl::playback_speed`] can
    /// hold: those of the codes from 0 to `0x7E`, in the order of the codes.
    pub fn valid_playback_speeds() -> (r: Vec<Ratio<u8>>)
        ensures
            r@.len() == 127,
            forall|code: u8| code < 127 ==> playback_speed_of(code) == Some(#[trigger] r@[code as int]),
    {
        let mut speeds: Vec<Ratio<u8>> = Vec::new();
        let mut code: u8 = 0;
        while code < 127
            invariant
                code <= 127,
                speeds@.len() == code,
                forall|c: u8| c < code ==> playback_speed_of(c) == Some(#[trigger] speeds@[c as int]),
            decreases 127 - code,
        {
            match playback_speed(code) {
                Some(speed) => {
                    speeds.push(speed);
                },
                None => {},
            }
            code = code + 1;
        }
        speeds
    }

    /// What the rules of the single fields say of a value without violations.
    pub proof fn lemma_valid(self, ctx: PackContext)
        requires
            self.violations(ctx).len() == 0,
        ensures
            genre_category_check(self.genre_category) is Ok,
            playback_speed_check(self.playback_speed) is Ok,
            self.reserved <= 1,
    {
        assert(entry(Field::GenreCategory, genre_category_check(self.genre_category)).len() == 0);
        assert(entry(Field::PlaybackSpeed, playback_speed_check(self.playback_speed)).len() == 0);
        assert(entry(Field::Reserved, fits_check(self.reserved, 1)).len() == 0);
    }

    /// Writes the fields that stand for a valid AAUX source control.
    pub fn to_fields(&self, ctx: &PackContext) -> (r: RawAAUXSourceControl)
        requires
            self.violations(*ctx).len() == 0,
        ensures
            r == fields_of(*self),
            r.wf(),
    {
        proof {
            self.lemma_valid(*ctx);
            lemma_first_code(|code: u8| playback_speed_of(code), self.playback_speed, 0, 128);
        }
        RawAAUXSourceControl {
            ss: SourceSituation::to_optional_bits(self.source_situation),
            compression: CompressionCount::to_optional_bits(self.compression_count),
            isr: InputSource::to_optional_bits(self.input_source),
            cgms: self.copy_protection.to_bits(),
            insert_ch: AAUXInsertChannel::to_optional_bits(self.insert_channel),
            rec_mode: self.recording_mode.to_bits(),
            rec_end: if self.recording_end_point {
                0
            } else {
                1
            },
            rec_st: if self.recording_start_point {
                0
            } else {
                1
            },
            speed: match find_playback_speed_code(self.playback_speed) {
                Some(code) => code,
                None => 0x7F,
            },
            drf: self.direction.to_bits(),
            genre_category: match self.genre_category {
                Some(g) => g,
                None => 0x7F,
            },
            reserved: self.reserved,
        }
    }

    /// A valid AAUX source control is read back from its fields.
    pub proof fn lemma_of_fields(self, ctx: PackContext)
        requires
            self.violations(ctx).len() == 0,
        ensures
            fields_of(self).wf(),
            aaux_source_control_of(fields_of(self)) == self,
    {
        self.lemma_valid(ctx);
        self.copy_protection.lemma_codes(0);
        self.recording_mode.lemma_codes(0);
        self.direction.lemma_codes(0);
        SourceSituation::lemma_optional_codes(self.source_situation, 0);
        InputSource::lemma_optional_codes(self.input_source, 0);
        CompressionCount::lemma_optional_codes(self.compression_count, 0);
        AAUXInsertChannel::lemma_optional_codes(self.insert_channel, 0);
        lemma_first_code(|code: u8| playback_speed_of(code), self.playback_speed, 0, 128);
        if self.playback_speed is None {
            lemma_playback_speed_code(0x7F);
        }
    }

    /// The fields of an AAUX source control that was read are those it was
    /// read from.
    pub proof fn lemma_fields_of(f: RawAAUXSourceControl)
        requires
            f.wf(),
        ensures
            fields_of(aaux_source_control_of(f)) == f,
    {
        let v = aaux_source_control_of(f);
        v.copy_protection.lemma_codes(f.cgms);
        v.recording_mode.lemma_codes(f.rec_mode);
        v.direction.lemma_codes(f.drf);
        SourceSituation::lemma_optional_codes(v.source_situation, f.ss);
        InputSource::lemma_optional_codes(v.input_source, f.isr);
        CompressionCount::lemma_optional_codes(v.compression_count, f.compression);
        AAUXInsertChannel::lemma_optional_codes(v.insert_channel, f.insert_ch);
        lemma_playback_speed_code(f.speed);
    }
}

impl PackData for AAUXSourceControl {
    open spec fn decode(raw: RawPackData, ctx: PackContext) -> Result<Self, DecodeError> {
        Ok(aaux_source_control_of(RawAAUXSourceControl::unpack(raw)))
    }

    open spec fn violations(&self, ctx: PackContext) -> Seq<FieldError> {
        entry(Field::GenreCategory, genre_category_check(self.genre_category)) + entry(
            Field::PlaybackSpeed,
            playback_speed_check(self.playback_speed),
        ) + entry(Field::Reserved, fits_check(self.reserved, 1))
    }

    open spec fn encode(&self, ctx: PackContext) -> RawPackData {
        fields_of(*self).pack()
    }

    /// Every bit of the payload has its field: nothing is let go.
    open spec fn canonical(raw: RawPackData, ctx: PackContext) -> RawPackData {
        raw
    }

    fn try_from_raw(raw: &RawPackData, ctx: &PackContext) -> (r: Result<Self, DecodeError>) {
        let fields = RawAAUXSourceControl::read(raw);
        Ok(aaux_source_control_from_fields(&fields))
    }

    fn validate_with(&self, ctx: &PackContext) -> (r: Result<(), Report>) {
        let mut report = Report::new();
        report.record(Field::GenreCategory, check_genre_category(self.genre_category));
        report.record(Field::PlaybackSpeed, check_playback_speed(self.playback_speed));
        report.record(Field::Reserved, check_fits(self.reserved, 1));
        report.into_result()
    }

    fn write(&self, ctx: &PackContext) -> (r: RawPackData) {
        self.to_fields(ctx).write()
    }

    proof fn lemma_decode_encode(self, ctx: PackContext) {
        self.lemma_of_fields(ctx);
        fields_of(self).lemma_unpack_pack();
    }

    proof fn lemma_encode_decode(raw: RawPackData, ctx: PackContext) {
        RawAAUXSourceControl::lemma_pack_unpack(raw);
        Self::lemma_fields_of(RawAAUXSourceControl::unpack(raw));
    }
}

} // verus!
