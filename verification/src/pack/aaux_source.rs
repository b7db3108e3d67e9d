//! The AAUX source pack.
use vstd::prelude::*;

use crate::file::System;
use crate::pack::common::check_field_count;
use crate::pack::common::check_fits;
use crate::pack::common::check_range;
use crate::pack::common::field_count_check;
use crate::pack::common::fits_check;
use crate::pack::common::range_check;
use crate::pack::util::bits;
use crate::pack::util::get_bits;
use crate::pack::util::lemma_byte_3_3_1_1;
use crate::pack::util::lemma_byte_4_1_2_1;
use crate::pack::util::lemma_byte_5_1_1_1;
use crate::pack::util::lemma_byte_6_1_1;
use crate::pack::DecodeError;
use crate::pack::PackContext;
use crate::pack::PackData;
use crate::pack::RawPackData;
use crate::pack::SourceType;
use crate::report::entry;
use crate::report::Field;
use crate::report::FieldError;
use crate::report::Report;
use crate::report::Violation;

verus! {

/// Quantization format of audio samples.
#[derive(Debug, PartialEq, Eq, Hash, Clone, Copy, Structural)]
pub enum AudioQuantization {
    /// 16-bit linear samples (standard PCM)
    Linear16Bit,
    /// Special 12-bit non-linear samples
    NonLinear12Bit,
    /// 20-bit linear samples
    Linear20Bit,
    Reserved3,
    Reserved4,
    Reserved5,
    Reserved6,
    Reserved7,
}

impl AudioQuantization {
    /// The code of the value in its field of 3 bits.
    pub open spec fn code(self) -> u8 {
        match self {
            AudioQuantization::Linear16Bit => 0x0u8,
            AudioQuantization::NonLinear12Bit => 0x1u8,
            AudioQuantization::Linear20Bit => 0x2u8,
            AudioQuantization::Reserved3 => 0x3u8,
            AudioQuantization::Reserved4 => 0x4u8,
            AudioQuantization::Reserved5 => 0x5u8,
            AudioQuantization::Reserved6 => 0x6u8,
            AudioQuantization::Reserved7 => 0x7u8,
        }
    }

    /// The value with the given code.
    pub open spec fn with_code(code: u8) -> AudioQuantization {
        if code == 0 {
            AudioQuantization::Linear16Bit
        } else if code == 1 {
            AudioQuantization::NonLinear12Bit
        } else if code == 2 {
            AudioQuantization::Linear20Bit
        } else if code == 3 {
            AudioQuantization::Reserved3
        } else if code == 4 {
            AudioQuantization::Reserved4
        } else if code == 5 {
            AudioQuantization::Reserved5
        } else if code == 6 {
            AudioQuantization::Reserved6
        } else {
            AudioQuantization::Reserved7
        }
    }

    pub fn to_bits(self) -> (r: u8)
        ensures
            r == self.code(),
            r < 8,
            AudioQuantization::with_code(r) == self,
    {
        match self {
            AudioQuantization::Linear16Bit => 0x0,
            AudioQuantization::NonLinear12Bit => 0x1,
            AudioQuantization::Linear20Bit => 0x2,
            AudioQuantization::Reserved3 => 0x3,
            AudioQuantization::Reserved4 => 0x4,
            AudioQuantization::Reserved5 => 0x5,
            AudioQuantization::Reserved6 => 0x6,
            AudioQuantization::Reserved7 => 0x7,
        }
    }

    pub fn from_bits(bits: u8) -> (r: AudioQuantization)
        requires
            bits < 8,
        ensures
            r == AudioQuantization::with_code(bits),
            r.code() == bits,
    {
        if bits == 0 {
            AudioQuantization::Linear16Bit
        } else if bits == 1 {
            AudioQuantization::NonLinear12Bit
        } else if bits == 2 {
            AudioQuantization::Linear20Bit
        } else if bits == 3 {
            AudioQuantization::Reserved3
        } else if bits == 4 {
            AudioQuantization::Reserved4
        } else if bits == 5 {
            AudioQuantization::Reserved5
        } else if bits == 6 {
            AudioQuantization::Reserved6
        } else {
            AudioQuantization::Reserved7
        }
    }

    /// Values and codes below 8 correspond one to one.
    pub proof fn lemma_codes(self, code: u8)
        ensures
            self.code() < 8,
            AudioQuantization::with_code(self.code()) == self,
            code < 8 ==> AudioQuantization::with_code(code).code() == code,
    {
    }
}

/// Whether the audio clock was locked to the video clock.
#[derive(Debug, PartialEq, Eq, Hash, Clone, Copy, Structural)]
pub enum LockedMode {
    /// The audio clock of the recording device was locked to the video clock.
    ///
    /// This value would typically be seen only in professional recording equipment.  It means
    /// that the number of audio samples per frame will always be the same, and audio will not
    /// become desynchronized from the video over time.
    Locked,
    /// The audio clock of the recording device was _not_ locked to the video clock.
    ///
    /// This value is typical of consumer camcorders.  It means that the number of audio samples
    /// per frame will drift.  To avoid audio/video desynchronization during post-processing, it
    /// is recommended that you resample the audio in each video frame before using it.
    Unlocked,
}

impl LockedMode {
    /// The code of the value in its field of 1 bit.
    pub open spec fn code(self) -> u8 {
        match self {
            LockedMode::Locked => 0u8,
            LockedMode::Unlocked => 1u8,
        }
    }

    /// The value with the given code.
    pub open spec fn with_code(code: u8) -> LockedMode {
        if code == 0 {
            LockedMode::Locked
        } else {
            LockedMode::Unlocked
        }
    }

    pub fn to_bits(self) -> (r: u8)
        ensures
            r == self.code(),
            r < 2,
            LockedMode::with_code(r) == self,
    {
        match self {
            LockedMode::Locked => 0,
            LockedMode::Unlocked => 1,
        }
    }

    pub fn from_bits(bits: u8) -> (r: LockedMode)
        requires
            bits < 2,
        ensures
            r == LockedMode::with_code(bits),
            r.code() == bits,
    {
        if bits == 0 {
            LockedMode::Locked
        } else {
            LockedMode::Unlocked
        }
    }

    /// Values and codes below 2 correspond one to one.
    pub proof fn lemma_codes(self, code: u8)
        ensures
            self.code() < 2,
            LockedMode::with_code(self.code()) == self,
            code < 2 ==> LockedMode::with_code(code).code() == code,
    {
    }
}

/// Partially determines the channel layout.
#[derive(Debug, PartialEq, Eq, Hash, Clone, Copy, Structural)]
pub enum StereoMode {
    MultiStereoAudio,
    LumpedAudio,
}

impl StereoMode {
    /// The code of the value in its field of 1 bit.
    pub open spec fn code(self) -> u8 {
        match self {
            StereoMode::MultiStereoAudio => 0u8,
            StereoMode::LumpedAudio => 1u8,
        }
    }

    /// The value with the given code.
    pub open spec fn with_code(code: u8) -> StereoMode {
        if code == 0 {
            StereoMode::MultiStereoAudio
        } else {
            StereoMode::LumpedAudio
        }
    }

    pub fn to_bits(self) -> (r: u8)
        ensures
            r == self.code(),
            r < 2,
            StereoMode::with_code(r) == self,
    {
        match self {
            StereoMode::MultiStereoAudio => 0,
            StereoMode::LumpedAudio => 1,
        }
    }

    pub fn from_bits(bits: u8) -> (r: StereoMode)
        requires
            bits < 2,
        ensures
            r == StereoMode::with_code(bits),
            r.code() == bits,
    {
        if bits == 0 {
            StereoMode::MultiStereoAudio
        } else {
            StereoMode::LumpedAudio
        }
    }

    /// Values and codes below 2 correspond one to one.
    pub proof fn lemma_codes(self, code: u8)
        ensures
            self.code() < 2,
            StereoMode::with_code(self.code()) == self,
            code < 2 ==> StereoMode::with_code(code).code() == code,
    {
    }
}

/// Whether the audio in audio block channel CH1 (CH3) is related to audio in audio block
/// channel CH2 (CH4).
#[derive(Debug, PartialEq, Eq, Hash, Clone, Copy, Structural)]
pub enum AudioBlockPairing {
    /// The audio block channels are paired with each other.
    Paired,
    /// The audio block channels are independent of each other.
    Independent,
}

impl AudioBlockPairing {
    /// The code of the value in its field of 1 bit.
    pub open spec fn code(self) -> u8 {
        match self {
            AudioBlockPairing::Paired => 0u8,
            AudioBlockPairing::Independent => 1u8,
        }
    }

    /// The value with the given code.
    pub open spec fn with_code(code: u8) -> AudioBlockPairing {
        if code == 0 {
            AudioBlockPairing::Paired
        } else {
            AudioBlockPairing::Independent
        }
    }

    pub fn to_bits(self) -> (r: u8)
        ensures
            r == self.code(),
            r < 2,
            AudioBlockPairing::with_code(r) == self,
    {
        match self {
            AudioBlockPairing::Paired => 0,
            AudioBlockPairing::Independent => 1,
        }
    }

    pub fn from_bits(bits: u8) -> (r: AudioBlockPairing)
        requires
            bits < 2,
        ensures
            r == AudioBlockPairing::with_code(bits),
            r.code() == bits,
    {
        if bits == 0 {
            AudioBlockPairing::Paired
        } else {
            AudioBlockPairing::Independent
        }
    }

    /// Values and codes below 2 correspond one to one.
    pub proof fn lemma_codes(self, code: u8)
        ensures
            self.code() < 2,
            AudioBlockPairing::with_code(self.code()) == self,
            code < 2 ==> AudioBlockPairing::with_code(code).code() == code,
    {
    }
}

/// Time constant of audio pre-emphasis.
#[derive(Debug, PartialEq, Eq, Hash, Clone, Copy, Structural)]
pub enum EmphasisTimeConstant {
    /// Audio pre-emphasis of 50/15 microseconds
    Emphasis50_15,
    Reserved,
}

impl EmphasisTimeConstant {
    /// The code of the value in its field of 1 bit.
    pub open spec fn code(self) -> u8 {
        match self {
            EmphasisTimeConstant::Emphasis50_15 => 1u8,
            EmphasisTimeConstant::Reserved => 0u8,
        }
    }

    /// The value with the given code.
    pub open spec fn with_code(code: u8) -> EmphasisTimeConstant {
        if code == 0 {
            EmphasisTimeConstant::Reserved
        } else {
            EmphasisTimeConstant::Emphasis50_15
        }
    }

    pub fn to_bits(self) -> (r: u8)
        ensures
            r == self.code(),
            r < 2,
            EmphasisTimeConstant::with_code(r) == self,
    {
        match self {
            EmphasisTimeConstant::Emphasis50_15 => 1,
            EmphasisTimeConstant::Reserved => 0,
        }
    }

    pub fn from_bits(bits: u8) -> (r: EmphasisTimeConstant)
        requires
            bits < 2,
        ensures
            r == EmphasisTimeConstant::with_code(bits),
            r.code() == bits,
    {
        if bits == 0 {
            EmphasisTimeConstant::Reserved
        } else {
            EmphasisTimeConstant::Emphasis50_15
        }
    }

    /// Values and codes below 2 correspond one to one.
    pub proof fn lemma_codes(self, code: u8)
        ensures
            self.code() < 2,
            EmphasisTimeConstant::with_code(self.code()) == self,
            code < 2 ==> EmphasisTimeConstant::with_code(code).code() == code,
    {
    }
}

/// Contains information about the audio stream.
///
/// The values are only unique within a given audio block channel: the first
/// 5 or 6 DIF blocks of a sequence, or the second half of its DIF blocks.
///
/// DV standards:
///
/// - IEC 61834-4:1998 Section 8.1 - Source (AAUX)
/// - SMPTE 306M-2002 Section 7.4.1 - AAUX source pack (AS)
#[derive(Debug, PartialEq, Eq, Hash, Clone, Copy, Structural)]
pub struct AAUXSource {
    /// Audio sample rate in Hz: 32000, 44100 or 48000.
    pub audio_sample_rate: u32,
    /// Quantization format of audio samples.
    pub quantization: AudioQuantization,
    /// Number of audio samples in this video frame, for all channels.
    pub audio_frame_size: u16,
    /// Whether the audio clock was locked to the video clock.
    pub locked_mode: LockedMode,
    /// Partially determines the channel layout, along with
    /// [`AAUXSource::audio_block_channel_count`] and
    /// [`AAUXSource::audio_mode`].
    pub stereo_mode: StereoMode,
    /// Number of audio channels within an audio block channel: 1 or 2.
    pub audio_block_channel_count: u8,
    /// Defines the layout of the audio signal channels (what is left, right,
    /// center, surround), in four bits: see the table in IEC 61834-4:1998
    /// Section 8.1.
    pub audio_mode: u8,
    /// Whether the audio in audio block channel CH1 (CH3) is related to audio
    /// in audio block channel CH2 (CH4).
    pub audio_block_pairing: AudioBlockPairing,
    /// Indicates whether there are multiple languages, or other programmes in
    /// the same language, in other audio blocks.
    pub multi_language: bool,
    /// Determines which video system type is in use, together with
    /// [`AAUXSource::field_count`].
    pub source_type: SourceType,
    /// The number of fields per second: 50 (PAL/SECAM) or 60 (NTSC).
    pub field_count: u8,
    /// Whether audio pre-emphasis is enabled.
    pub emphasis_on: bool,
    /// Time constant of audio pre-emphasis.
    pub emphasis_time_constant: EmphasisTimeConstant,
    /// Reserved bits, two of them; should normally be set to 0x3.
    pub reserved: u8,
}

/// The smallest and the largest number of audio samples that a video frame of
/// the system holds at the sample rate, for the rates that the format knows.
pub open spec fn audio_frame_size_range(system: System, audio_sample_rate: u32) -> Option<
    (u16, u16),
> {
    match system {
        System::Sys525_60 => if audio_sample_rate == 32_000 {
            Some((1_053u16, 1_080u16))
        } else if audio_sample_rate == 44_100 {
            Some((1_452u16, 1_489u16))
        } else if audio_sample_rate == 48_000 {
            Some((1_580u16, 1_620u16))
        } else {
            None
        },
        System::Sys625_50 => if audio_sample_rate == 32_000 {
            Some((1_264u16, 1_296u16))
        } else if audio_sample_rate == 44_100 {
            Some((1_742u16, 1_786u16))
        } else if audio_sample_rate == 48_000 {
            Some((1_896u16, 1_944u16))
        } else {
            None
        },
    }
}

/// Computes [`audio_frame_size_range`].
pub fn allowed_audio_frame_size_range(system: System, audio_sample_rate: u32) -> (r: Option<
    (u16, u16),
>)
    ensures
        r == audio_frame_size_range(system, audio_sample_rate),
        r is Some ==> r->Some_0.0 <= r->Some_0.1 < r->Some_0.0 + 64,
{
    match system {
        System::Sys525_60 => if audio_sample_rate == 32_000 {
            Some((1_053, 1_080))
        } else if audio_sample_rate == 44_100 {
            Some((1_452, 1_489))
        } else if audio_sample_rate == 48_000 {
            Some((1_580, 1_620))
        } else {
            None
        },
        System::Sys625_50 => if audio_sample_rate == 32_000 {
            Some((1_264, 1_296))
        } else if audio_sample_rate == 44_100 {
            Some((1_742, 1_786))
        } else if audio_sample_rate == 48_000 {
            Some((1_896, 1_944))
        } else {
            None
        },
    }
}

/// The sample rate is 32000, 44100 or 48000 Hz.
pub open spec fn audio_sample_rate_check(audio_sample_rate: u32) -> Result<(), Violation> {
    if audio_sample_rate == 32_000 || audio_sample_rate == 44_100 || audio_sample_rate
        == 48_000 {
        Ok(())
    } else {
        Err(Violation::AudioSampleRateUnsupported { rate: audio_sample_rate })
    }
}

/// The number of audio samples in the frame lies in the window of the system
/// and the sample rate.
pub open spec fn audio_frame_size_check(
    audio_frame_size: u16,
    audio_sample_rate: u32,
    system: System,
) -> Result<(), Violation> {
    match audio_frame_size_range(system, audio_sample_rate) {
        None => Err(Violation::AudioFrameSizeUnknownRate),
        Some((min, max)) => if audio_frame_size < min {
            Err(
                Violation::AudioFrameSizeBelow {
                    size: audio_frame_size,
                    min,
                    system,
                    rate: audio_sample_rate,
                },
            )
        } else if audio_frame_size > max {
            Err(
                Violation::AudioFrameSizeAbove {
                    size: audio_frame_size,
                    max,
                    system,
                    rate: audio_sample_rate,
                },
            )
        } else {
            Ok(())
        },
    }
}

/// Validates that the audio sample rate is 32000, 44100, or 48000 Hz.
pub fn check_audio_sample_rate(audio_sample_rate: u32) -> (r: Result<(), Violation>)
    ensures
        r == audio_sample_rate_check(audio_sample_rate),
{
    if audio_sample_rate == 32_000 || audio_sample_rate == 44_100 || audio_sample_rate
        == 48_000 {
        Ok(())
    } else {
        Err(Violation::AudioSampleRateUnsupported { rate: audio_sample_rate })
    }
}

/// Checks that the number of audio samples in the video frame is valid for
/// the video system and audio sample rate.
pub fn check_audio_frame_size(aaux_source: &AAUXSource, ctx: &PackContext) -> (r: Result<
    (),
    Violation,
>)
    ensures
        r == audio_frame_size_check(
            aaux_source.audio_frame_size,
            aaux_source.audio_sample_rate,
            ctx.file_info.system(),
        ),
{
    let system = ctx.file_info.system();
    let rate = aaux_source.audio_sample_rate;
    let size = aaux_source.audio_frame_size;
    match allowed_audio_frame_size_range(system, rate) {
        None => Err(Violation::AudioFrameSizeUnknownRate),
        Some((min, max)) => if size < min {
            Err(Violation::AudioFrameSizeBelow { size, min, system, rate })
        } else if size > max {
            Err(Violation::AudioFrameSizeAbove { size, max, system, rate })
        } else {
            Ok(())
        },
    }
}

/// The bit fields of an AAUX source payload.
pub struct RawAAUXSource {
    pub af_size: u8,
    pub reserved: u8,
    pub lf: u8,
    pub audio_mode: u8,
    pub pa: u8,
    pub chn: u8,
    pub sm: u8,
    pub stype: u8,
    pub field_count: u8,
    pub ml: u8,
    pub qu: u8,
    pub smp: u8,
    pub tc: u8,
    pub ef: u8,
}

impl RawAAUXSource {
    /// Every field fits into its bits.
    pub open spec fn wf(self) -> bool {
        &&& self.af_size < 64
        &&& self.reserved < 4
        &&& self.lf < 2
        &&& self.audio_mode < 16
        &&& self.pa < 2
        &&& self.chn < 4
        &&& self.sm < 2
        &&& self.stype < 32
        &&& self.field_count < 2
        &&& self.ml < 2
        &&& self.qu < 8
        &&& self.smp < 8
        &&& self.tc < 2
        &&& self.ef < 2
    }

    /// The fields of a payload, by byte and bits (lowest bits first where a
    /// field has several parts): `af_size` 1:0-5, `reserved` 1:6 with 3:7, `lf`
    /// 1:7, `audio_mode` 2:0-3, `pa` 2:4, `chn` 2:5-6, `sm` 2:7, `stype` 3:0-4,
    /// `field_count` 3:5, `ml` 3:6, `qu` 4:0-2, `smp` 4:3-5, `tc` 4:6, `ef`
    /// 4:7.
    pub open spec fn unpack(raw: RawPackData) -> RawAAUXSource {
        RawAAUXSource {
            af_size: bits(raw[0], 0, 6),
            reserved: (bits(raw[0], 6, 1) + 2 * bits(raw[2], 7, 1)) as u8,
            lf: bits(raw[0], 7, 1),
            audio_mode: bits(raw[1], 0, 4),
            pa: bits(raw[1], 4, 1),
            chn: bits(raw[1], 5, 2),
            sm: bits(raw[1], 7, 1),
            stype: bits(raw[2], 0, 5),
            field_count: bits(raw[2], 5, 1),
            ml: bits(raw[2], 6, 1),
            qu: bits(raw[3], 0, 3),
            smp: bits(raw[3], 3, 3),
            tc: bits(raw[3], 6, 1),
            ef: bits(raw[3], 7, 1),
        }
    }

    /// First byte of the payload.
    pub open spec fn pc1(self) -> u8 {
        (self.af_size + 64 * (self.reserved % 2) + 128 * self.lf) as u8
    }

    /// Second byte of the payload.
    pub open spec fn pc2(self) -> u8 {
        (self.audio_mode + 16 * self.pa + 32 * self.chn + 128 * self.sm) as u8
    }

    /// Third byte of the payload.
    pub open spec fn pc3(self) -> u8 {
        (self.stype + 32 * self.field_count + 64 * self.ml + 128 * (self.reserved / 2)) as u8
    }

    /// Fourth byte of the payload.
    pub open spec fn pc4(self) -> u8 {
        (self.qu + 8 * self.smp + 64 * self.tc + 128 * self.ef) as u8
    }

    /// The payload that holds the fields: the inverse of
    /// [`RawAAUXSource::unpack`].
    pub open spec fn pack(self) -> RawPackData {
        [self.pc1(), self.pc2(), self.pc3(), self.pc4()]
    }

    /// Packing undoes unpacking.
    pub proof fn lemma_pack_unpack(raw: RawPackData)
        ensures
            Self::unpack(raw).wf(),
            Self::unpack(raw).pack() == raw,
    {
        let f = Self::unpack(raw);
        lemma_byte_6_1_1(raw[0]);
        lemma_byte_4_1_2_1(raw[1]);
        lemma_byte_5_1_1_1(raw[2]);
        lemma_byte_3_3_1_1(raw[3]);
        assert(f.reserved % 2 == bits(raw[0], 6, 1));
        assert(f.reserved / 2 == bits(raw[2], 7, 1));
        assert(f.pc1() == raw[0]);
        assert(f.pc2() == raw[1]);
        assert(f.pc3() == raw[2]);
        assert(f.pc4() == raw[3]);
    }

    proof fn lemma_unpack_pc1(self)
        requires
            self.wf(),
        ensures
            bits(self.pc1(), 0, 6) == self.af_size,
            bits(self.pc1(), 6, 1) == self.reserved % 2,
            bits(self.pc1(), 7, 1) == self.lf,
    {
    }

    proof fn lemma_unpack_pc2(self)
        requires
            self.wf(),
        ensures
            bits(self.pc2(), 0, 4) == self.audio_mode,
            bits(self.pc2(), 4, 1) == self.pa,
            bits(self.pc2(), 5, 2) == self.chn,
            bits(self.pc2(), 7, 1) == self.sm,
    {
    }

    proof fn lemma_unpack_pc3(self)
        requires
            self.wf(),
        ensures
            bits(self.pc3(), 0, 5) == self.stype,
            bits(self.pc3(), 5, 1) == self.field_count,
            bits(self.pc3(), 6, 1) == self.ml,
            bits(self.pc3(), 7, 1) == self.reserved / 2,
    {
    }

    proof fn lemma_unpack_pc4(self)
        requires
            self.wf(),
        ensures
            bits(self.pc4(), 0, 3) == self.qu,
            bits(self.pc4(), 3, 3) == self.smp,
            bits(self.pc4(), 6, 1) == self.tc,
            bits(self.pc4(), 7, 1) == self.ef,
    {
    }

    /// Unpacking undoes packing.
    pub proof fn lemma_unpack_pack(self)
        requires
            self.wf(),
        ensures
            Self::unpack(self.pack()) == self,
    {
        self.lemma_unpack_pc1();
        self.lemma_unpack_pc2();
        self.lemma_unpack_pc3();
        self.lemma_unpack_pc4();
        assert(self.reserved == self.reserved % 2 + 2 * (self.reserved / 2));
    }

    /// Reads the fields of a payload.
    pub fn read(raw: &RawPackData) -> (r: RawAAUXSource)
        ensures
            r == Self::unpack(*raw),
            r.wf(),
    {
        RawAAUXSource {
            af_size: get_bits(raw[0], 0, 6),
            reserved: get_bits(raw[0], 6, 1) + 2 * get_bits(raw[2], 7, 1),
            lf: get_bits(raw[0], 7, 1),
            audio_mode: get_bits(raw[1], 0, 4),
            pa: get_bits(raw[1], 4, 1),
            chn: get_bits(raw[1], 5, 2),
            sm: get_bits(raw[1], 7, 1),
            stype: get_bits(raw[2], 0, 5),
            field_count: get_bits(raw[2], 5, 1),
            ml: get_bits(raw[2], 6, 1),
            qu: get_bits(raw[3], 0, 3),
            smp: get_bits(raw[3], 3, 3),
            tc: get_bits(raw[3], 6, 1),
            ef: get_bits(raw[3], 7, 1),
        }
    }

    /// Writes the payload that holds the fields.
    pub fn write(&self) -> (r: RawPackData)
        requires
            self.wf(),
        ensures
            r == self.pack(),
    {
        [
            self.af_size + 64 * (self.reserved % 2) + 128 * self.lf,
            self.audio_mode + 16 * self.pa + 32 * self.chn + 128 * self.sm,
            self.stype + 32 * self.field_count + 64 * self.ml + 128 * (self.reserved / 2),
            self.qu + 8 * self.smp + 64 * self.tc + 128 * self.ef,
        ]
    }
}

/// The sample rate with the given code, for the codes that are in use.
pub open spec fn sample_rate_of(smp: u8) -> Result<u32, DecodeError> {
    if smp == 0 {
        Ok(48_000u32)
    } else if smp == 1 {
        Ok(44_100u32)
    } else if smp == 2 {
        Ok(32_000u32)
    } else {
        Err(DecodeError::UnknownSampleRate { smp })
    }
}

/// The number of channels of an audio block with the given code, for the
/// codes that are in use.
pub open spec fn channel_count_of(chn: u8) -> Result<u8, DecodeError> {
    if chn == 0 {
        Ok(1u8)
    } else if chn == 1 {
        Ok(2u8)
    } else {
        Err(DecodeError::UnknownChannelCount { chn })
    }
}

/// The code of a sample rate.
pub open spec fn sample_rate_code(audio_sample_rate: u32) -> u8 {
    if audio_sample_rate == 48_000 {
        0
    } else if audio_sample_rate == 44_100 {
        1
    } else {
        2
    }
}

/// The AAUX source that the fields stand for.
///
/// The number of audio samples is written as what it exceeds the smallest
/// number of the system and the sample rate by. A reserved code of the sample
/// rate is the first error, one of the channel count the second.
pub open spec fn aaux_source_of(f: RawAAUXSource, system: System) -> Result<
    AAUXSource,
    DecodeError,
> {
    match sample_rate_of(f.smp) {
        Err(e) => Err(e),
        Ok(audio_sample_rate) => match channel_count_of(f.chn) {
            Err(e) => Err(e),
            Ok(audio_block_channel_count) => Ok(
                AAUXSource {
                    audio_sample_rate,
                    quantization: AudioQuantization::with_code(f.qu),
                    audio_frame_size: (audio_frame_size_range(
                        system,
                        audio_sample_rate,
                    )->Some_0.0 + f.af_size) as u16,
                    locked_mode: LockedMode::with_code(f.lf),
                    stereo_mode: StereoMode::with_code(f.sm),
                    audio_block_channel_count,
                    audio_mode: f.audio_mode,
                    audio_block_pairing: AudioBlockPairing::with_code(f.pa),
                    multi_language: f.ml == 0,
                    source_type: SourceType::with_code(f.stype),
                    field_count: if f.field_count == 1 {
                        50u8
                    } else {
                        60u8
                    },
                    emphasis_on: f.ef == 0,
                    emphasis_time_constant: EmphasisTimeConstant::with_code(f.tc),
                    reserved: f.reserved,
                },
            ),
        },
    }
}

/// The fields that stand for an AAUX source.
pub open spec fn fields_of(v: AAUXSource, system: System) -> RawAAUXSource {
    RawAAUXSource {
        af_size: match audio_frame_size_range(system, v.audio_sample_rate) {
            Some((min, _)) => (v.audio_frame_size - min) as u8,
            None => 0u8,
        },
        reserved: v.reserved,
        lf: v.locked_mode.code(),
        audio_mode: v.audio_mode,
        pa: v.audio_block_pairing.code(),
        chn: if v.audio_block_channel_count == 2 {
            1u8
        } else {
            0u8
        },
        sm: v.stereo_mode.code(),
        stype: v.source_type.code(),
        field_count: if v.field_count == 50 {
            1u8
        } else {
            0u8
        },
        ml: if v.multi_language {
            0u8
        } else {
            1u8
        },
        qu: v.quantization.code(),
        smp: sample_rate_code(v.audio_sample_rate),
        tc: v.emphasis_time_constant.code(),
        ef: if v.emphasis_on {
            0u8
        } else {
            1u8
        },
    }
}

/// Reads the AAUX source that the fields stand for.
pub fn aaux_source_from_fields(f: &RawAAUXSource, system: System) -> (r: Result<
    AAUXSource,
    DecodeError,
>)
    requires
        f.wf(),
    ensures
        r == aaux_source_of(*f, system),
{
    let audio_sample_rate: u32 = if f.smp == 0 {
        48_000
    } else if f.smp == 1 {
        44_100
    } else if f.smp == 2 {
        32_000
    } else {
        return Err(DecodeError::UnknownSampleRate { smp: f.smp });
    };
    let min: u16 = match allowed_audio_frame_size_range(system, audio_sample_rate) {
        Some((min, _)) => min,
        None => 0,
    };
    let audio_block_channel_count: u8 = if f.chn == 0 {
        1
    } else if f.chn == 1 {
        2
    } else {
        return Err(DecodeError::UnknownChannelCount { chn: f.chn });
    };
    Ok(
        AAUXSource {
            audio_sample_rate,
            quantization: AudioQuantization::from_bits(f.qu),
            audio_frame_size: min + f.af_size as u16,
            locked_mode: LockedMode::from_bits(f.lf),
            stereo_mode: StereoMode::from_bits(f.sm),
            audio_block_channel_count,
            audio_mode: f.audio_mode,
            audio_block_pairing: AudioBlockPairing::from_bits(f.pa),
            multi_language: f.ml == 0,
            source_type: SourceType::from_bits(f.stype),
            field_count: if f.field_count == 1 {
                50
            } else {
                60
            },
            emphasis_on: f.ef == 0,
            emphasis_time_constant: EmphasisTimeConstant::from_bits(f.tc),
            reserved: f.reserved,
        },
    )
}

impl AAUXSource {
    /// What the rules of the single fields say of a value without violations.
    pub proof fn lemma_valid(self, ctx: PackContext)
        requires
            self.violations(ctx).len() == 0,
        ensures
            1 <= self.audio_block_channel_count <= 2,
            audio_frame_size_check(
                self.audio_frame_size,
                self.audio_sample_rate,
                ctx.file_info.system(),
            ) is Ok,
            self.audio_mode <= 15,
            audio_sample_rate_check(self.audio_sample_rate) is Ok,
            field_count_check(self.field_count, ctx) is Ok,
            self.reserved <= 3,
    {
        assert(entry(
            Field::AudioBlockChannelCount,
            range_check(self.audio_block_channel_count as int, 1, 2),
        ).len() == 0);
        assert(entry(
            Field::AudioFrameSize,
            audio_frame_size_check(
                self.audio_frame_size,
                self.audio_sample_rate,
                ctx.file_info.system(),
            ),
        ).len() == 0);
        assert(entry(Field::AudioMode, fits_check(self.audio_mode, 15)).len() == 0);
        assert(entry(Field::AudioSampleRate, audio_sample_rate_check(self.audio_sample_rate)).len()
            == 0);
        assert(entry(Field::FieldCount, field_count_check(self.field_count, ctx)).len() == 0);
        assert(entry(Field::Reserved, fits_check(self.reserved, 3)).len() == 0);
    }

    /// Writes the fields that stand for a valid AAUX source.
    pub fn to_fields(&self, ctx: &PackContext) -> (r: RawAAUXSource)
        requires
            self.violations(*ctx).len() == 0,
        ensures
            r == fields_of(*self, ctx.file_info.system()),
            r.wf(),
    {
        proof {
            self.lemma_valid(*ctx);
        }
        let system = ctx.file_info.system();
        let af_size: u8 = match allowed_audio_frame_size_range(system, self.audio_sample_rate) {
            Some((min, _)) => (self.audio_frame_size - min) as u8,
            None => 0,
        };
        RawAAUXSource {
            af_size,
            reserved: self.reserved,
            lf: self.locked_mode.to_bits(),
            audio_mode: self.audio_mode,
            pa: self.audio_block_pairing.to_bits(),
            chn: if self.audio_block_channel_count == 2 {
                1
            } else {
                0
            },
            sm: self.stereo_mode.to_bits(),
            stype: self.source_type.to_bits(),
            field_count: if self.field_count == 50 {
                1
            } else {
                0
            },
            ml: if self.multi_language {
                0
            } else {
                1
            },
            qu: self.quantization.to_bits(),
            smp: if self.audio_sample_rate == 48_000 {
                0
            } else if self.audio_sample_rate == 44_100 {
                1
            } else {
                2
            },
            tc: self.emphasis_time_constant.to_bits(),
            ef: if self.emphasis_on {
                0
            } else {
                1
            },
        }
    }

    /// A valid AAUX source is read back from its fields.
    pub proof fn lemma_of_fields(self, ctx: PackContext)
        requires
            self.violations(ctx).len() == 0,
        ensures
            fields_of(self, ctx.file_info.system()).wf(),
            aaux_source_of(fields_of(self, ctx.file_info.system()), ctx.file_info.system()) == Ok::<
                AAUXSource,
                DecodeError,
            >(self),
    {
        self.lemma_valid(ctx);
        self.quantization.lemma_codes(0);
        self.locked_mode.lemma_codes(0);
        self.stereo_mode.lemma_codes(0);
        self.audio_block_pairing.lemma_codes(0);
        self.source_type.lemma_codes(0);
        self.emphasis_time_constant.lemma_codes(0);
    }

    /// The fields of a valid AAUX source that was read are those it was read
    /// from.
    pub proof fn lemma_fields_of(f: RawAAUXSource, ctx: PackContext)
        requires
            f.wf(),
            aaux_source_of(f, ctx.file_info.system()) is Ok,
        ensures
            fields_of(aaux_source_of(f, ctx.file_info.system())->Ok_0, ctx.file_info.system())
                == f,
    {
        let v = aaux_source_of(f, ctx.file_info.system())->Ok_0;
        v.quantization.lemma_codes(f.qu);
        v.locked_mode.lemma_codes(f.lf);
        v.stereo_mode.lemma_codes(f.sm);
        v.audio_block_pairing.lemma_codes(f.pa);
        v.source_type.lemma_codes(f.stype);
        v.emphasis_time_constant.lemma_codes(f.tc);
    }
}

impl PackData for AAUXSource {
    open spec fn decode(raw: RawPackData, ctx: PackContext) -> Result<Self, DecodeError> {
        aaux_source_of(RawAAUXSource::unpack(raw), ctx.file_info.system())
    }

    open spec fn violations(&self, ctx: PackContext) -> Seq<FieldError> {
        entry(
            Field::AudioBlockChannelCount,
            range_check(self.audio_block_channel_count as int, 1, 2),
        ) + entry(
            Field::AudioFrameSize,
            audio_frame_size_check(
                self.audio_frame_size,
                self.audio_sample_rate,
                ctx.file_info.system(),
            ),
        ) + entry(Field::AudioMode, fits_check(self.audio_mode, 15)) + entry(
            Field::AudioSampleRate,
            audio_sample_rate_check(self.audio_sample_rate),
        ) + entry(Field::FieldCount, field_count_check(self.field_count, ctx)) + entry(
            Field::Reserved,
            fits_check(self.reserved, 3),
        )
    }

    open spec fn encode(&self, ctx: PackContext) -> RawPackData {
        fields_of(*self, ctx.file_info.system()).pack()
    }

    /// Every bit of the payload has its field: nothing is let go.
    open spec fn canonical(raw: RawPackData, ctx: PackContext) -> RawPackData {
        raw
    }

    fn try_from_raw(raw: &RawPackData, ctx: &PackContext) -> (r: Result<Self, DecodeError>) {
        let fields = RawAAUXSource::read(raw);
        aaux_source_from_fields(&fields, ctx.file_info.system())
    }

    fn validate_with(&self, ctx: &PackContext) -> (r: Result<(), Report>) {
        let mut report = Report::new();
        report.record(
            Field::AudioBlockChannelCount,
            check_range(self.audio_block_channel_count as u16, 1, 2),
        );
        report.record(Field::AudioFrameSize, check_audio_frame_size(self, ctx));
        report.record(Field::AudioMode, check_fits(self.audio_mode, 15));
        report.record(Field::AudioSampleRate, check_audio_sample_rate(self.audio_sample_rate));
        report.record(Field::FieldCount, check_field_count(self.field_count, ctx));
        report.record(Field::Reserved, check_fits(self.reserved, 3));
        report.into_result()
    }

    fn write(&self, ctx: &PackContext) -> (r: RawPackData) {
        self.to_fields(ctx).write()
    }

    proof fn lemma_decode_encode(self, ctx: PackContext) {
        self.lemma_of_fields(ctx);
        fields_of(self, ctx.file_info.system()).lemma_unpack_pack();
    }

    proof fn lemma_encode_decode(raw: RawPackData, ctx: PackContext) {
        RawAAUXSource::lemma_pack_unpack(raw);
        Self::lemma_fields_of(RawAAUXSource::unpack(raw), ctx);
    }
}

} // verus!
