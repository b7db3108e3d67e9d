//! The recording date packs.
use vstd::prelude::*;

use crate::pack::calendar::is_valid_offset;
use crate::pack::calendar::is_valid_ymd;
use crate::pack::calendar::offset_exists;
use crate::pack::calendar::Date;
use crate::pack::calendar::FixedOffset;
use crate::pack::calendar::Weekday;
use crate::pack::common::check_fits;
use crate::pack::common::fits_check;
use crate::pack::util::bcd_tens;
use crate::pack::util::bits;
use crate::pack::util::from_bcd_tens;
use crate::pack::util::get_bits;
use crate::pack::util::lemma_byte_4_1_3;
use crate::pack::util::lemma_byte_4_2_1_1;
use crate::pack::util::lemma_byte_4_2_2;
use crate::pack::util::lemma_byte_4_4;
use crate::pack::util::with_bits;
use crate::pack::BcdField;
use crate::pack::DecodeError;
use crate::pack::PackContext;
use crate::pack::PackData;
use crate::pack::RawPackData;
use crate::report::entry;
use crate::report::Field;
use crate::report::FieldError;
use crate::report::Report;
use crate::report::Violation;

verus! {

/// Whether daylight saving time is in effect
#[derive(Debug, PartialEq, Eq, Hash, Clone, Copy, Structural)]
pub enum DaylightSavingTime {
    /// Daylight saving time is in effect
    DaylightSavingTime,
    /// Daylight saving time is not in effect
    Normal,
}

impl DaylightSavingTime {
    /// The code of the value in its field of 1 bit.
    pub open spec fn code(self) -> u8 {
        match self {
            DaylightSavingTime::DaylightSavingTime => 0u8,
            DaylightSavingTime::Normal => 1u8,
        }
    }

    /// The value with the given code.
    pub open spec fn with_code(code: u8) -> DaylightSavingTime {
        if code == 0 {
            DaylightSavingTime::DaylightSavingTime
        } else {
            DaylightSavingTime::Normal
        }
    }

    pub fn to_bits(self) -> (r: u8)
        ensures
            r == self.code(),
            r < 2,
            DaylightSavingTime::with_code(r) == self,
    {
        match self {
            DaylightSavingTime::DaylightSavingTime => 0,
            DaylightSavingTime::Normal => 1,
        }
    }

    pub fn from_bits(bits: u8) -> (r: DaylightSavingTime)
        requires
            bits < 2,
        ensures
            r == DaylightSavingTime::with_code(bits),
            r.code() == bits,
    {
        if bits == 0 {
            DaylightSavingTime::DaylightSavingTime
        } else {
            DaylightSavingTime::Normal
        }
    }

    /// Values and codes below 2 correspond one to one.
    pub proof fn lemma_codes(self, code: u8)
        ensures
            self.code() < 2,
            DaylightSavingTime::with_code(self.code()) == self,
            code < 2 ==> DaylightSavingTime::with_code(code).code() == code,
    {
    }
}

/// AAUX or VAUX recording date
///
/// Indicates the date when audio or video data was recorded.
///
/// The pack is typically repeated many times throughout a frame, with the same
/// value everywhere within the frame.
///
/// DV standards:
///
/// - IEC 61834-4:1998 Section 8.3 - Rec Date (AAUX)
/// - IEC 61834-4:1998 Section 9.3 - Rec Date (VAUX)
#[derive(Debug, PartialEq, Eq, Hash, Clone, Copy, Structural)]
pub struct RecordingDate {
    /// The date of recording.
    ///
    /// The pack holds the last two digits of the year: digits from 75 on are
    /// read as 1975 to 1999, digits below 75 as 2000 to 2074.
    pub date: Option<Date>,
    /// The day of the week the recording took place, as recorded on tape. If
    /// present, it has to be the weekday on which the date falls.
    pub weekday: Option<Weekday>,
    /// The time zone in which the recording took place: east of Greenwich
    /// (New York is +19 hours, not -5), in steps of 30 minutes.
    pub timezone: Option<FixedOffset>,
    /// Whether daylight saving time was in effect when the recording took
    /// place: present if and only if [`RecordingDate::timezone`] is.
    pub daylight_saving_time: Option<DaylightSavingTime>,
    /// Reserved bits, two of them; should normally be set to 0x3.
    pub reserved: u8,
}

/// First year that a recording date can have.
pub const MIN_RECORDING_YEAR: i32 = 1975;

/// Last year that a recording date can have.
pub const MAX_RECORDING_YEAR: i32 = 2074;

/// The code of a weekday that may be absent: 0 for Sunday up to 6 for
/// Saturday, 7 for none.
pub open spec fn weekday_code(weekday: Option<Weekday>) -> u8 {
    match weekday {
        Some(Weekday::Sun) => 0u8,
        Some(Weekday::Mon) => 1u8,
        Some(Weekday::Tue) => 2u8,
        Some(Weekday::Wed) => 3u8,
        Some(Weekday::Thu) => 4u8,
        Some(Weekday::Fri) => 5u8,
        Some(Weekday::Sat) => 6u8,
        None => 7u8,
    }
}

/// The weekday with the given code.
pub open spec fn weekday_with_code(code: u8) -> Option<Weekday> {
    if code == 0 {
        Some(Weekday::Sun)
    } else if code == 1 {
        Some(Weekday::Mon)
    } else if code == 2 {
        Some(Weekday::Tue)
    } else if code == 3 {
        Some(Weekday::Wed)
    } else if code == 4 {
        Some(Weekday::Thu)
    } else if code == 5 {
        Some(Weekday::Fri)
    } else if code == 6 {
        Some(Weekday::Sat)
    } else {
        None
    }
}

/// The bit fields of a recording date payload.
pub struct RawRecordingDate {
    pub tz_hour_units: u8,
    pub tz_hour_tens: u8,
    pub tm: u8,
    pub ds: u8,
    pub day_units: u8,
    pub day_tens: u8,
    pub reserved: u8,
    pub month_units: u8,
    pub month_tens: u8,
    pub week: u8,
    pub year_units: u8,
    pub year_tens: u8,
}

impl RawRecordingDate {
    /// Every field fits into its bits.
    pub open spec fn wf(self) -> bool {
        &&& self.tz_hour_units < 16
        &&& self.tz_hour_tens < 4
        &&& self.tm < 2
        &&& self.ds < 2
        &&& self.day_units < 16
        &&& self.day_tens < 4
        &&& self.reserved < 4
        &&& self.month_units < 16
        &&& self.month_tens < 2
        &&& self.week < 8
        &&& self.year_units < 16
        &&& self.year_tens < 16
    }

    /// The fields of a payload, by byte and bit: time zone hour units 1:0-3
    /// and tens 1:4-5, the half hour flag 1:6 (clear for half an hour more),
    /// daylight saving 1:7, day units 2:0-3 and tens 2:4-5, reserved 2:6-7,
    /// month units 3:0-3 and tens 3:4, weekday 3:5-7, year units 4:0-3 and
    /// tens 4:4-7.
    pub open spec fn unpack(raw: RawPackData) -> RawRecordingDate {
        RawRecordingDate {
            tz_hour_units: bits(raw[0], 0, 4),
            tz_hour_tens: bits(raw[0], 4, 2),
            tm: bits(raw[0], 6, 1),
            ds: bits(raw[0], 7, 1),
            day_units: bits(raw[1], 0, 4),
            day_tens: bits(raw[1], 4, 2),
            reserved: bits(raw[1], 6, 2),
            month_units: bits(raw[2], 0, 4),
            month_tens: bits(raw[2], 4, 1),
            week: bits(raw[2], 5, 3),
            year_units: bits(raw[3], 0, 4),
            year_tens: bits(raw[3], 4, 4),
        }
    }

    /// First byte of the payload.
    pub open spec fn pc1(self) -> u8 {
        (self.tz_hour_units + 16 * self.tz_hour_tens + 64 * self.tm + 128 * self.ds) as u8
    }

    /// Second byte of the payload.
    pub open spec fn pc2(self) -> u8 {
        (self.day_units + 16 * self.day_tens + 64 * self.reserved) as u8
    }

    /// Third byte of the payload.
    pub open spec fn pc3(self) -> u8 {
        (self.month_units + 16 * self.month_tens + 32 * self.week) as u8
    }

    /// Fourth byte of the payload.
    pub open spec fn pc4(self) -> u8 {
        (self.year_units + 16 * self.year_tens) as u8
    }

    /// The payload that holds the fields: the inverse of
    /// [`RawRecordingDate::unpack`].
    pub open spec fn pack(self) -> RawPackData {
        [self.pc1(), self.pc2(), self.pc3(), self.pc4()]
    }

    /// Packing undoes unpacking.
    pub proof fn lemma_pack_unpack(raw: RawPackData)
        ensures
            Self::unpack(raw).wf(),
            Self::unpack(raw).pack() == raw,
    {
        let f = Self::unpack(raw);
        lemma_byte_4_2_1_1(raw[0]);
        lemma_byte_4_2_2(raw[1]);
        lemma_byte_4_1_3(raw[2]);
        lemma_byte_4_4(raw[3]);
        assert(f.pc1() == raw[0]);
        assert(f.pc2() == raw[1]);
        assert(f.pc3() == raw[2]);
        assert(f.pc4() == raw[3]);
    }

    proof fn lemma_unpack_pc1(self)
        requires
            self.wf(),
        ensures
            bits(self.pc1(), 0, 4) == self.tz_hour_units,
            bits(self.pc1(), 4, 2) == self.tz_hour_tens,
            bits(self.pc1(), 6, 1) == self.tm,
            bits(self.pc1(), 7, 1) == self.ds,
    {
    }

    proof fn lemma_unpack_pc2(self)
        requires
            self.wf(),
        ensures
            bits(self.pc2(), 0, 4) == self.day_units,
            bits(self.pc2(), 4, 2) == self.day_tens,
            bits(self.pc2(), 6, 2) == self.reserved,
    {
    }

    proof fn lemma_unpack_pc3(self)
        requires
            self.wf(),
        ensures
            bits(self.pc3(), 0, 4) == self.month_units,
            bits(self.pc3(), 4, 1) == self.month_tens,
            bits(self.pc3(), 5, 3) == self.week,
    {
    }

    proof fn lemma_unpack_pc4(self)
        requires
            self.wf(),
        ensures
            bits(self.pc4(), 0, 4) == self.year_units,
            bits(self.pc4(), 4, 4) == self.year_tens,
    {
    }

    /// Unpacking undoes packing.
    pub proof fn lemma_unpack_pack(self)
        requires
            self.wf(),
        ensures
            Self::unpack(self.pack()) == self,
    {
        self.lemma_unpack_pc1();
        self.lemma_unpack_pc2();
        self.lemma_unpack_pc3();
        self.lemma_unpack_pc4();
    }

    /// Reads the fields of a payload.
    pub fn read(raw: &RawPackData) -> (r: RawRecordingDate)
        ensures
            r == Self::unpack(*raw),
            r.wf(),
    {
        RawRecordingDate {
            tz_hour_units: get_bits(raw[0], 0, 4),
            tz_hour_tens: get_bits(raw[0], 4, 2),
            tm: get_bits(raw[0], 6, 1),
            ds: get_bits(raw[0], 7, 1),
            day_units: get_bits(raw[1], 0, 4),
            day_tens: get_bits(raw[1], 4, 2),
            reserved: get_bits(raw[1], 6, 2),
            month_units: get_bits(raw[2], 0, 4),
            month_tens: get_bits(raw[2], 4, 1),
            week: get_bits(raw[2], 5, 3),
            year_units: get_bits(raw[3], 0, 4),
            year_tens: get_bits(raw[3], 4, 4),
        }
    }

    /// Writes the payload that holds the fields.
    pub fn write(&self) -> (r: RawPackData)
        requires
            self.wf(),
        ensures
            r == self.pack(),
    {
        [
            self.tz_hour_units + 16 * self.tz_hour_tens + 64 * self.tm + 128 * self.ds,
            self.day_units + 16 * self.day_tens + 64 * self.reserved,
            self.month_units + 16 * self.month_tens + 32 * self.week,
            self.year_units + 16 * self.year_tens,
        ]
    }
}

/// One two-digit number of a date, or the error that names it.
pub open spec fn date_number(field: BcdField, tens: u8, tens_width: nat, units: u8) -> Result<
    Option<u8>,
    DecodeError,
> {
    match bcd_tens(tens, tens_width, units) {
        Ok(n) => Ok(n),
        Err(e) => Err(DecodeError::Bcd { field, source: e }),
    }
}

/// The year that two digits stand for: 1975 to 1999 for 75 to 99, 2000 to
/// 2074 for 0 to 74.
pub open spec fn full_year(digits: u8) -> u16 {
    if digits < 75 {
        (digits + 2000) as u16
    } else {
        (digits + 1900) as u16
    }
}

/// The time zone of the given hours, and half an hour more where the half
/// hour flag is clear.
pub open spec fn zone_seconds(tz_hour: u8, tm: u8) -> int {
    tz_hour * 3600 + (if tm == 0 {
        1800int
    } else {
        0int
    })
}

/// The time zone that the fields stand for.
pub open spec fn timezone_of(f: RawRecordingDate) -> Result<Option<FixedOffset>, DecodeError> {
    match date_number(BcdField::DateTimezone, f.tz_hour_tens, 2, f.tz_hour_units) {
        Err(e) => Err(e),
        Ok(None) => Ok(None),
        Ok(Some(tz_hour)) => if is_valid_offset(zone_seconds(tz_hour, f.tm)) {
            Ok(Some(FixedOffset { local_minus_utc: zone_seconds(tz_hour, f.tm) as i32 }))
        } else {
            Err(DecodeError::TimezoneOutOfRange { tz_hour })
        },
    }
}

/// The date that year, month and day stand for: they are present or absent
/// together, and if present they name a day of the calendar.
pub open spec fn date_of(year: Option<u8>, month: Option<u8>, day: Option<u8>) -> Result<
    Option<Date>,
    DecodeError,
> {
    if year is None && month is None && day is None {
        Ok(None)
    } else if year is Some && month is Some && day is Some {
        let y = full_year(year->Some_0);
        let m = month->Some_0;
        let d = day->Some_0;
        if is_valid_ymd(y as int, m as int, d as int) {
            Ok(Some(Date { year: y as i32, month: m, day: d }))
        } else {
            Err(DecodeError::DateNotValid { year: y, month: m, day: d })
        }
    } else {
        Err(DecodeError::PartialDate)
    }
}

/// The recording date that the fields stand for.
///
/// Year, month, day and time zone hours are binary-coded decimal numbers; the
/// first of them with a digit above 9 is the error, then a time zone of a day
/// or more, then a date that is partial or names no day. The daylight saving
/// flag and the half hour flag of an absent time zone are let go.
pub open spec fn recording_date_of(f: RawRecordingDate) -> Result<RecordingDate, DecodeError> {
    let year = date_number(BcdField::DateYear, f.year_tens, 4, f.year_units);
    let month = date_number(BcdField::DateMonth, f.month_tens, 1, f.month_units);
    let day = date_number(BcdField::DateDay, f.day_tens, 2, f.day_units);
    let timezone = timezone_of(f);
    if year is Err {
        Err(year->Err_0)
    } else if month is Err {
        Err(month->Err_0)
    } else if day is Err {
        Err(day->Err_0)
    } else if timezone is Err {
        Err(timezone->Err_0)
    } else {
        match date_of(year->Ok_0, month->Ok_0, day->Ok_0) {
            Err(e) => Err(e),
            Ok(date) => Ok(
                RecordingDate {
                    date,
                    weekday: weekday_with_code(f.week),
                    timezone: timezone->Ok_0,
                    daylight_saving_time: match timezone->Ok_0 {
                        Some(_) => Some(DaylightSavingTime::with_code(f.ds)),
                        None => None,
                    },
                    reserved: f.reserved,
                },
            ),
        }
    }
}

/// The fields that stand for a recording date: an absent number has every
/// bit of its digits set, and beside an absent time zone the half hour flag
/// and the daylight saving flag are set.
pub open spec fn fields_of(v: RecordingDate) -> RawRecordingDate {
    let tz_hour = match v.timezone {
        Some(tz) => Some(tz.local_minus_utc / 3600),
        None => None,
    };
    RawRecordingDate {
        tz_hour_units: match tz_hour {
            Some(h) => (h % 10) as u8,
            None => 15u8,
        },
        tz_hour_tens: match tz_hour {
            Some(h) => (h / 10) as u8,
            None => 3u8,
        },
        tm: match v.timezone {
            Some(tz) => if tz.local_minus_utc % 3600 >= 1800 {
                0u8
            } else {
                1u8
            },
            None => 1u8,
        },
        ds: match v.daylight_saving_time {
            Some(d) => d.code(),
            None => 1u8,
        },
        day_units: match v.date {
            Some(d) => d.day % 10,
            None => 15u8,
        },
        day_tens: match v.date {
            Some(d) => d.day / 10,
            None => 3u8,
        },
        reserved: v.reserved,
        month_units: match v.date {
            Some(d) => d.month % 10,
            None => 15u8,
        },
        month_tens: match v.date {
            Some(d) => d.month / 10,
            None => 1u8,
        },
        week: weekday_code(v.weekday),
        year_units: match v.date {
            Some(d) => (d.year % 10) as u8,
            None => 15u8,
        },
        year_tens: match v.date {
            Some(d) => ((d.year / 10) % 10) as u8,
            None => 15u8,
        },
    }
}

/// A date is a day of the calendar in a year from 1975 to 2074, which two
/// digits can tell apart.
pub open spec fn date_check(date: Option<Date>) -> Result<(), Violation> {
    match date {
        None => Ok(()),
        Some(d) => if !d.is_valid() {
            Err(Violation::DateNotValid { date: d })
        } else if d.year < MIN_RECORDING_YEAR {
            Err(Violation::YearBeforeMinimum { year: d.year })
        } else if d.year > MAX_RECORDING_YEAR {
            Err(Violation::YearAfterMaximum { year: d.year })
        } else {
            Ok(())
        },
    }
}

/// A weekday comes with a date, and is the weekday on which the date falls.
pub open spec fn weekday_check(date: Option<Date>, weekday: Option<Weekday>) -> Result<
    (),
    Violation,
> {
    match weekday {
        None => Ok(()),
        Some(w) => match date {
            None => Err(Violation::WeekdayWithoutDate),
            Some(d) => if d.is_valid() && d.weekday() != w {
                Err(Violation::WeekdayMismatch { weekday: w, date: d, actual: d.weekday() })
            } else {
                Ok(())
            },
        },
    }
}

/// A time zone lies east of Greenwich by a multiple of 30 minutes and less
/// than a day.
pub open spec fn timezone_check(timezone: Option<FixedOffset>) -> Result<(), Violation> {
    match timezone {
        None => Ok(()),
        Some(tz) => {
            let offset = tz.local_minus_utc;
            if offset < 0 {
                Err(Violation::TimezoneNegative { offset })
            } else if offset % 1800 != 0 {
                Err(Violation::TimezoneNotHalfHour { offset })
            } else if offset >= 86_400 {
                Err(Violation::TimezoneTooLarge { offset })
            } else {
                Ok(())
            }
        },
    }
}

/// The daylight saving flag is present if and only if the time zone is.
pub open spec fn dst_check(
    timezone: Option<FixedOffset>,
    daylight_saving_time: Option<DaylightSavingTime>,
) -> Result<(), Violation> {
    if timezone is Some && daylight_saving_time is None {
        Err(Violation::DaylightSavingTimeMissing)
    } else if timezone is None && daylight_saving_time is Some {
        Err(Violation::DaylightSavingTimeUnexpected)
    } else {
        Ok(())
    }
}

/// Date packs hold a two-digit year, so only a narrow range of years is
/// allowed.
pub fn check_date(date: &Option<Date>) -> (r: Result<(), Violation>)
    ensures
        r == date_check(*date),
{
    match date {
        None => Ok(()),
        Some(d) => if !d.is_on_calendar() {
            Err(Violation::DateNotValid { date: *d })
        } else if d.year < MIN_RECORDING_YEAR {
            Err(Violation::YearBeforeMinimum { year: d.year })
        } else if d.year > MAX_RECORDING_YEAR {
            Err(Violation::YearAfterMaximum { year: d.year })
        } else {
            Ok(())
        },
    }
}

/// If a weekday is present, then a date must also be present, and the weekday
/// must match the date's weekday.
pub fn check_weekday(recording_date: &RecordingDate) -> (r: Result<(), Violation>)
    ensures
        r == weekday_check(recording_date.date, recording_date.weekday),
{
    match recording_date.weekday {
        None => Ok(()),
        Some(w) => match recording_date.date {
            None => Err(Violation::WeekdayWithoutDate),
            Some(d) => if d.is_on_calendar() {
                let actual = d.weekday();
                if actual != w {
                    Err(Violation::WeekdayMismatch { weekday: w, date: d, actual })
                } else {
                    Ok(())
                }
            } else {
                Ok(())
            },
        },
    }
}

/// Only certain time zone offsets are supported by the date pack: the offset
/// is positive, and a multiple of 30 minutes.
pub fn check_timezone(timezone: &Option<FixedOffset>) -> (r: Result<(), Violation>)
    ensures
        r == timezone_check(*timezone),
{
    match timezone {
        None => Ok(()),
        Some(tz) => {
            let offset = tz.local_minus_utc;
            if offset < 0 {
                Err(Violation::TimezoneNegative { offset })
            } else if offset % 1800 != 0 {
                Err(Violation::TimezoneNotHalfHour { offset })
            } else if offset >= 86_400 {
                Err(Violation::TimezoneTooLarge { offset })
            } else {
                Ok(())
            }
        },
    }
}

/// The daylight saving flag may be set if and only if the time zone is
/// present.
pub fn check_dst(recording_date: &RecordingDate) -> (r: Result<(), Violation>)
    ensures
        r == dst_check(recording_date.timezone, recording_date.daylight_saving_time),
{
    if recording_date.timezone.is_some() && recording_date.daylight_saving_time.is_none() {
        Err(Violation::DaylightSavingTimeMissing)
    } else if recording_date.timezone.is_none() && recording_date.daylight_saving_time.is_some() {
        Err(Violation::DaylightSavingTimeUnexpected)
    } else {
        Ok(())
    }
}

fn read_number(field: BcdField, tens: u8, tens_width: u8, units: u8) -> (r: Result<
    Option<u8>,
    DecodeError,
>)
    requires
        1 <= tens_width <= 4,
        tens < crate::pack::util::pow2(tens_width as nat),
        units < 16,
    ensures
        r == date_number(field, tens, tens_width as nat, units),
{
    match from_bcd_tens(tens, tens_width, units) {
        Ok(n) => Ok(n),
        Err(e) => Err(DecodeError::Bcd { field, source: e }),
    }
}

fn read_timezone(f: &RawRecordingDate) -> (r: Result<Option<FixedOffset>, DecodeError>)
    requires
        f.wf(),
    ensures
        r == timezone_of(*f),
{
    match read_number(BcdField::DateTimezone, f.tz_hour_tens, 2, f.tz_hour_units) {
        Err(e) => Err(e),
        Ok(None) => Ok(None),
        Ok(Some(tz_hour)) => {
            let half: i32 = if f.tm == 0 {
                1800
            } else {
                0
            };
            let seconds: i32 = (tz_hour as i32) * 3600 + half;
            if offset_exists(seconds) {
                Ok(Some(FixedOffset { local_minus_utc: seconds }))
            } else {
                Err(DecodeError::TimezoneOutOfRange { tz_hour })
            }
        },
    }
}

fn read_date(year: Option<u8>, month: Option<u8>, day: Option<u8>) -> (r: Result<
    Option<Date>,
    DecodeError,
>)
    requires
        year is Some ==> year->Some_0 <= 99,
    ensures
        r == date_of(year, month, day),
{
    match (year, month, day) {
        (None, None, None) => Ok(None),
        (Some(yy), Some(m), Some(d)) => {
            let y: u16 = if yy < 75 {
                yy as u16 + 2000
            } else {
                yy as u16 + 1900
            };
            match Date::from_ymd_opt(y as i32, m as u32, d as u32) {
                Some(date) => Ok(Some(date)),
                None => Err(DecodeError::DateNotValid { year: y, month: m, day: d }),
            }
        },
        _ => Err(DecodeError::PartialDate),
    }
}

fn read_weekday(code: u8) -> (r: Option<Weekday>)
    ensures
        r == weekday_with_code(code),
{
    if code == 0 {
        Some(Weekday::Sun)
    } else if code == 1 {
        Some(Weekday::Mon)
    } else if code == 2 {
        Some(Weekday::Tue)
    } else if code == 3 {
        Some(Weekday::Wed)
    } else if code == 4 {
        Some(Weekday::Thu)
    } else if code == 5 {
        Some(Weekday::Fri)
    } else if code == 6 {
        Some(Weekday::Sat)
    } else {
        None
    }
}

fn write_weekday(weekday: Option<Weekday>) -> (r: u8)
    ensures
        r == weekday_code(weekday),
        r < 8,
{
    match weekday {
        Some(Weekday::Sun) => 0,
        Some(Weekday::Mon) => 1,
        Some(Weekday::Tue) => 2,
        Some(Weekday::Wed) => 3,
        Some(Weekday::Thu) => 4,
        Some(Weekday::Fri) => 5,
        Some(Weekday::Sat) => 6,
        None => 7,
    }
}

/// Reads the recording date that the fields stand for.
pub fn recording_date_from_fields(f: &RawRecordingDate) -> (r: Result<RecordingDate, DecodeError>)
    requires
        f.wf(),
    ensures
        r == recording_date_of(*f),
{
    let year = match read_number(BcdField::DateYear, f.year_tens, 4, f.year_units) {
        Ok(n) => n,
        Err(e) => {
            return Err(e);
        },
    };
    let month = match read_number(BcdField::DateMonth, f.month_tens, 1, f.month_units) {
        Ok(n) => n,
        Err(e) => {
            return Err(e);
        },
    };
    let day = match read_number(BcdField::DateDay, f.day_tens, 2, f.day_units) {
        Ok(n) => n,
        Err(e) => {
            return Err(e);
        },
    };
    let timezone = match read_timezone(f) {
        Ok(tz) => tz,
        Err(e) => {
            return Err(e);
        },
    };
    let date = match read_date(year, month, day) {
        Ok(d) => d,
        Err(e) => {
            return Err(e);
        },
    };
    Ok(
        RecordingDate {
            date,
            weekday: read_weekday(f.week),
            timezone,
            daylight_saving_time: match timezone {
                Some(_) => Some(DaylightSavingTime::from_bits(f.ds)),
                None => None,
            },
            reserved: f.reserved,
        },
    )
}

impl RecordingDate {
    /// What the rules of the single fields say of a value without violations.
    pub proof fn lemma_valid(self, ctx: PackContext)
        requires
            self.violations(ctx).len() == 0,
        ensures
            date_check(self.date) is Ok,
            dst_check(self.timezone, self.daylight_saving_time) is Ok,
            self.reserved <= 3,
            timezone_check(self.timezone) is Ok,
            weekday_check(self.date, self.weekday) is Ok,
    {
        assert(entry(Field::Date, date_check(self.date)).len() == 0);
        assert(entry(
            Field::DaylightSavingTime,
            dst_check(self.timezone, self.daylight_saving_time),
        ).len() == 0);
        assert(entry(Field::Reserved, fits_check(self.reserved, 3)).len() == 0);
        assert(entry(Field::Timezone, timezone_check(self.timezone)).len() == 0);
        assert(entry(Field::Weekday, weekday_check(self.date, self.weekday)).len() == 0);
    }

    /// Writes the fields that stand for a valid recording date.
    pub fn to_fields(&self, ctx: &PackContext) -> (r: RawRecordingDate)
        requires
            self.violations(*ctx).len() == 0,
        ensures
            r == fields_of(*self),
            r.wf(),
    {
        proof {
            self.lemma_valid(*ctx);
        }
        let (tz_hour_units, tz_hour_tens, tm): (u8, u8, u8) = match self.timezone {
            Some(tz) => {
                let hours: i32 = tz.local_minus_utc / 3600;
                let tm: u8 = if tz.local_minus_utc % 3600 >= 1800 {
                    0
                } else {
                    1
                };
                ((hours % 10) as u8, (hours / 10) as u8, tm)
            },
            None => (15, 3, 1),
        };
        let (day_units, day_tens, month_units, month_tens, year_units, year_tens): (
            u8,
            u8,
            u8,
            u8,
            u8,
            u8,
        ) = match self.date {
            Some(d) => (
                d.day % 10,
                d.day / 10,
                d.month % 10,
                d.month / 10,
                (d.year % 10) as u8,
                ((d.year / 10) % 10) as u8,
            ),
            None => (15, 3, 15, 1, 15, 15),
        };
        RawRecordingDate {
            tz_hour_units,
            tz_hour_tens,
            tm,
            ds: match self.daylight_saving_time {
                Some(d) => d.to_bits(),
                None => 1,
            },
            day_units,
            day_tens,
            reserved: self.reserved,
            month_units,
            month_tens,
            week: write_weekday(self.weekday),
            year_units,
            year_tens,
        }
    }

    /// The fields of a valid recording date fit into their bits.
    pub proof fn lemma_fields_wf(self, ctx: PackContext)
        requires
            self.violations(ctx).len() == 0,
        ensures
            fields_of(self).wf(),
    {
        self.lemma_valid(ctx);
        if self.daylight_saving_time is Some {
            self.daylight_saving_time->Some_0.lemma_codes(0);
        }
    }

    /// The date is read back from the fields of a valid recording date.
    proof fn lemma_read_date(self, ctx: PackContext)
        requires
            self.violations(ctx).len() == 0,
        ensures
            ({
                let f = fields_of(self);
                let year = date_number(BcdField::DateYear, f.year_tens, 4, f.year_units);
                let month = date_number(BcdField::DateMonth, f.month_tens, 1, f.month_units);
                let day = date_number(BcdField::DateDay, f.day_tens, 2, f.day_units);
                &&& year is Ok
                &&& month is Ok
                &&& day is Ok
                &&& date_of(year->Ok_0, month->Ok_0, day->Ok_0) == Ok::<
                    Option<Date>,
                    DecodeError,
                >(self.date)
            }),
    {
        self.lemma_valid(ctx);
    }

    /// The time zone is read back from the fields of a valid recording date.
    proof fn lemma_read_timezone(self, ctx: PackContext)
        requires
            self.violations(ctx).len() == 0,
        ensures
            timezone_of(fields_of(self)) == Ok::<Option<FixedOffset>, DecodeError>(self.timezone),
    {
        self.lemma_valid(ctx);
    }

    /// A valid recording date is read back from its fields.
    pub proof fn lemma_of_fields(self, ctx: PackContext)
        requires
            self.violations(ctx).len() == 0,
        ensures
            fields_of(self).wf(),
            recording_date_of(fields_of(self)) == Ok::<RecordingDate, DecodeError>(self),
    {
        self.lemma_valid(ctx);
        self.lemma_fields_wf(ctx);
        self.lemma_read_date(ctx);
        self.lemma_read_timezone(ctx);
        if self.daylight_saving_time is Some {
            self.daylight_saving_time->Some_0.lemma_codes(0);
        }
        assert(weekday_with_code(weekday_code(self.weekday)) == self.weekday);
    }

    /// The date digits of a recording date that was read are those it was
    /// read from.
    proof fn lemma_write_date(f: RawRecordingDate)
        requires
            f.wf(),
            recording_date_of(f) is Ok,
        ensures
            ({
                let g = fields_of(recording_date_of(f)->Ok_0);
                &&& g.year_units == f.year_units
                &&& g.year_tens == f.year_tens
                &&& g.month_units == f.month_units
                &&& g.month_tens == f.month_tens
                &&& g.day_units == f.day_units
                &&& g.day_tens == f.day_tens
            }),
    {
    }

    /// The time zone digits of a recording date that was read are those it
    /// was read from, and so are the flags beside a time zone.
    proof fn lemma_write_timezone(f: RawRecordingDate)
        requires
            f.wf(),
            recording_date_of(f) is Ok,
        ensures
            ({
                let v = recording_date_of(f)->Ok_0;
                let g = fields_of(v);
                &&& g.tz_hour_units == f.tz_hour_units
                &&& g.tz_hour_tens == f.tz_hour_tens
                &&& v.timezone is Some ==> g.tm == f.tm && g.ds == f.ds
                &&& v.timezone is None ==> g.tm == 1 && g.ds == 1
                &&& v.timezone is None <==> f.tz_hour_tens == 3 && f.tz_hour_units == 15
            }),
    {
        let v = recording_date_of(f)->Ok_0;
        if v.daylight_saving_time is Some {
            v.daylight_saving_time->Some_0.lemma_codes(f.ds);
        }
    }
}

/// The payload of a recording date that reading and writing again gives: the
/// half hour flag and the daylight saving flag are set where the time zone is
/// absent.
pub open spec fn canonical_date(raw: RawPackData) -> RawPackData {
    if bits(raw[0], 4, 2) == 3 && bits(raw[0], 0, 4) == 15 {
        [with_bits(with_bits(raw[0], 6, 1, 1), 7, 1, 1), raw[1], raw[2], raw[3]]
    } else {
        raw
    }
}

impl PackData for RecordingDate {
    open spec fn decode(raw: RawPackData, ctx: PackContext) -> Result<Self, DecodeError> {
        recording_date_of(RawRecordingDate::unpack(raw))
    }

    open spec fn violations(&self, ctx: PackContext) -> Seq<FieldError> {
        entry(Field::Date, date_check(self.date)) + entry(
            Field::DaylightSavingTime,
            dst_check(self.timezone, self.daylight_saving_time),
        ) + entry(Field::Reserved, fits_check(self.reserved, 3)) + entry(
            Field::Timezone,
            timezone_check(self.timezone),
        ) + entry(Field::Weekday, weekday_check(self.date, self.weekday))
    }

    open spec fn encode(&self, ctx: PackContext) -> RawPackData {
        fields_of(*self).pack()
    }

    open spec fn canonical(raw: RawPackData, ctx: PackContext) -> RawPackData {
        canonical_date(raw)
    }

    fn try_from_raw(raw: &RawPackData, ctx: &PackContext) -> (r: Result<Self, DecodeError>) {
        let fields = RawRecordingDate::read(raw);
        recording_date_from_fields(&fields)
    }

    fn validate_with(&self, ctx: &PackContext) -> (r: Result<(), Report>) {
        let mut report = Report::new();
        report.record(Field::Date, check_date(&self.date));
        report.record(Field::DaylightSavingTime, check_dst(self));
        report.record(Field::Reserved, check_fits(self.reserved, 3));
        report.record(Field::Timezone, check_timezone(&self.timezone));
        report.record(Field::Weekday, check_weekday(self));
        report.into_result()
    }

    fn write(&self, ctx: &PackContext) -> (r: RawPackData) {
        self.to_fields(ctx).write()
    }

    proof fn lemma_decode_encode(self, ctx: PackContext) {
        self.lemma_of_fields(ctx);
        fields_of(self).lemma_unpack_pack();
    }

    proof fn lemma_encode_decode(raw: RawPackData, ctx: PackContext) {
        let f = RawRecordingDate::unpack(raw);
        RawRecordingDate::lemma_pack_unpack(raw);
        let v = recording_date_of(f)->Ok_0;
        Self::lemma_write_date(f);
        Self::lemma_write_timezone(f);
        let g = fields_of(v);
        assert(g.week == f.week);
        assert(g.reserved == f.reserved);
        assert(g.pc2() == raw[1]);
        assert(g.pc3() == raw[2]);
        assert(g.pc4() == raw[3]);
        lemma_byte_4_2_1_1(raw[0]);
        assert(g.pc1() == canonical_date(raw)[0]);
    }
}

} // verus!
