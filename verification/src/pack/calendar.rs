//! Calendar dates and weekdays of the proleptic Gregorian calendar.
use vstd::prelude::*;

use crate::text::four_digits;
use crate::text::push_four_digits;
use crate::text::push_text;
use crate::text::push_two_digits;
use crate::text::two_digits;

verus! {

/// A day of the week.
#[derive(Debug, PartialEq, Eq, Clone, Copy, Hash, Structural)]
pub enum Weekday {
    Mon,
    Tue,
    Wed,
    Thu,
    Fri,
    Sat,
    Sun,
}

/// A calendar date, as year, month and day. The fields hold what they are
/// given; [`Date::is_valid`] says whether such a day exists.
#[derive(Debug, PartialEq, Eq, Clone, Copy, Hash, Structural)]
pub struct Date {
    pub year: i32,
    pub month: u8,
    pub day: u8,
}

/// First year that a date can have.
pub const MIN_YEAR: i32 = -262_143;

/// Last year that a date can have.
pub const MAX_YEAR: i32 = 262_142;

/// Whether the year has a 29th of February.
pub open spec fn is_leap_year(year: int) -> bool {
    year % 4 == 0 && (year % 100 != 0 || year % 400 == 0)
}

/// Number of days of the month, for months 1 to 12.
pub open spec fn days_in_month(year: int, month: int) -> int {
    if month == 2 {
        if is_leap_year(year) {
            29
        } else {
            28
        }
    } else if month == 4 || month == 6 || month == 9 || month == 11 {
        30
    } else {
        31
    }
}

/// Whether the day exists, in a year that a date can have.
pub open spec fn is_valid_ymd(year: int, month: int, day: int) -> bool {
    &&& MIN_YEAR <= year <= MAX_YEAR
    &&& 1 <= month <= 12
    &&& 1 <= day <= days_in_month(year, month)
}

/// Days from the first of March of the year 0 to the given day.
pub open spec fn days_from_march_of_year_zero(year: int, month: int, day: int) -> int {
    let y = if month <= 2 {
        year - 1
    } else {
        year
    };
    let m = if month <= 2 {
        month + 9
    } else {
        month - 3
    };
    365 * y + y / 4 - y / 100 + y / 400 + (153 * m + 2) / 5 + day - 1
}

/// The weekday of a day that exists, counted from Monday as 0 to Sunday as 6.
/// The first of March of the year 0 was a Wednesday.
pub open spec fn weekday_number(year: int, month: int, day: int) -> int {
    (days_from_march_of_year_zero(year, month, day) + 2) % 7
}

impl Weekday {
    /// The name of the weekday, in three letters.
    pub open spec fn name_text(&self) -> Seq<char> {
        match *self {
            Weekday::Mon => "Mon"@,
            Weekday::Tue => "Tue"@,
            Weekday::Wed => "Wed"@,
            Weekday::Thu => "Thu"@,
            Weekday::Fri => "Fri"@,
            Weekday::Sat => "Sat"@,
            Weekday::Sun => "Sun"@,
        }
    }

    /// The name of the weekday, in three letters.
    pub fn name(&self) -> (r: &'static str)
        ensures
            r@ == self.name_text(),
    {
        match *self {
            Weekday::Mon => "Mon",
            Weekday::Tue => "Tue",
            Weekday::Wed => "Wed",
            Weekday::Thu => "Thu",
            Weekday::Fri => "Fri",
            Weekday::Sat => "Sat",
            Weekday::Sun => "Sun",
        }
    }

    /// Days from Monday: 0 for Monday up to 6 for Sunday.
    pub open spec fn number(self) -> int {
        match self {
            Weekday::Mon => 0,
            Weekday::Tue => 1,
            Weekday::Wed => 2,
            Weekday::Thu => 3,
            Weekday::Fri => 4,
            Weekday::Sat => 5,
            Weekday::Sun => 6,
        }
    }
}

/// `chrono::NaiveDate::from_ymd_opt`, asked only whether it gives a date: it
/// does for the days that exist in the proleptic Gregorian calendar, in the
/// years from [`MIN_YEAR`] to [`MAX_YEAR`].
#[verifier::external_body]
fn chrono_has_date(year: i32, month: u32, day: u32) -> (r: bool)
    ensures
        r == is_valid_ymd(year as int, month as int, day as int),
{
    chrono::NaiveDate::from_ymd_opt(year, month, day).is_some()
}

/// `chrono::NaiveDate::weekday` (of `chrono::Datelike`), on the date that
/// `chrono::NaiveDate::from_ymd_opt` gives: the day of the week on which the
/// date falls.
#[verifier::external_body]
fn chrono_weekday(year: i32, month: u32, day: u32) -> (r: Weekday)
    requires
        is_valid_ymd(year as int, month as int, day as int),
    ensures
        r.number() == weekday_number(year as int, month as int, day as int),
{
    let date = chrono::NaiveDate::from_ymd_opt(year, month, day).unwrap();
    match chrono::Datelike::weekday(&date) {
        chrono::Weekday::Mon => Weekday::Mon,
        chrono::Weekday::Tue => Weekday::Tue,
        chrono::Weekday::Wed => Weekday::Wed,
        chrono::Weekday::Thu => Weekday::Thu,
        chrono::Weekday::Fri => Weekday::Fri,
        chrono::Weekday::Sat => Weekday::Sat,
        chrono::Weekday::Sun => Weekday::Sun,
    }
}

/// `chrono::FixedOffset::east_opt`, asked only whether it gives an offset: it
/// does for less than a day either way.
#[verifier::external_body]
fn chrono_has_offset(seconds: i32) -> (r: bool)
    ensures
        r == (-86_400 < seconds < 86_400),
{
    chrono::FixedOffset::east_opt(seconds).is_some()
}

/// A time zone, as the seconds that its clocks are ahead of Greenwich.
#[derive(Debug, PartialEq, Eq, Clone, Copy, Hash, Structural)]
pub struct FixedOffset {
    /// Seconds to add to the time of Greenwich to get the local time.
    pub local_minus_utc: i32,
}

impl FixedOffset {
    /// The time zone that many seconds east of Greenwich (west, where the
    /// number is negative), if it is less than a day away.
    pub fn east_opt(seconds: i32) -> (r: Option<FixedOffset>)
        ensures
            r == if is_valid_offset(seconds as int) {
                Some(FixedOffset { local_minus_utc: seconds })
            } else {
                None
            },
    {
        if chrono_has_offset(seconds) {
            Some(FixedOffset { local_minus_utc: seconds })
        } else {
            None
        }
    }

    /// The time zone that many seconds west of Greenwich (east, where the
    /// number is negative), if it is less than a day away.
    pub fn west_opt(seconds: i32) -> (r: Option<FixedOffset>)
        ensures
            r == if is_valid_offset(seconds as int) {
                Some(FixedOffset { local_minus_utc: (-seconds) as i32 })
            } else {
                None
            },
    {
        if chrono_has_offset(seconds) {
            Some(FixedOffset { local_minus_utc: -seconds })
        } else {
            None
        }
    }
}

/// Whether a time zone of that many seconds east of Greenwich exists.
pub open spec fn is_valid_offset(seconds: int) -> bool {
    -86_400 < seconds < 86_400
}

/// Decides [`is_valid_offset`].
pub fn offset_exists(seconds: i32) -> (r: bool)
    ensures
        r == is_valid_offset(seconds as int),
{
    chrono_has_offset(seconds)
}

impl Date {
    /// The date as text: year, month and day with hyphens between them, the
    /// year in at least four digits, month and day in two.
    pub open spec fn text(&self) -> Seq<char> {
        Seq::<char>::empty() + (if self.year < 0 {
            "-"@ + four_digits((-self.year) as nat)
        } else {
            four_digits(self.year as nat)
        }) + "-"@ + two_digits(self.month as nat) + "-"@ + two_digits(self.day as nat)
    }

    /// The date as text: see [`Date::text`].
    pub fn message(&self) -> (r: String)
        ensures
            r@ == self.text(),
    {
        let mut s = String::new();
        if self.year < 0 {
            let mut year = String::new();
            push_text(&mut year, "-");
            push_four_digits(&mut year, (-(self.year as i64)) as u128);
            assert(year@ =~= "-"@ + four_digits((-self.year) as nat));
            push_text(&mut s, year.as_str());
        } else {
            push_four_digits(&mut s, self.year as u128);
        }
        push_text(&mut s, "-");
        push_two_digits(&mut s, self.month as u128);
        push_text(&mut s, "-");
        push_two_digits(&mut s, self.day as u128);
        s
    }

    /// Whether the day exists.
    pub open spec fn is_valid(self) -> bool {
        is_valid_ymd(self.year as int, self.month as int, self.day as int)
    }

    /// The weekday on which a day that exists falls.
    pub open spec fn weekday_spec(&self) -> Weekday {
        let n = weekday_number(self.year as int, self.month as int, self.day as int);
        if n == 0 {
            Weekday::Mon
        } else if n == 1 {
            Weekday::Tue
        } else if n == 2 {
            Weekday::Wed
        } else if n == 3 {
            Weekday::Thu
        } else if n == 4 {
            Weekday::Fri
        } else if n == 5 {
            Weekday::Sat
        } else {
            Weekday::Sun
        }
    }

    /// The date of the given year, month and day, if that day exists.
    pub fn from_ymd_opt(year: i32, month: u32, day: u32) -> (r: Option<Date>)
        ensures
            r is Some <==> is_valid_ymd(year as int, month as int, day as int),
            r is Some ==> r->Some_0 == (Date { year, month: month as u8, day: day as u8 }),
    {
        if chrono_has_date(year, month, day) {
            Some(Date { year, month: month as u8, day: day as u8 })
        } else {
            None
        }
    }

    /// Decides [`Date::is_valid`].
    pub fn is_on_calendar(&self) -> (r: bool)
        ensures
            r == self.is_valid(),
    {
        chrono_has_date(self.year, self.month as u32, self.day as u32)
    }

    /// The weekday on which the date falls.
    #[verifier::when_used_as_spec(weekday_spec)]
    pub fn weekday(&self) -> (r: Weekday)
        requires
            self.is_valid(),
        ensures
            r == self.weekday_spec(),
    {
        chrono_weekday(self.year, self.month as u32, self.day as u32)
    }
}

} // verus!
