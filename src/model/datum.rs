//! Calendar dates: the effective-date stamp ("Gebietsstand") of a record.
use vstd::prelude::*;

use crate::error::Error;
use crate::field::{not_a_number, part, part_of, parse_number, FromField};
use crate::text::numeral_up_to;

verus! {

/// Declares chrono's date type so that its constructor can be specified.
#[verifier::external_type_specification]
#[verifier::external_body]
pub struct ExNaiveDate(chrono::NaiveDate);

pub open spec fn is_leap_year(year: int) -> bool {
    year % 4 == 0 && (year % 100 != 0 || year % 400 == 0)
}

pub open spec fn days_in_month(year: int, month: int) -> int {
    if month == 2 {
        if is_leap_year(year) {
            29
        } else {
            28
        }
    } else if month == 4 || month == 6 || month == 9 || month == 11 {
        30
    } else {
        31
    }
}

/// `year-month-day` is a day of the (proleptic) Gregorian calendar.
pub open spec fn is_calendar_date(year: int, month: int, day: int) -> bool {
    1 <= month <= 12 && 1 <= day <= days_in_month(year, month)
}

/// Relies on chrono's `NaiveDate::from_ymd_opt`: for years of four digits it
/// gives a date exactly when the day exists in the Gregorian calendar.
pub assume_specification[ chrono::NaiveDate::from_ymd_opt ](year: i32, month: u32, day: u32) -> (r:
    Option<chrono::NaiveDate>)
    ensures
        0 <= year <= 9999 ==> (r is Some <==> is_calendar_date(year as int, month as int, day as int)),
;

/// A calendar day, as year, month (1 to 12) and day of the month.
#[derive(Copy, Clone, Debug, PartialEq, Eq, Structural, PartialOrd, Ord, Hash)]
pub struct Datum {
    pub year: i32,
    pub month: u32,
    pub day: u32,
}

impl Datum {
    /// The date holds a day of the calendar.
    pub open spec fn valid(&self) -> bool {
        is_calendar_date(self.year as int, self.month as int, self.day as int)
    }

    /// The date `year-month-day`, if that day exists (years of four digits).
    pub fn from_ymd_opt(year: i32, month: u32, day: u32) -> (r: Option<Datum>)
        requires
            0 <= year <= 9999,
        ensures
            r is Some <==> is_calendar_date(year as int, month as int, day as int),
            r matches Some(d) ==> d.year == year && d.month == month && d.day == day && d.valid(),
    {
        match chrono::NaiveDate::from_ymd_opt(year, month, day) {
            Some(_) => Some(Datum { year, month, day }),
            None => None,
        }
    }
}

impl Datum {
    /// The year digits of a date field `YYYYMMDD`.
    pub open spec fn year_part(f: Seq<char>) -> Seq<char> {
        part(f, 0, 4)
    }

    /// The month digits of a date field `YYYYMMDD`.
    pub open spec fn month_part(f: Seq<char>) -> Seq<char> {
        part(f, 4, 6)
    }

    /// The day digits of a date field `YYYYMMDD`.
    pub open spec fn day_part(f: Seq<char>) -> Seq<char> {
        part(f, 6, 8)
    }

    /// The three parts of the date field `f` are numbers.
    pub open spec fn numeric(f: Seq<char>) -> bool {
        &&& numeral_up_to(Self::year_part(f), 9999) is Some
        &&& numeral_up_to(Self::month_part(f), 99) is Some
        &&& numeral_up_to(Self::day_part(f), 99) is Some
    }

    pub open spec fn year_of(f: Seq<char>) -> int {
        numeral_up_to(Self::year_part(f), 9999)->0 as int
    }

    pub open spec fn month_of(f: Seq<char>) -> int {
        numeral_up_to(Self::month_part(f), 99)->0 as int
    }

    pub open spec fn day_of(f: Seq<char>) -> int {
        numeral_up_to(Self::day_part(f), 99)->0 as int
    }
}

impl FromField for Datum {
    open spec fn decodable(f: Seq<char>) -> bool {
        Self::numeric(f) && is_calendar_date(Self::year_of(f), Self::month_of(f), Self::day_of(f))
    }

    open spec fn decodes(f: Seq<char>, v: Datum) -> bool {
        v.year == Self::year_of(f) && v.month == Self::month_of(f) && v.day == Self::day_of(f)
    }

    open spec fn rejects(f: Seq<char>, e: Error) -> bool {
        if numeral_up_to(Self::year_part(f), 9999) is None {
            not_a_number(Self::year_part(f), e)
        } else if numeral_up_to(Self::month_part(f), 99) is None {
            not_a_number(Self::month_part(f), e)
        } else if numeral_up_to(Self::day_part(f), 99) is None {
            not_a_number(Self::day_part(f), e)
        } else {
            e matches Error::InvalidDate(t) && t@ == f
        }
    }

    fn from_field(s: &str) -> (r: Result<Datum, Error>) {
        let year = match parse_number(part_of(s, 0, 4), 9999) {
            Ok(v) => v as i32,
            Err(e) => return Err(e),
        };
        let month = match parse_number(part_of(s, 4, 6), 99) {
            Ok(v) => v as u32,
            Err(e) => return Err(e),
        };
        let day = match parse_number(part_of(s, 6, 8), 99) {
            Ok(v) => v as u32,
            Err(e) => return Err(e),
        };
        match Datum::from_ymd_opt(year, month, day) {
            Some(d) => Ok(d),
            None => Err(Error::InvalidDate(s.to_owned())),
        }
    }
}

} // verus!
