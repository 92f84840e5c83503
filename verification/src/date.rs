use chrono::Datelike;
use chrono::NaiveDate;
use vstd::prelude::*;

use crate::error::LedgerError;

verus! {

/// First year of the calendar: the earliest that `chrono` dates reach.
pub const MIN_YEAR: i32 = -262143;

/// Last year of the calendar: the latest that `chrono` dates reach.
pub const MAX_YEAR: i32 = 262142;

/// Leap years of the proleptic Gregorian calendar, year 0 included.
pub open spec fn is_leap_year(year: int) -> bool {
    year % 4 == 0 && (year % 100 != 0 || year % 400 == 0)
}

/// Number of days of `month` in `year`, for `month` between 1 and 12.
pub open spec fn days_in_month(year: int, month: int) -> int {
    if month == 2 {
        if is_leap_year(year) {
            29
        } else {
            28
        }
    } else if month == 4 || month == 6 || month == 9 || month == 11 {
        30
    } else {
        31
    }
}

/// The triples that name a day of the proleptic Gregorian calendar in a year
/// from `MIN_YEAR` to `MAX_YEAR`.
pub open spec fn is_calendar_date(year: int, month: int, day: int) -> bool {
    &&& MIN_YEAR <= year <= MAX_YEAR
    &&& 1 <= month <= 12
    &&& 1 <= day <= days_in_month(year, month)
}

/// Mathematical model of a [`Date`].
pub struct DateView {
    pub year: int,
    pub month: int,
    pub day: int,
}

/// A calendar day without time of day or time zone.
///
/// Every value is a day that exists: see [`is_calendar_date`].
#[derive(Clone, Copy, Debug, PartialEq, Eq, Structural)]
pub struct Date {
    year: i32,
    month: u32,
    day: u32,
}

/// What `chrono` reads out of a text in the form `%Y-%m-%d`: the year, month
/// and day of the date it found, or `None` where it reports a parse error.
pub uninterp spec fn parsed_iso_date(text: Seq<char>) -> Option<(i32, u32, u32)>;

/// Trusted: `chrono::NaiveDate::from_ymd_opt` returns a date exactly for the
/// triples that name an existing day of the proleptic Gregorian calendar with
/// a year between `MIN_YEAR` and `MAX_YEAR`.
#[verifier::external_body]
fn calendar_has_day(year: i32, month: u32, day: u32) -> (known: bool)
    ensures
        known == is_calendar_date(year as int, month as int, day as int),
{
    NaiveDate::from_ymd_opt(year, month, day).is_some()
}

/// Trusted: `chrono::NaiveDate::parse_from_str` with the format `%Y-%m-%d`
/// depends on the text alone; its outcome is handed on as year, month and
/// day, which `parsed_iso_date` names.
#[verifier::external_body]
fn parse_iso_date(text: &str) -> (fields: Option<(i32, u32, u32)>)
    ensures
        fields == parsed_iso_date(text@),
{
    match NaiveDate::parse_from_str(text, "%Y-%m-%d") {
        Ok(date) => Some((date.year(), date.month(), date.day())),
        Err(_) => None,
    }
}

impl View for Date {
    type V = DateView;

    closed spec fn view(&self) -> DateView {
        DateView { year: self.year as int, month: self.month as int, day: self.day as int }
    }
}

impl Date {
    #[verifier::type_invariant]
    spec fn exists_in_calendar(self) -> bool {
        is_calendar_date(self.year as int, self.month as int, self.day as int)
    }

    /// The day `year`-`month`-`day`, if the calendar has it.
    pub fn from_ymd(year: i32, month: u32, day: u32) -> (made: Option<Date>)
        ensures
            is_calendar_date(year as int, month as int, day as int) ==> (made matches Some(date)
                && date@ == (DateView { year: year as int, month: month as int, day: day as int })),
            !is_calendar_date(year as int, month as int, day as int) ==> made is None,
    {
        if calendar_has_day(year, month, day) {
            Some(Date { year, month, day })
        } else {
            None
        }
    }

    /// Reads a date written as `YYYY-MM-DD`, as `chrono` reads the format
    /// `%Y-%m-%d`.
    ///
    /// Fails with `InvalidArgument` where `chrono` finds no date in the text,
    /// or one that the calendar does not have.
    pub fn parse(text: &str) -> (read: Result<Date, LedgerError>)
        ensures
            match parsed_iso_date(text@) {
                Some((year, month, day)) => if is_calendar_date(
                    year as int,
                    month as int,
                    day as int,
                ) {
                    read matches Ok(date) && date@ == (DateView {
                        year: year as int,
                        month: month as int,
                        day: day as int,
                    })
                } else {
                    read == Err::<Date, LedgerError>(LedgerError::InvalidArgument)
                },
                None => read == Err::<Date, LedgerError>(LedgerError::InvalidArgument),
            },
    {
        match parse_iso_date(text) {
            Some((year, month, day)) => match Date::from_ymd(year, month, day) {
                Some(date) => Ok(date),
                None => Err(LedgerError::InvalidArgument),
            },
            None => Err(LedgerError::InvalidArgument),
        }
    }

    /// Year of the calendar; year 0 comes before year 1.
    pub fn year(&self) -> (year: i32)
        ensures
            year == self@.year,
            MIN_YEAR <= year <= MAX_YEAR,
    {
        proof {
            use_type_invariant(self);
        }
        self.year
    }

    /// Month of the year, from 1 for January to 12 for December.
    pub fn month(&self) -> (month: u32)
        ensures
            month == self@.month,
            1 <= month <= 12,
    {
        proof {
            use_type_invariant(self);
        }
        self.month
    }

    /// Day of the month, from 1.
    pub fn day(&self) -> (day: u32)
        ensures
            day == self@.day,
            1 <= day <= days_in_month(self@.year, self@.month),
    {
        proof {
            use_type_invariant(self);
        }
        self.day
    }
}

/// Two dates are equal exactly when their models are.
pub proof fn lemma_date_view_injective(a: Date, b: Date)
    ensures
        (a@ == b@) == (a == b),
{
}

} // verus!
