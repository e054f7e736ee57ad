//! Months of the Gregorian calendar.

use vstd::prelude::*;

verus! {

/// Errors in calendar values.
#[derive(Debug, PartialEq, Eq, Structural, Clone, Copy)]
pub enum DateTimeError {
    /// A month number outside `1..=12`.
    InvalidMonth(u8),
    /// A day outside the month.
    InvalidDay(u8),
    /// A year outside `-9999..=9999`.
    InvalidYear(i32),
}

/// A month of the year.
#[derive(Debug, Clone, Copy, PartialEq, Eq, Structural)]
pub enum Month {
    January,
    February,
    March,
    April,
    May,
    June,
    July,
    August,
    September,
    October,
    November,
    December,
}

/// Whether a year is a Gregorian leap year.
pub open spec fn is_leap(year: int) -> bool {
    let a = if year < 0 {
        -year
    } else {
        year
    };
    (a % 4 == 0 && a % 100 != 0) || a % 400 == 0
}

/// The number `1..=12` of a month.
pub open spec fn month_number(m: Month) -> u8 {
    match m {
        Month::January => 1,
        Month::February => 2,
        Month::March => 3,
        Month::April => 4,
        Month::May => 5,
        Month::June => 6,
        Month::July => 7,
        Month::August => 8,
        Month::September => 9,
        Month::October => 10,
        Month::November => 11,
        Month::December => 12,
    }
}

/// The month with a given number; December for anything above eleven.
pub open spec fn month_of(value: u8) -> Month {
    if value == 1 {
        Month::January
    } else if value == 2 {
        Month::February
    } else if value == 3 {
        Month::March
    } else if value == 4 {
        Month::April
    } else if value == 5 {
        Month::May
    } else if value == 6 {
        Month::June
    } else if value == 7 {
        Month::July
    } else if value == 8 {
        Month::August
    } else if value == 9 {
        Month::September
    } else if value == 10 {
        Month::October
    } else if value == 11 {
        Month::November
    } else {
        Month::December
    }
}

/// Length in days of a month in a given year.
pub open spec fn month_length(m: Month, year: int) -> u8 {
    match m {
        Month::April | Month::June | Month::September | Month::November => 30,
        Month::February => if is_leap(year) {
            29
        } else {
            28
        },
        _ => 31,
    }
}

/// Whether a year is a Gregorian leap year.
pub fn is_leap_year(year: i32) -> (leap: bool)
    ensures
        leap == is_leap(year as int),
{
    let a: u32 = if year < 0 {
        (0 - year as i64) as u32
    } else {
        year as u32
    };
    (a % 4 == 0 && a % 100 != 0) || a % 400 == 0
}

impl Month {
    /// Number of days of the month in `year`.
    pub fn days_in_month(self, year: u16) -> (days: u8)
        ensures
            days == month_length(self, year as int),
            28 <= days <= 31,
    {
        match self {
            Month::January | Month::March | Month::May | Month::July | Month::August
            | Month::October | Month::December => 31,
            Month::April | Month::June | Month::September | Month::November => 30,
            Month::February => {
                if is_leap_year(year as i32) {
                    29
                } else {
                    28
                }
            },
        }
    }

    /// The month with number `value`, without validation: any value outside
    /// `1..=11` gives December.
    pub fn from_u8_unchecked(value: u8) -> (m: Month)
        ensures
            m == month_of(value),
    {
        match value {
            1 => Month::January,
            2 => Month::February,
            3 => Month::March,
            4 => Month::April,
            5 => Month::May,
            6 => Month::June,
            7 => Month::July,
            8 => Month::August,
            9 => Month::September,
            10 => Month::October,
            11 => Month::November,
            _ => Month::December,
        }
    }

    /// The month number `1..=12`.
    pub fn as_u8(self) -> (n: u8)
        ensures
            n == month_number(self),
            1 <= n <= 12,
    {
        match self {
            Month::January => 1,
            Month::February => 2,
            Month::March => 3,
            Month::April => 4,
            Month::May => 5,
            Month::June => 6,
            Month::July => 7,
            Month::August => 8,
            Month::September => 9,
            Month::October => 10,
            Month::November => 11,
            Month::December => 12,
        }
    }

    /// The month with number `value`, or `InvalidMonth` outside `1..=12`.
    pub fn try_from_u8(value: u8) -> (result: Result<Month, DateTimeError>)
        ensures
            1 <= value <= 12 ==> result == Ok::<Month, DateTimeError>(month_of(value)),
            !(1 <= value <= 12) ==> result == Err::<Month, DateTimeError>(
                DateTimeError::InvalidMonth(value),
            ),
    {
        if 1 <= value && value <= 12 {
            Ok(Self::from_u8_unchecked(value))
        } else {
            Err(DateTimeError::InvalidMonth(value))
        }
    }
}

/// A month's number maps back to the month, and a valid number to a month
/// that has it.
pub proof fn lemma_month_round_trip(m: Month, value: u8)
    ensures
        month_of(month_number(m)) == m,
        1 <= value <= 12 ==> month_number(month_of(value)) == value,
{
}

/// February has 29 days exactly in leap years, and no month has fewer than 28
/// or more than 31.
pub proof fn lemma_month_lengths(m: Month, year: int)
    ensures
        28 <= month_length(m, year) <= 31,
        (month_length(Month::February, year) == 29) == is_leap(year),
{
}

} // verus!
