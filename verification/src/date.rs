//! Calendar dates and their `YYYY-MM-DD` text form.

use vstd::prelude::*;

use crate::month::{month_length, month_number, DateTimeError, Month};

verus! {

/// Largest absolute year of a date.
pub const MAX_YEAR: i32 = 9999;

/// A calendar date (proleptic Gregorian), years `-9999..=9999`.
#[derive(Debug, Clone, Copy, PartialEq, Eq, Structural)]
pub struct Date {
    year: i32,
    month: Month,
    day: u8,
}

/// Whether year, month and day form a date.
pub open spec fn valid_date(year: int, month: Month, day: int) -> bool {
    -MAX_YEAR <= year <= MAX_YEAR && 1 <= day <= month_length(month, year)
}

impl Date {
    /// Year.
    pub closed spec fn y(&self) -> int {
        self.year as int
    }

    /// Month.
    pub closed spec fn m(&self) -> Month {
        self.month
    }

    /// Day of the month.
    pub closed spec fn d(&self) -> int {
        self.day as int
    }

    /// Whether the date is a valid calendar date.
    pub closed spec fn well_formed(&self) -> bool {
        valid_date(self.year as int, self.month, self.day as int)
    }

    /// Every date value is a valid calendar date.
    #[verifier::type_invariant]
    spec fn always_valid(self) -> bool {
        self.well_formed()
    }

    /// The date `year-month-day`, or an error naming the field out of range.
    pub fn from_calendar_date(year: i32, month: Month, day: u8) -> (result: Result<
        Date,
        DateTimeError,
    >)
        ensures
            !(-MAX_YEAR <= year <= MAX_YEAR) ==> result == Err::<Date, DateTimeError>(
                DateTimeError::InvalidYear(year),
            ),
            -MAX_YEAR <= year <= MAX_YEAR && !valid_date(year as int, month, day as int) ==> result
                == Err::<Date, DateTimeError>(DateTimeError::InvalidDay(day)),
            valid_date(year as int, month, day as int) ==> (result matches Ok(date) && date.y()
                == year && date.m() == month && date.d() == day && date.well_formed()),
    {
        if year < -MAX_YEAR || year > MAX_YEAR {
            return Err(DateTimeError::InvalidYear(year));
        }
        let leap = crate::month::is_leap_year(year);
        let last: u8 = match month {
            Month::April | Month::June | Month::September | Month::November => 30,
            Month::February => if leap {
                29
            } else {
                28
            },
            _ => 31,
        };
        if day < 1 || day > last {
            return Err(DateTimeError::InvalidDay(day));
        }
        Ok(Date { year, month, day })
    }

    /// Year.
    pub fn year(&self) -> (y: i32)
        ensures
            y == self.y(),
    {
        self.year
    }

    /// Month.
    pub fn month(&self) -> (m: Month)
        ensures
            m == self.m(),
    {
        self.month
    }

    /// Day of the month.
    pub fn day(&self) -> (d: u8)
        ensures
            d == self.d(),
    {
        self.day
    }

    /// Two dates are equal exactly when year, month and day are.
    pub proof fn lemma_eq(a: Date, b: Date)
        ensures
            (a == b) <==> (a.y() == b.y() && a.m() == b.m() && a.d() == b.d()),
    {
    }

    /// `YYYY-MM-DD`, with the year zero-padded to four places (sign included).
    pub fn format_iso(&self) -> (text: String)
        ensures
            text@ == iso_date(self.y(), month_number(self.m()) as int, self.d()),
    {
        proof {
            use_type_invariant(self);
        }
        let mut text = String::new();
        if self.year < 0 {
            string_push(&mut text, '-');
            push_padded(&mut text, (0 - self.year) as u32, 3);
        } else {
            push_padded(&mut text, self.year as u32, 4);
        }
        string_push(&mut text, '-');
        push_padded(&mut text, self.month.as_u8() as u32, 2);
        string_push(&mut text, '-');
        push_padded(&mut text, self.day as u32, 2);
        text
    }
}

/// The decimal digit character for `d` in `0..=9`.
pub open spec fn digit_char(d: int) -> char {
    if d == 0 {
        '0'
    } else if d == 1 {
        '1'
    } else if d == 2 {
        '2'
    } else if d == 3 {
        '3'
    } else if d == 4 {
        '4'
    } else if d == 5 {
        '5'
    } else if d == 6 {
        '6'
    } else if d == 7 {
        '7'
    } else if d == 8 {
        '8'
    } else {
        '9'
    }
}

/// Decimal digits of `n`, most significant first, without leading zeros.
pub open spec fn decimal(n: nat) -> Seq<char>
    decreases n,
{
    if n < 10 {
        seq![digit_char(n as int)]
    } else {
        decimal(n / 10).push(digit_char((n % 10) as int))
    }
}

/// `n` zeros.
pub open spec fn zeros(n: nat) -> Seq<char> {
    Seq::new(n, |i: int| '0')
}

/// Decimal digits of `n`, zero-padded on the left to at least `width` places.
pub open spec fn padded(n: nat, width: nat) -> Seq<char> {
    let digits = decimal(n);
    if digits.len() < width {
        zeros((width - digits.len()) as nat) + digits
    } else {
        digits
    }
}

/// A signed year formatted to width four, the sign counting towards the width.
pub open spec fn padded_year(year: int) -> Seq<char> {
    if year < 0 {
        seq!['-'] + padded((-year) as nat, 3)
    } else {
        padded(year as nat, 4)
    }
}

/// `YYYY-MM-DD`.
pub open spec fn iso_date(year: int, month: int, day: int) -> Seq<char> {
    padded_year(year) + seq!['-'] + padded(month as nat, 2) + seq!['-'] + padded(day as nat, 2)
}

/// Appends a character (`String::push`).
#[verifier::external_body]
pub(crate) fn string_push(s: &mut String, c: char)
    ensures
        final(s)@ == old(s)@.push(c),
{
    s.push(c);
}

/// The digit character of `d`.
pub fn digit(d: u32) -> (c: char)
    requires
        d < 10,
    ensures
        c == digit_char(d as int),
{
    match d {
        0 => '0',
        1 => '1',
        2 => '2',
        3 => '3',
        4 => '4',
        5 => '5',
        6 => '6',
        7 => '7',
        8 => '8',
        _ => '9',
    }
}

/// Appends the decimal digits of `n`.
pub fn push_decimal(s: &mut String, n: u32)
    ensures
        final(s)@ == old(s)@ + decimal(n as nat),
    decreases n,
{
    if n >= 10 {
        push_decimal(s, n / 10);
    }
    string_push(s, digit(n % 10));
    proof {
        if n >= 10 {
            assert(old(s)@ + decimal((n / 10) as nat) + seq![digit_char((n % 10) as int)]
                =~= old(s)@ + decimal(n as nat));
        } else {
            assert(old(s)@.push(digit_char((n % 10) as int)) =~= old(s)@ + decimal(n as nat));
        }
    }
}

/// Number of decimal digits of `n`.
pub fn decimal_len(n: u32) -> (len: usize)
    ensures
        len == decimal(n as nat).len(),
        1 <= len <= 10,
    decreases n,
{
    if n < 10 {
        1
    } else {
        let rest = decimal_len(n / 10);
        proof {
            lemma_decimal_len_bound(n as nat);
        }
        rest + 1
    }
}

/// `10^k`.
pub open spec fn ten_pow(k: nat) -> nat
    decreases k,
{
    if k == 0 {
        1
    } else {
        10 * ten_pow((k - 1) as nat)
    }
}

/// A number below `10^k` has at most `k` digits (`k >= 1`).
pub proof fn lemma_decimal_len_pow(n: nat, k: nat)
    requires
        k >= 1,
        n < ten_pow(k),
    ensures
        1 <= decimal(n).len() <= k,
    decreases n,
{
    if n >= 10 {
        assert(k >= 2) by {
            if k == 1 {
                assert(ten_pow(1) == 10) by {
                    assert(ten_pow(0) == 1);
                }
            }
        }
        lemma_decimal_len_pow(n / 10, (k - 1) as nat);
    }
}

/// Every `u32` has at most ten digits.
pub proof fn lemma_decimal_len_bound(n: nat)
    requires
        n <= u32::MAX,
    ensures
        1 <= decimal(n).len() <= 10,
{
    reveal_with_fuel(ten_pow, 11);
    assert(ten_pow(10) == 10_000_000_000);
    lemma_decimal_len_pow(n, 10);
}

/// Appends `n` zero-padded to `width` places.
pub fn push_padded(s: &mut String, n: u32, width: usize)
    ensures
        final(s)@ == old(s)@ + padded(n as nat, width as nat),
{
    let len = decimal_len(n);
    let mut k: usize = len;
    while k < width
        invariant
            len <= k,
            k <= width || k == len,
            len == decimal(n as nat).len(),
            s@ == old(s)@ + zeros((k - len) as nat),
        decreases width - k,
    {
        string_push(s, '0');
        proof {
            assert(zeros((k - len) as nat).push('0') =~= zeros((k + 1 - len) as nat));
        }
        k = k + 1;
    }
    push_decimal(s, n);
    proof {
        if len < width {
            assert(k == width);
            assert(old(s)@ + zeros((k - len) as nat) + decimal(n as nat) =~= old(s)@ + padded(
                n as nat,
                width as nat,
            ));
        } else {
            assert(zeros(0) =~= Seq::<char>::empty());
            assert(old(s)@ + zeros((k - len) as nat) + decimal(n as nat) =~= old(s)@ + padded(
                n as nat,
                width as nat,
            ));
        }
    }
}

} // verus!
