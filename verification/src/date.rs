//! Calendar dates of journal entries.

use crate::numeral::{digit, digits, is_digit, lemma_digits_are_digits, zero_padded};
use vstd::prelude::*;

verus! {

/// The first year that a date can lie in.
pub const MIN_YEAR: i32 = -262143;

/// The last year that a date can lie in.
pub const MAX_YEAR: i32 = 262142;

/// Leap years of the proleptic Gregorian calendar.
pub open spec fn is_leap_year(year: int) -> bool {
    year % 4 == 0 && (year % 100 != 0 || year % 400 == 0)
}

/// The number of days of a month of a year.
pub open spec fn days_in_month(year: int, month: int) -> int {
    if month == 2 {
        if is_leap_year(year) {
            29
        } else {
            28
        }
    } else if month == 4 || month == 6 || month == 9 || month == 11 {
        30
    } else {
        31
    }
}

/// True when the day exists in the proleptic Gregorian calendar and its
/// year lies between `MIN_YEAR` and `MAX_YEAR`.
pub open spec fn is_calendar_date(year: int, month: int, day: int) -> bool {
    &&& MIN_YEAR <= year <= MAX_YEAR
    &&& 1 <= month <= 12
    &&& 1 <= day <= days_in_month(year, month)
}

/// How a year is written in a date stamp: four digits or more, with a sign
/// in front of a year that is negative or has more than four digits.
pub open spec fn year_text(year: int) -> Seq<char> {
    if 0 <= year <= 9999 {
        zero_padded(year as nat, 4)
    } else if year < 0 {
        seq!['-'] + zero_padded((-year) as nat, 4)
    } else {
        seq!['+'] + zero_padded(year as nat, 4)
    }
}

/// The date stamp `YYYY/MM/DD` of a day, month and day zero-padded to two
/// digits.
pub open spec fn stamp_text(year: int, month: int, day: int) -> Seq<char> {
    year_text(year) + seq!['/'] + zero_padded(month as nat, 2) + seq!['/'] + zero_padded(
        day as nat,
        2,
    )
}

/// A numeral padded to a width that it does not exceed has that width and
/// holds digits only.
pub proof fn lemma_zero_padded_shape(n: nat, width: nat)
    requires
        digits(n).len() <= width,
    ensures
        zero_padded(n, width).len() == width,
        forall|k: int| 0 <= k < width ==> is_digit(#[trigger] zero_padded(n, width)[k]),
{
    lemma_digits_are_digits(n);
    let numeral = digits(n);
    let zeros = (width - numeral.len()) as nat;
    assert(is_digit('0')) by {
        assert('0' == digit(0));
    }
    assert forall|k: int| 0 <= k < width implies is_digit(#[trigger] zero_padded(n, width)[k]) by {
        if numeral.len() < width && k >= zeros {
            assert(zero_padded(n, width)[k] == numeral[k - zeros]);
        }
    }
}

/// In the years 0 to 9999 the date stamp of a day has the shape
/// `YYYY/MM/DD`: ten characters, slashes behind the year and behind the
/// month, digits elsewhere.
pub proof fn lemma_stamp_shape(year: int, month: int, day: int)
    requires
        is_calendar_date(year, month, day),
        0 <= year <= 9999,
    ensures
        stamp_text(year, month, day).len() == 10,
        forall|k: int|
            0 <= k < 10 ==> if k == 4 || k == 7 {
                #[trigger] stamp_text(year, month, day)[k] == '/'
            } else {
                is_digit(stamp_text(year, month, day)[k])
            },
{
    reveal_with_fuel(digits, 5);
    lemma_zero_padded_shape(year as nat, 4);
    lemma_zero_padded_shape(month as nat, 2);
    lemma_zero_padded_shape(day as nat, 2);
    let y = zero_padded(year as nat, 4);
    let m = zero_padded(month as nat, 2);
    let d = zero_padded(day as nat, 2);
    let stamp = stamp_text(year, month, day);
    assert forall|k: int| 0 <= k < 10 implies if k == 4 || k == 7 {
        #[trigger] stamp[k] == '/'
    } else {
        is_digit(stamp[k])
    } by {
        if k < 4 {
            assert(stamp[k] == y[k]);
        } else if 4 < k < 7 {
            assert(stamp[k] == m[k - 5]);
        } else if 7 < k {
            assert(stamp[k] == d[k - 8]);
        }
    }
}

/// Builds the date with chrono's `NaiveDate::from_ymd_opt` and writes it
/// with `NaiveDate::format` under the pattern `%Y/%m/%d`.
///
/// Taken on trust from chrono: a date is built exactly for the days of the
/// proleptic Gregorian calendar in the years `MIN_YEAR` to `MAX_YEAR`; `%Y`
/// writes the year zero-padded to four digits, behind a sign when the year
/// is outside 0 to 9999; `%m` and `%d` write two digits each.
#[verifier::external_body]
fn format_calendar_date(year: i32, month: u32, day: u32) -> (text: Option<String>)
    ensures
        text is Some <==> is_calendar_date(year as int, month as int, day as int),
        text matches Some(s) ==> s@ == stamp_text(year as int, month as int, day as int),
{
    match chrono::NaiveDate::from_ymd_opt(year, month, day) {
        Some(date) => Some(date.format("%Y/%m/%d").to_string()),
        None => None,
    }
}

/// A day as the contracts see it.
pub struct DateView {
    pub year: int,
    pub month: int,
    pub day: int,
}

impl DateView {
    /// True when the day exists.
    pub open spec fn valid(self) -> bool {
        is_calendar_date(self.year, self.month, self.day)
    }

    /// The date stamp of the day.
    pub open spec fn stamp(self) -> Seq<char> {
        stamp_text(self.year, self.month, self.day)
    }
}

/// The day on which an entry is made. Every value is a day that exists.
#[derive(Debug, PartialEq, Eq)]
pub struct EntryDate {
    year: i32,
    month: u32,
    day: u32,
    stamp: String,
}

impl View for EntryDate {
    type V = DateView;

    closed spec fn view(&self) -> DateView {
        DateView { year: self.year as int, month: self.month as int, day: self.day as int }
    }
}

impl Clone for EntryDate {
    fn clone(&self) -> (copy: EntryDate)
        ensures
            copy@ == self@,
    {
        proof {
            use_type_invariant(self);
        }
        EntryDate { year: self.year, month: self.month, day: self.day, stamp: self.stamp.clone() }
    }
}

impl EntryDate {
    #[verifier::type_invariant]
    spec fn well_formed(&self) -> bool {
        &&& is_calendar_date(self.year as int, self.month as int, self.day as int)
        &&& self.stamp@ == stamp_text(self.year as int, self.month as int, self.day as int)
    }

    /// The day with the given year, month (from 1) and day of the month
    /// (from 1), if there is such a day.
    pub fn new(year: i32, month: u32, day: u32) -> (date: Option<EntryDate>)
        ensures
            date is Some <==> is_calendar_date(year as int, month as int, day as int),
            date matches Some(d) ==> d@ == (DateView {
                year: year as int,
                month: month as int,
                day: day as int,
            }),
    {
        match format_calendar_date(year, month, day) {
            Some(stamp) => Some(EntryDate { year, month, day, stamp }),
            None => None,
        }
    }

    /// The year of the day.
    pub fn year(&self) -> (year: i32)
        ensures
            year == self@.year,
            self@.valid(),
    {
        proof {
            use_type_invariant(self);
        }
        self.year
    }

    /// The month of the day, from 1.
    pub fn month(&self) -> (month: u32)
        ensures
            month == self@.month,
            self@.valid(),
    {
        proof {
            use_type_invariant(self);
        }
        self.month
    }

    /// The day of the month, from 1.
    pub fn day(&self) -> (day: u32)
        ensures
            day == self@.day,
            self@.valid(),
    {
        proof {
            use_type_invariant(self);
        }
        self.day
    }

    /// The date stamp `YYYY/MM/DD` of the day.
    pub fn stamp(&self) -> (stamp: &str)
        ensures
            stamp@ == self@.stamp(),
    {
        proof {
            use_type_invariant(self);
        }
        self.stamp.as_str()
    }
}

} // verus!
