//! Days of the calendar, and the one format in which the site writes them.

use vstd::prelude::*;
use crate::error::Error;
use crate::number::{all_digits, digit_of, digits_value, whole_in, whole_number};
use crate::text::chars_of;

verus! {

/// A day of the calendar.
#[derive(Debug, Clone, Copy, PartialEq, Eq, Structural)]
pub struct Date {
    pub year: u16,
    pub month: u8,
    pub day: u8,
}

/// Whether `year` has a 29th of February.
pub open spec fn is_leap(year: int) -> bool {
    year % 4 == 0 && (year % 100 != 0 || year % 400 == 0)
}

/// How many days the month `month` of `year` has; zero for a month that
/// does not exist.
pub open spec fn days_in_month(year: int, month: int) -> int {
    if month == 2 {
        if is_leap(year) {
            29
        } else {
            28
        }
    } else if month == 4 || month == 6 || month == 9 || month == 11 {
        30
    } else if 1 <= month <= 12 {
        31
    } else {
        0
    }
}

/// The month that three letters abbreviate.
pub open spec fn month_of(a: char, b: char, c: char) -> Option<u8> {
    if a == 'J' && b == 'a' && c == 'n' {
        Some(1u8)
    } else if a == 'F' && b == 'e' && c == 'b' {
        Some(2u8)
    } else if a == 'M' && b == 'a' && c == 'r' {
        Some(3u8)
    } else if a == 'A' && b == 'p' && c == 'r' {
        Some(4u8)
    } else if a == 'M' && b == 'a' && c == 'y' {
        Some(5u8)
    } else if a == 'J' && b == 'u' && c == 'n' {
        Some(6u8)
    } else if a == 'J' && b == 'u' && c == 'l' {
        Some(7u8)
    } else if a == 'A' && b == 'u' && c == 'g' {
        Some(8u8)
    } else if a == 'S' && b == 'e' && c == 'p' {
        Some(9u8)
    } else if a == 'O' && b == 'c' && c == 't' {
        Some(10u8)
    } else if a == 'N' && b == 'o' && c == 'v' {
        Some(11u8)
    } else if a == 'D' && b == 'e' && c == 'c' {
        Some(12u8)
    } else {
        None
    }
}

/// Whether `s` is laid out as `DD Mon YYYY HH:MM:SS GMT`: twenty-four
/// characters with the spaces, the colons and the zone in their places.
pub open spec fn date_layout(s: Seq<char>) -> bool {
    &&& s.len() == 24
    &&& s[2] == ' '
    &&& s[6] == ' '
    &&& s[11] == ' '
    &&& s[14] == ':'
    &&& s[17] == ':'
    &&& s[20] == ' '
    &&& s[21] == 'G'
    &&& s[22] == 'M'
    &&& s[23] == 'T'
}

impl Date {
    /// Whether this is a day that the calendar has.
    pub open spec fn valid(self) -> bool {
        1 <= self.month <= 12 && 1 <= self.day <= days_in_month(self.year as int, self.month as int)
    }

    /// The day that `s` names in the site's format,
    /// `DD Mon YYYY HH:MM:SS GMT`; `None` where `s` is not laid out so, a
    /// number is not written in digits, the time of day does not exist, or
    /// the calendar has no such day.
    pub open spec fn of(s: Seq<char>) -> Option<Date> {
        if !date_layout(s) {
            None
        } else {
            let day = whole_number(s.subrange(0, 2));
            let month = month_of(s[3], s[4], s[5]);
            let year = whole_number(s.subrange(7, 11));
            let hour = whole_number(s.subrange(12, 14));
            let minute = whole_number(s.subrange(15, 17));
            let second = whole_number(s.subrange(18, 20));
            if day is None || month is None || year is None || hour is None || minute is None
                || second is None {
                None
            } else if hour->Some_0 >= 24 || minute->Some_0 >= 60 || second->Some_0 >= 60 {
                None
            } else if day->Some_0 < 1 || day->Some_0 > days_in_month(
                year->Some_0 as int,
                month->Some_0 as int,
            ) {
                None
            } else {
                Some(
                    Date {
                        year: year->Some_0 as u16,
                        month: month->Some_0,
                        day: day->Some_0 as u8,
                    },
                )
            }
        }
    }

    /// Every day that is read is a day of the calendar.
    pub proof fn of_is_valid(s: Seq<char>)
        requires
            Date::of(s) is Some,
        ensures
            Date::of(s)->Some_0.valid(),
    {
        four_digits_are_below_ten_thousand(s.subrange(7, 11));
    }

    /// What `parse` gives for `s`.
    pub open spec fn parsed(s: Seq<char>) -> Result<Date, Error> {
        match Date::of(s) {
            Some(d) => Ok(d),
            None => Err(Error::DateFormatError),
        }
    }

    /// Reads a date in the site's format. It fails with `DateFormatError`
    /// exactly when `text` names no day in that format.
    pub fn parse(text: &str) -> (r: Result<Date, Error>)
        ensures
            r == Date::parsed(text@),
            r matches Ok(d) ==> d.valid(),
    {
        let v = chars_of(text);
        if v.len() != 24 {
            return Err(Error::DateFormatError);
        }
        if v[2] != ' ' || v[6] != ' ' || v[11] != ' ' || v[14] != ':' || v[17] != ':'
            || v[20] != ' ' || v[21] != 'G' || v[22] != 'M' || v[23] != 'T' {
            return Err(Error::DateFormatError);
        }
        let month = match month_number(v[3], v[4], v[5]) {
            Some(m) => m,
            None => { return Err(Error::DateFormatError); },
        };
        let day = whole_in(&v, 0, 2);
        let year = whole_in(&v, 7, 11);
        let hour = whole_in(&v, 12, 14);
        let minute = whole_in(&v, 15, 17);
        let second = whole_in(&v, 18, 20);
        match (day, year, hour, minute, second) {
            (Some(day), Some(year), Some(hour), Some(minute), Some(second)) => {
                if hour >= 24 || minute >= 60 || second >= 60 {
                    return Err(Error::DateFormatError);
                }
                proof {
                    four_digits_are_below_ten_thousand(v@.subrange(7, 11));
                }
                let last = month_length(year as u16, month);
                if day < 1 || day > last as u64 {
                    return Err(Error::DateFormatError);
                }
                Ok(Date { year: year as u16, month, day: day as u8 })
            },
            _ => Err(Error::DateFormatError),
        }
    }
}

/// Four digits write a number below ten thousand.
proof fn four_digits_are_below_ten_thousand(s: Seq<char>)
    requires
        s.len() == 4,
        all_digits(s),
    ensures
        digits_value(s) <= 9999,
{
    let a = s.drop_last();
    let b = a.drop_last();
    let c = b.drop_last();
    assert(digits_value(c.drop_last()) == 0);
    assert(digits_value(c) == digit_of(s[0]));
    assert(digits_value(b) == digits_value(c) * 10 + digit_of(s[1]));
    assert(digits_value(a) == digits_value(b) * 10 + digit_of(s[2]));
    assert(digits_value(s) == digits_value(a) * 10 + digit_of(s[3]));
}

/// The month that three letters abbreviate.
pub fn month_number(a: char, b: char, c: char) -> (r: Option<u8>)
    ensures
        r == month_of(a, b, c),
        r matches Some(m) ==> 1 <= m <= 12,
{
    if a == 'J' && b == 'a' && c == 'n' {
        Some(1)
    } else if a == 'F' && b == 'e' && c == 'b' {
        Some(2)
    } else if a == 'M' && b == 'a' && c == 'r' {
        Some(3)
    } else if a == 'A' && b == 'p' && c == 'r' {
        Some(4)
    } else if a == 'M' && b == 'a' && c == 'y' {
        Some(5)
    } else if a == 'J' && b == 'u' && c == 'n' {
        Some(6)
    } else if a == 'J' && b == 'u' && c == 'l' {
        Some(7)
    } else if a == 'A' && b == 'u' && c == 'g' {
        Some(8)
    } else if a == 'S' && b == 'e' && c == 'p' {
        Some(9)
    } else if a == 'O' && b == 'c' && c == 't' {
        Some(10)
    } else if a == 'N' && b == 'o' && c == 'v' {
        Some(11)
    } else if a == 'D' && b == 'e' && c == 'c' {
        Some(12)
    } else {
        None
    }
}

/// How many days the month `month` of `year` has; zero for a month that
/// does not exist.
pub fn month_length(year: u16, month: u8) -> (r: u8)
    ensures
        r == days_in_month(year as int, month as int),
{
    if month == 2 {
        if year % 4 == 0 && (year % 100 != 0 || year % 400 == 0) {
            29
        } else {
            28
        }
    } else if month == 4 || month == 6 || month == 9 || month == 11 {
        30
    } else if 1 <= month && month <= 12 {
        31
    } else {
        0
    }
}

} // verus!
