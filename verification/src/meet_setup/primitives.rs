//! Primitive field decoders: booleans, calendar dates, times of day,
//! fixed-width durations and year numbers.

use crate::text::{
    all_digits, digit_val, digits_int, is_digit, is_signed_digits, lemma_digits_int_bound,
    parse_i16, parse_u64, signed_int, str_eq,
};
use vstd::prelude::*;

verus! {

/// Rejection of a primitive field value; every variant carries the raw
/// input that was refused.
#[derive(Debug, Clone, PartialEq, Eq)]
pub enum Error {
    /// The token is outside the closed vocabulary of the field
    /// (booleans accept exactly `TRUE` and `FALSE`).
    UnknownVariant(String),
    /// Not an 8-digit string naming a real calendar date.
    InvalidDate(String),
    /// Not a 4-digit string naming a time of day.
    InvalidTime(String),
    /// Not a duration token in the fixed-width layout.
    InvalidValue(String),
    /// Not a year number in range.
    InvalidYear(String),
}

/// A calendar date in the proleptic Gregorian calendar.
#[derive(Debug, Clone, Copy, PartialEq, Eq, Structural)]
pub struct Date {
    /// Four-digit year, `0..=9999`.
    pub year: u16,
    /// Month of the year, `1..=12`.
    pub month: u8,
    /// Day of the month, `1..=days_in_month(year, month)`.
    pub day: u8,
}

/// Gregorian leap-year rule.
pub open spec fn is_leap_year(y: int) -> bool {
    y % 4 == 0 && (y % 100 != 0 || y % 400 == 0)
}

/// Number of days in a month of the Gregorian calendar.
pub open spec fn days_in_month(y: int, m: int) -> int {
    if m == 2 {
        if is_leap_year(y) {
            29
        } else {
            28
        }
    } else if m == 4 || m == 6 || m == 9 || m == 11 {
        30
    } else {
        31
    }
}

impl Date {
    /// The components name a real calendar date with a four-digit year.
    pub open spec fn valid(self) -> bool {
        &&& self.year <= 9999
        &&& 1 <= self.month <= 12
        &&& 1 <= self.day <= days_in_month(self.year as int, self.month as int)
    }
}

/// Year component of an 8-digit date string.
pub open spec fn date_str_year(s: Seq<char>) -> int {
    digits_int(s.subrange(0, 4))
}

/// Month component of an 8-digit date string.
pub open spec fn date_str_month(s: Seq<char>) -> int {
    digits_int(s.subrange(4, 6))
}

/// Day component of an 8-digit date string.
pub open spec fn date_str_day(s: Seq<char>) -> int {
    digits_int(s.subrange(6, 8))
}

/// Exactly 8 ASCII digits naming a real calendar date.
pub open spec fn is_date_str(s: Seq<char>) -> bool {
    &&& s.len() == 8
    &&& all_digits(s)
    &&& 1 <= date_str_month(s) <= 12
    &&& 1 <= date_str_day(s) <= days_in_month(date_str_year(s), date_str_month(s))
}

/// Leap-year test on a year that fits in `u16`.
pub fn leap_year(y: u16) -> (r: bool)
    ensures
        r == is_leap_year(y as int),
{
    y % 4 == 0 && (y % 100 != 0 || y % 400 == 0)
}

/// Decode a `YYYYMMDD` date string.
///
/// Succeeds exactly on strings of 8 ASCII digits whose components name a
/// real calendar date (no 30th of February), and returns those components
/// unchanged; everything else is an [`Error::InvalidDate`] carrying the
/// input.
pub fn parse_date(s: &str) -> (r: Result<Date, Error>)
    ensures
        r is Ok <==> is_date_str(s@),
        r matches Ok(d) ==> {
            &&& d.year == date_str_year(s@)
            &&& d.month == date_str_month(s@)
            &&& d.day == date_str_day(s@)
            &&& d.valid()
        },
        r matches Err(e) ==> e matches Error::InvalidDate(t) && t@ == s@,
{
    let n = s.unicode_len();
    if n != 8 {
        return Err(Error::InvalidDate(String::from_str(s)));
    }
    let year_part = s.substring_char(0, 4);
    let month_part = s.substring_char(4, 6);
    let day_part = s.substring_char(6, 8);
    proof {
        assert(year_part@ =~= s@.subrange(0, 4));
        assert(month_part@ =~= s@.subrange(4, 6));
        assert(day_part@ =~= s@.subrange(6, 8));
        if all_digits(s@) {
            assert forall|j: int| 0 <= j < 4 implies is_digit(#[trigger] year_part@[j]) by {
                assert(year_part@[j] == s@[j]);
            }
            assert forall|j: int| 0 <= j < 2 implies is_digit(#[trigger] month_part@[j]) by {
                assert(month_part@[j] == s@[j + 4]);
            }
            assert forall|j: int| 0 <= j < 2 implies is_digit(#[trigger] day_part@[j]) by {
                assert(day_part@[j] == s@[j + 6]);
            }
            lemma_digits_int_bound(year_part@);
            lemma_digits_int_bound(month_part@);
            lemma_digits_int_bound(day_part@);
            reveal_with_fuel(crate::text::pow10, 5);
        }
    }
    let year_o = parse_u64(year_part);
    let month_o = parse_u64(month_part);
    let day_o = parse_u64(day_part);
    let (year, month, day) = match (year_o, month_o, day_o) {
        (Some(y), Some(m), Some(d)) => (y, m, d),
        _ => {
            proof {
                if all_digits(s@) {
                    assert(false);
                }
            }
            return Err(Error::InvalidDate(String::from_str(s)));
        },
    };
    proof {
        if !all_digits(s@) {
            let i = choose|i: int| 0 <= i < s@.len() && !is_digit(#[trigger] s@[i]);
            if i < 4 {
                assert(!is_digit(year_part@[i]));
            } else if i < 6 {
                assert(!is_digit(month_part@[i - 4]));
            } else {
                assert(!is_digit(day_part@[i - 6]));
            }
        }
        lemma_digits_int_bound(year_part@);
        lemma_digits_int_bound(month_part@);
        lemma_digits_int_bound(day_part@);
        reveal_with_fuel(crate::text::pow10, 5);
    }
    let year = year as u16;
    let month = month as u8;
    let day = day as u8;
    if month < 1 || month > 12 {
        return Err(Error::InvalidDate(String::from_str(s)));
    }
    let max_day: u8 = if month == 2 {
        if leap_year(year) {
            29
        } else {
            28
        }
    } else if month == 4 || month == 6 || month == 9 || month == 11 {
        30
    } else {
        31
    };
    if day < 1 || day > max_day {
        return Err(Error::InvalidDate(String::from_str(s)));
    }
    Ok(Date { year, month, day })
}

/// Decode an optional date field: the empty string stands for an absent
/// value, anything else must be a full `YYYYMMDD` date.
pub fn parse_opt_date(s: &str) -> (r: Result<Option<Date>, Error>)
    ensures
        s@.len() == 0 ==> (r matches Ok(d) && d is None),
        s@.len() != 0 ==> match r {
            Ok(d) => (d matches Some(v) && parse_date_spec_ok(s@, v)),
            Err(e) => !is_date_str(s@) && (e matches Error::InvalidDate(t) && t@ == s@),
        },
{
    if s.unicode_len() == 0 {
        Ok(None)
    } else {
        match parse_date(s) {
            Ok(d) => Ok(Some(d)),
            Err(e) => Err(e),
        }
    }
}

/// The date components an 8-digit date string decodes to.
pub open spec fn parse_date_spec_ok(s: Seq<char>, d: Date) -> bool {
    &&& is_date_str(s)
    &&& d.year == date_str_year(s)
    &&& d.month == date_str_month(s)
    &&& d.day == date_str_day(s)
}

/// A time of day with minute precision.
#[derive(Debug, Clone, Copy, PartialEq, Eq, Structural)]
pub struct Time {
    /// Hour of the day, `0..=23`.
    pub hour: u8,
    /// Minute of the hour, `0..=59`.
    pub minute: u8,
}

impl Time {
    /// The components name a time of day.
    pub open spec fn valid(self) -> bool {
        self.hour <= 23 && self.minute <= 59
    }
}

/// Hour component of a 4-digit time string.
pub open spec fn time_str_hour(s: Seq<char>) -> int {
    digits_int(s.subrange(0, 2))
}

/// Minute component of a 4-digit time string.
pub open spec fn time_str_minute(s: Seq<char>) -> int {
    digits_int(s.subrange(2, 4))
}

/// Exactly 4 ASCII digits naming a 24-hour time of day.
pub open spec fn is_time_str(s: Seq<char>) -> bool {
    &&& s.len() == 4
    &&& all_digits(s)
    &&& time_str_hour(s) <= 23
    &&& time_str_minute(s) <= 59
}

/// Decode a `HHMM` time-of-day string.
///
/// Succeeds exactly on strings of 4 ASCII digits with hour `0..=23` and
/// minute `0..=59`; everything else is an [`Error::InvalidTime`] carrying
/// the input.
pub fn parse_time(s: &str) -> (r: Result<Time, Error>)
    ensures
        r is Ok <==> is_time_str(s@),
        r matches Ok(t) ==> {
            &&& t.hour == time_str_hour(s@)
            &&& t.minute == time_str_minute(s@)
            &&& t.valid()
        },
        r matches Err(e) ==> e matches Error::InvalidTime(t) && t@ == s@,
{
    let n = s.unicode_len();
    if n != 4 {
        return Err(Error::InvalidTime(String::from_str(s)));
    }
    let hour_part = s.substring_char(0, 2);
    let minute_part = s.substring_char(2, 4);
    proof {
        assert(hour_part@ =~= s@.subrange(0, 2));
        assert(minute_part@ =~= s@.subrange(2, 4));
        if all_digits(s@) {
            assert forall|j: int| 0 <= j < 2 implies is_digit(#[trigger] hour_part@[j]) by {
                assert(hour_part@[j] == s@[j]);
            }
            assert forall|j: int| 0 <= j < 2 implies is_digit(#[trigger] minute_part@[j]) by {
                assert(minute_part@[j] == s@[j + 2]);
            }
            lemma_digits_int_bound(hour_part@);
            lemma_digits_int_bound(minute_part@);
            reveal_with_fuel(crate::text::pow10, 3);
        }
    }
    let hour_o = parse_u64(hour_part);
    let minute_o = parse_u64(minute_part);
    let (hour, minute) = match (hour_o, minute_o) {
        (Some(h), Some(m)) => (h, m),
        _ => {
            proof {
                if all_digits(s@) {
                    assert(false);
                }
            }
            return Err(Error::InvalidTime(String::from_str(s)));
        },
    };
    proof {
        if !all_digits(s@) {
            let i = choose|i: int| 0 <= i < s@.len() && !is_digit(#[trigger] s@[i]);
            if i < 2 {
                assert(!is_digit(hour_part@[i]));
            } else {
                assert(!is_digit(minute_part@[i - 2]));
            }
        }
    }
    if hour > 23 || minute > 59 {
        return Err(Error::InvalidTime(String::from_str(s)));
    }
    Ok(Time { hour: hour as u8, minute: minute as u8 })
}

/// The duration layout of event qualification times: 8 characters, with a
/// two-digit minute field at positions 0-1, a single seconds digit at
/// position 4 and a single hundredths digit at position 7 (the vendor's
/// fixed-width `MM:ss:hh` layout, of which only these offsets are read).
pub open spec fn is_duration_str(s: Seq<char>) -> bool {
    &&& s.len() == 8
    &&& is_digit(s[0])
    &&& is_digit(s[1])
    &&& is_digit(s[4])
    &&& is_digit(s[7])
}

/// Milliseconds encoded by an 8-character duration token:
/// `minutes * 60_000 + seconds * 1_000 + hundredths * 100`, where the
/// seconds and hundredths contributions come from the single digits at
/// positions 4 and 7.
pub open spec fn duration_str_ms(s: Seq<char>) -> int {
    (digit_val(s[0]) * 10 + digit_val(s[1])) * 60000 + digit_val(s[4]) * 1000 + digit_val(s[7])
        * 100
}

/// Decode an 8-character duration token into whole milliseconds.
///
/// Only the digit positions 0, 1, 4 and 7 are read, reproducing the
/// vendor's layout exactly: a naive two-digit read of the seconds or
/// hundredths fields would give a different value.
pub fn parse_duration(s: &str) -> (r: Result<u64, Error>)
    ensures
        r is Ok <==> is_duration_str(s@),
        r matches Ok(ms) ==> ms == duration_str_ms(s@),
        r matches Err(e) ==> e matches Error::InvalidValue(t) && t@ == s@,
{
    let n = s.unicode_len();
    if n != 8 {
        return Err(Error::InvalidValue(String::from_str(s)));
    }
    let m0 = s.get_char(0) as u32;
    let m1 = s.get_char(1) as u32;
    let sec = s.get_char(4) as u32;
    let hun = s.get_char(7) as u32;
    if m0 < 48 || m0 > 57 || m1 < 48 || m1 > 57 || sec < 48 || sec > 57 || hun < 48 || hun > 57 {
        return Err(Error::InvalidValue(String::from_str(s)));
    }
    let minutes = ((m0 - 48) * 10 + (m1 - 48)) as u64;
    let seconds = (sec - 48) as u64;
    let hundredths = (hun - 48) as u64;
    Ok(minutes * 60000 + seconds * 1000 + hundredths * 100)
}

/// The duration layout of enrollment qualification limits: 6 characters
/// `MMsshh`, of which the two minute digits at positions 0-1, the single
/// seconds digit at position 3 and the single hundredths digit at
/// position 5 are read.
pub open spec fn is_qual_duration_str(s: Seq<char>) -> bool {
    &&& s.len() == 6
    &&& is_digit(s[0])
    &&& is_digit(s[1])
    &&& is_digit(s[3])
    &&& is_digit(s[5])
}

/// Milliseconds encoded by a 6-character qualification duration token.
pub open spec fn qual_duration_str_ms(s: Seq<char>) -> int {
    (digit_val(s[0]) * 10 + digit_val(s[1])) * 60000 + digit_val(s[3]) * 1000 + digit_val(s[5])
        * 100
}

/// Decode a 6-character qualification duration token into milliseconds,
/// reading only the digit positions 0, 1, 3 and 5 of the vendor's layout.
pub fn parse_qual_duration(s: &str) -> (r: Result<u64, Error>)
    ensures
        r is Ok <==> is_qual_duration_str(s@),
        r matches Ok(ms) ==> ms == qual_duration_str_ms(s@),
        r matches Err(e) ==> e matches Error::InvalidValue(t) && t@ == s@,
{
    let n = s.unicode_len();
    if n != 6 {
        return Err(Error::InvalidValue(String::from_str(s)));
    }
    let m0 = s.get_char(0) as u32;
    let m1 = s.get_char(1) as u32;
    let sec = s.get_char(3) as u32;
    let hun = s.get_char(5) as u32;
    if m0 < 48 || m0 > 57 || m1 < 48 || m1 > 57 || sec < 48 || sec > 57 || hun < 48 || hun > 57 {
        return Err(Error::InvalidValue(String::from_str(s)));
    }
    let minutes = ((m0 - 48) * 10 + (m1 - 48)) as u64;
    let seconds = (sec - 48) as u64;
    let hundredths = (hun - 48) as u64;
    Ok(minutes * 60000 + seconds * 1000 + hundredths * 100)
}

/// The boolean token table: exactly `TRUE` and `FALSE`, case-sensitive.
pub open spec fn bool_value(t: Seq<char>) -> Option<bool> {
    if t == "TRUE"@ {
        Some(true)
    } else if t == "FALSE"@ {
        Some(false)
    } else {
        None
    }
}

/// An optional boolean: empty text stands for an absent value.
pub open spec fn opt_bool_value(t: Seq<char>) -> Option<Option<bool>> {
    if t.len() == 0 {
        Some(None)
    } else {
        match bool_value(t) {
            Some(b) => Some(Some(b)),
            None => None,
        }
    }
}

/// Decode the boolean tokens `TRUE` and `FALSE` (case-sensitive); any
/// other input is an [`Error::UnknownVariant`] carrying it.
pub fn parse_bool(s: &str) -> (r: Result<bool, Error>)
    ensures
        r matches Ok(b) ==> bool_value(s@) == Some(b),
        r is Err <==> bool_value(s@) is None,
        r matches Err(e) ==> e matches Error::UnknownVariant(t) && t@ == s@,
{
    if str_eq(s, "TRUE") {
        Ok(true)
    } else if str_eq(s, "FALSE") {
        Ok(false)
    } else {
        Err(Error::UnknownVariant(String::from_str(s)))
    }
}

/// Decode an optional boolean field: the empty string stands for an
/// absent value, anything else must be `TRUE` or `FALSE`.
pub fn parse_opt_bool(s: &str) -> (r: Result<Option<bool>, Error>)
    ensures
        r matches Ok(v) ==> opt_bool_value(s@) == Some(v),
        r is Err <==> opt_bool_value(s@) is None,
        r matches Err(e) ==> e matches Error::UnknownVariant(t) && t@ == s@,
{
    if s.unicode_len() == 0 {
        Ok(None)
    } else {
        match parse_bool(s) {
            Ok(b) => Ok(Some(b)),
            Err(e) => Err(e),
        }
    }
}

/// Decode a year number: any integer that fits in `i16`, as the vendor
/// format writes years both as four-digit values and as short offsets.
/// Range checks belong to the class layer, not to this decoder.
pub fn parse_year(s: &str) -> (r: Result<i16, Error>)
    ensures
        r is Ok <==> is_signed_digits(s@) && i16::MIN <= signed_int(s@) <= i16::MAX,
        r matches Ok(y) ==> y == signed_int(s@),
        r matches Err(e) ==> e matches Error::InvalidYear(t) && t@ == s@,
{
    match parse_i16(s) {
        Some(y) => Ok(y),
        None => Err(Error::InvalidYear(String::from_str(s))),
    }
}

} // verus!
