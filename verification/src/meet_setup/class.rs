//! Competitive class of an athlete: senior, junior or handicap.

use super::error::Error as SetupError;
use super::handicap::Handicap;
use super::junior::Junior;
use crate::text::{all_digits, digits_int, is_digit, parse_u64, str_eq};
use vstd::math::abs;
use vstd::prelude::*;

verus! {

/// Competitive class of an athlete. Athletes compete only against
/// members of their own class.
#[derive(Debug, Clone, Copy, PartialEq, Eq)]
pub enum Class {
    /// Athletes older than the junior range.
    Senior,
    /// Athletes between 9 and 19 years old, keyed by birth year; junior
    /// team relays carry no birth year.
    Junior(Option<i16>),
    /// Disability classification.
    Handicap(Handicap),
}

/// Rejection of a class token.
#[derive(Debug, Clone, PartialEq, Eq)]
pub enum Error {
    /// The token is neither `SR`, `JR`, a handicap token nor a birth
    /// year; carries the input.
    InvalidClass(String),
    /// The token started like a handicap class but its remainder was
    /// refused.
    Handicap(super::handicap::Error),
    /// A birth year more than 100 years away from the reference year,
    /// in either direction.
    BirthYearOutOfRange(i16),
}

impl Class {
    /// The class table: `SR` is senior, `JR` a junior relay without a
    /// year, a leading `S` or `s` delegates to the handicap decoder, and
    /// a digit starts a birth year no more than 100 years away from the
    /// reference year, in either direction.
    pub open spec fn decode_spec(s: Seq<char>, reference_year: int) -> Option<Class> {
        if s == "SR"@ {
            Some(Class::Senior)
        } else if s == "JR"@ {
            Some(Class::Junior(None))
        } else if s.len() > 0 && (s[0] == 'S' || s[0] == 's') {
            match Handicap::decode_spec(s) {
                Some(h) => Some(Class::Handicap(h)),
                None => None,
            }
        } else if s.len() > 0 && is_digit(s[0]) {
            if all_digits(s) && digits_int(s) <= i16::MAX && abs(
                reference_year - digits_int(s),
            ) <= 100 {
                Some(Class::Junior(Some(digits_int(s) as i16)))
            } else {
                None
            }
        } else {
            None
        }
    }

    /// Decode a class token.
    ///
    /// The reference year is passed by the caller (normally the meet
    /// year), never read from a clock, so decoding is deterministic: a
    /// birth year more than 100 years away from it, past or future, is
    /// refused.
    pub fn decode(s: &str, reference_year: i16) -> (r: Result<Class, Error>)
        ensures
            r matches Ok(v) ==> Self::decode_spec(s@, reference_year as int) == Some(v),
            r is Err <==> Self::decode_spec(s@, reference_year as int) is None,
            r matches Err(e) ==> match e {
                Error::Handicap(he) => s@.len() > 0 && (s@[0] == 'S' || s@[0] == 's')
                    && Handicap::decode_spec(s@) is None,
                Error::BirthYearOutOfRange(y) => all_digits(s@) && y == digits_int(s@) && abs(
                    reference_year - y,
                ) > 100,
                Error::InvalidClass(t) => t@ == s@,
            },
    {
        proof {
            reveal_strlit("SR");
            reveal_strlit("JR");
        }
        if str_eq(s, "SR") {
            return Ok(Class::Senior);
        }
        if str_eq(s, "JR") {
            return Ok(Class::Junior(None));
        }
        let n = s.unicode_len();
        if n == 0 {
            return Err(Error::InvalidClass(String::from_str(s)));
        }
        let first = s.get_char(0);
        if first == 'S' || first == 's' {
            match Handicap::decode(s) {
                Ok(h) => Ok(Class::Handicap(h)),
                Err(he) => Err(Error::Handicap(he)),
            }
        } else {
            let u = first as u32;
            if u < 48 || u > 57 {
                return Err(Error::InvalidClass(String::from_str(s)));
            }
            match parse_u64(s) {
                Some(v) => {
                    if v > 32767 {
                        return Err(Error::InvalidClass(String::from_str(s)));
                    }
                    let year = v as i16;
                    let delta: i32 = (reference_year as i32) - (year as i32);
                    if delta > 100 || delta < -100 {
                        Err(Error::BirthYearOutOfRange(year))
                    } else {
                        Ok(Class::Junior(Some(year)))
                    }
                },
                None => Err(Error::InvalidClass(String::from_str(s))),
            }
        }
    }

    /// Junior ordinal of this class under a reference year, computed
    /// from the absolute distance between the two years.
    ///
    /// Senior and handicap classes have none; a junior relay without a
    /// birth year has none; and a distance outside 9 to 19 years is an
    /// age outside the junior range.
    pub fn junior_ordinal(&self, reference_year: i16) -> (r: Result<Junior, SetupError>)
        ensures
            self is Senior || self is Handicap ==> (r matches Err(e)
                && e is NotAJuniorVariant),
            self == Class::Junior(None::<i16>) ==> (r matches Err(e)
                && e is TeamRelaysDoesNotHaveJuniorClassGroup),
            self matches Class::Junior(Some(y)) ==> {
                if 9 <= abs(reference_year - *y) <= 19 {
                    r matches Ok(j) && j.age_spec() == abs(reference_year - *y)
                } else {
                    r matches Err(e) && e is AgeNotJunior
                }
            },
    {
        match self {
            Class::Senior => Err(SetupError::NotAJuniorVariant),
            Class::Handicap(_) => Err(SetupError::NotAJuniorVariant),
            Class::Junior(None) => Err(SetupError::TeamRelaysDoesNotHaveJuniorClassGroup),
            Class::Junior(Some(year)) => {
                let delta: i32 = (reference_year as i32) - (*year as i32);
                let diff: u32 = if delta < 0 {
                    (0 - delta) as u32
                } else {
                    delta as u32
                };
                match Junior::from_age_difference(diff) {
                    Ok(j) => Ok(j),
                    Err(_) => Err(SetupError::AgeNotJunior),
                }
            },
        }
    }
}

} // verus!
