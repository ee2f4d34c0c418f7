//! Decoder for the `uni_p.txt` enrollment format.
//!
//! The format is a comma-separated text whose exact layout the vendor
//! never documented; only the event number, distance, style, enrollment
//! time and pool length columns are clearly fixed, and only those are
//! decoded here. The gender and class columns are left undecoded until
//! the real file layout is clarified.

use crate::meet_setup::distance::Distance;
use crate::meet_setup::gender_class::GenderClass;
use crate::meet_setup::gender_group::GenderGroup;
use crate::meet_setup::pool_length::PoolLength;
use crate::meet_setup::style::Style;
use crate::text::{all_digits, digits_int, find_char, index_of, parse_u64, str_eq, uint_in_range};
use vstd::prelude::*;

verus! {

/// One enrollment entry of a club's `uni_p.txt` file.
#[derive(Debug, Clone, PartialEq, Eq)]
pub struct EnrollmentEntry {
    /// Number of the event enrolled to.
    pub event_number: u8,
    /// Distance of the event.
    pub distance: Distance,
    /// Style of the event.
    pub style: Style,
    /// Name of the athlete or team.
    pub name: String,
    /// Enrollment time in whole milliseconds.
    pub enrollment_time: u64,
    /// Pool length of the enrollment time.
    pub pool_length: PoolLength,
    /// Gender of the athlete or team.
    pub gender_group: GenderGroup,
    /// Combined gender and class token.
    pub gender_class: GenderClass,
    /// Individual or relay enrollment.
    pub enrollment_variant: EnrollmentVariant,
}

/// Whether an enrollment is for one athlete or a relay team.
#[derive(Debug, Clone, PartialEq, Eq)]
pub enum EnrollmentVariant {
    /// One athlete.
    Individual(EnrollmentIndividual),
    /// A relay team.
    Relay(EnrollmentRelay),
}

/// The athlete of an individual enrollment.
#[derive(Debug, Clone, PartialEq, Eq)]
pub struct EnrollmentIndividual {
    /// First name.
    pub name: String,
    /// Surname.
    pub surname: String,
}

/// The team of a relay enrollment.
#[derive(Debug, Clone, PartialEq, Eq)]
pub struct EnrollmentRelay {
    /// Team name.
    pub team_name: String,
}

/// The columns of an enrollment line this decoder reads.
#[derive(Debug, Clone, Copy, PartialEq, Eq, Structural)]
pub enum Field {
    /// The event number column.
    EventNumber,
    /// The distance column.
    Distance,
    /// The style column.
    Style,
    /// The enrollment time column.
    Duration,
    /// The pool length column.
    PoolLength,
}

impl Field {
    /// The human-readable name of the column.
    pub open spec fn display_spec(self) -> Seq<char> {
        match self {
            Field::EventNumber => "event number"@,
            Field::Distance => "distance"@,
            Field::Style => "style"@,
            Field::Duration => "duration"@,
            Field::PoolLength => "pool length"@,
        }
    }

    /// Human-readable column name for error output.
    pub fn display_string(&self) -> (r: String)
        ensures
            r@ == self.display_spec(),
    {
        match self {
            Field::EventNumber => String::from_str("event number"),
            Field::Distance => String::from_str("distance"),
            Field::Style => String::from_str("style"),
            Field::Duration => String::from_str("duration"),
            Field::PoolLength => String::from_str("pool length"),
        }
    }
}

/// Rejection of an enrollment line.
#[derive(Debug, Clone, PartialEq, Eq)]
pub enum Error {
    /// The line has too few columns; names the first absent one.
    Missing(Field),
    /// The column value is outside its vocabulary.
    Unrecognized(Field),
    /// The column value does not parse as a number; carries the raw
    /// value.
    Parse(Field, String),
}

/// An enrollment time written as `M:ss.d`: minutes, a colon, seconds, a
/// dot and decisecond digits, each group decimal and at most `u16`-sized.
pub open spec fn enrollment_duration_spec(s: Seq<char>) -> Option<int> {
    let i = find_char(s, ':', 0);
    if i < 0 {
        None
    } else {
        let j = find_char(s, '.', i + 1);
        if j < 0 {
            None
        } else {
            let m = s.subrange(0, i);
            let sec = s.subrange(i + 1, j);
            let d = s.subrange(j + 1, s.len() as int);
            if uint_in_range(m, u16::MAX as int) && uint_in_range(sec, u16::MAX as int)
                && uint_in_range(d, u16::MAX as int) {
                Some(digits_int(m) * 60000 + digits_int(sec) * 1000 + digits_int(d) * 10)
            } else {
                None
            }
        }
    }
}

/// Decode an `M:ss.d` enrollment time into whole milliseconds.
pub fn parse_enrollment_duration(s: &str) -> (r: Option<u64>)
    ensures
        match r {
            Some(v) => enrollment_duration_spec(s@) == Some(v as int),
            None => enrollment_duration_spec(s@) is None,
        },
{
    let n = s.unicode_len();
    let i = match index_of(s, ':', 0) {
        Some(i) => i,
        None => {
            return None;
        },
    };
    let j = match index_of(s, '.', i + 1) {
        Some(j) => j,
        None => {
            return None;
        },
    };
    let m_part = s.substring_char(0, i);
    let sec_part = s.substring_char(i + 1, j);
    let d_part = s.substring_char(j + 1, n);
    proof {
        assert(m_part@ =~= s@.subrange(0, i as int));
        assert(sec_part@ =~= s@.subrange(i as int + 1, j as int));
        assert(d_part@ =~= s@.subrange(j as int + 1, s@.len() as int));
    }
    let m = match parse_u64(m_part) {
        Some(v) => v,
        None => {
            return None;
        },
    };
    let sec = match parse_u64(sec_part) {
        Some(v) => v,
        None => {
            return None;
        },
    };
    let d = match parse_u64(d_part) {
        Some(v) => v,
        None => {
            return None;
        },
    };
    if m > 0xffff || sec > 0xffff || d > 0xffff {
        return None;
    }
    Some(m * 60000 + sec * 1000 + d * 10)
}

/// Decode the clearly specified columns of one enrollment line, already
/// split into comma-separated fields by the caller: the event number
/// (column 0), distance (1), style (2), enrollment time (5) and pool
/// length (6, `K` short course or `L` long course). The name columns (3
/// and 4) and the gender and class columns are left to the caller, as
/// the vendor's layout for them is unresolved.
pub fn decode_entry_fields(fields: &Vec<String>) -> (r: Result<
    (u8, Distance, Style, u64, PoolLength),
    Error,
>)
    ensures
        r is Ok <==> {
            &&& fields@.len() >= 7
            &&& uint_in_range(fields@[0]@, u8::MAX as int)
            &&& Distance::decode_spec(fields@[1]@) is Some
            &&& Style::decode_spec(fields@[2]@) is Some
            &&& enrollment_duration_spec(fields@[5]@) is Some
            &&& pool_code_spec(fields@[6]@) is Some
        },
        r matches Ok(v) ==> {
            &&& digits_int(fields@[0]@) == v.0
            &&& Distance::decode_spec(fields@[1]@) == Some(v.1)
            &&& Style::decode_spec(fields@[2]@) == Some(v.2)
            &&& enrollment_duration_spec(fields@[5]@) == Some(v.3 as int)
            &&& pool_code_spec(fields@[6]@) == Some(v.4)
        },
        r matches Err(e) ==> match e {
            Error::Missing(f) => match f {
                Field::EventNumber => fields@.len() < 1,
                Field::Distance => fields@.len() == 1,
                Field::Style => fields@.len() == 2,
                Field::Duration => 3 <= fields@.len() < 6,
                Field::PoolLength => fields@.len() == 6,
            },
            Error::Parse(f, t) => f is EventNumber && t@ == fields@[0]@ && !uint_in_range(
                fields@[0]@,
                u8::MAX as int,
            ),
            Error::Unrecognized(f) => match f {
                Field::Distance => Distance::decode_spec(fields@[1]@) is None,
                Field::Style => Style::decode_spec(fields@[2]@) is None,
                Field::Duration => enrollment_duration_spec(fields@[5]@) is None,
                Field::PoolLength => pool_code_spec(fields@[6]@) is None,
                Field::EventNumber => false,
            },
        },
{
    if fields.len() < 1 {
        return Err(Error::Missing(Field::EventNumber));
    }
    if fields.len() < 2 {
        return Err(Error::Missing(Field::Distance));
    }
    if fields.len() < 3 {
        return Err(Error::Missing(Field::Style));
    }
    if fields.len() < 6 {
        return Err(Error::Missing(Field::Duration));
    }
    if fields.len() < 7 {
        return Err(Error::Missing(Field::PoolLength));
    }
    let event_number = match crate::text::parse_u8(fields[0].as_str()) {
        Some(v) => v,
        None => {
            return Err(Error::Parse(Field::EventNumber, fields[0].clone()));
        },
    };
    let distance = match Distance::decode(fields[1].as_str()) {
        Ok(v) => v,
        Err(_) => {
            return Err(Error::Unrecognized(Field::Distance));
        },
    };
    let style = match Style::decode(fields[2].as_str()) {
        Ok(v) => v,
        Err(_) => {
            return Err(Error::Unrecognized(Field::Style));
        },
    };
    let duration = match parse_enrollment_duration(fields[5].as_str()) {
        Some(v) => v,
        None => {
            return Err(Error::Unrecognized(Field::Duration));
        },
    };
    let pool_length = match pool_code(fields[6].as_str()) {
        Some(v) => v,
        None => {
            return Err(Error::Unrecognized(Field::PoolLength));
        },
    };
    Ok((event_number, distance, style, duration, pool_length))
}

/// The pool-length letters of the enrollment format: `K` is the short
/// 25 m course, `L` the long 50 m course.
pub open spec fn pool_code_spec(t: Seq<char>) -> Option<PoolLength> {
    if t == "K"@ {
        Some(PoolLength::PoolLength25)
    } else if t == "L"@ {
        Some(PoolLength::PoolLength50)
    } else {
        None
    }
}

/// Decode the pool-length letter of an enrollment line.
pub fn pool_code(s: &str) -> (r: Option<PoolLength>)
    ensures
        match r {
            Some(v) => pool_code_spec(s@) == Some(v),
            None => pool_code_spec(s@) is None,
        },
{
    if str_eq(s, "K") {
        Some(PoolLength::PoolLength25)
    } else if str_eq(s, "L") {
        Some(PoolLength::PoolLength50)
    } else {
        None
    }
}

} // verus!
