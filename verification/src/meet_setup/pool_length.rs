//! Length of the competition pool.

use crate::text::{all_digits, digits_int, parse_u8};
use vstd::prelude::*;

verus! {

/// Length of the pool.
#[derive(Debug, Clone, Copy, PartialEq, Eq, Structural)]
pub enum PoolLength {
    /// 25 meter pool, often called "short course".
    PoolLength25,
    /// 50 meter pool, often called "long course".
    PoolLength50,
}

/// Rejection of a pool-length value.
#[derive(Debug, Clone, PartialEq, Eq)]
pub enum Error {
    /// A number that is not a pool length in use.
    PoolLengthDoesNotExists,
    /// Not a number at all; carries the input.
    TryFrom(String),
}

impl PoolLength {
    /// The pool lengths in use, by their meter count.
    pub open spec fn from_meters_spec(meters: int) -> Option<PoolLength> {
        if meters == 25 {
            Some(PoolLength::PoolLength25)
        } else if meters == 50 {
            Some(PoolLength::PoolLength50)
        } else {
            None
        }
    }

    /// Meter count of the pool.
    pub open spec fn meters_spec(self) -> int {
        match self {
            PoolLength::PoolLength25 => 25,
            PoolLength::PoolLength50 => 50,
        }
    }

    /// Classify a meter count as one of the pool lengths in use.
    pub fn from_meters(meters: u8) -> (r: Result<PoolLength, Error>)
        ensures
            r matches Ok(v) ==> Self::from_meters_spec(meters as int) == Some(v),
            r is Err <==> Self::from_meters_spec(meters as int) is None,
            r matches Err(e) ==> e is PoolLengthDoesNotExists,
    {
        match meters {
            25 => Ok(PoolLength::PoolLength25),
            50 => Ok(PoolLength::PoolLength50),
            _ => Err(Error::PoolLengthDoesNotExists),
        }
    }

    /// Meter count of the pool.
    pub fn meters(&self) -> (r: u8)
        ensures
            r == self.meters_spec(),
    {
        match self {
            PoolLength::PoolLength25 => 25,
            PoolLength::PoolLength50 => 50,
        }
    }

    /// A decimal number naming one of the pool lengths in use.
    pub open spec fn decode_spec(s: Seq<char>) -> Option<PoolLength> {
        if s.len() > 0 && all_digits(s) && digits_int(s) == 25 {
            Some(PoolLength::PoolLength25)
        } else if s.len() > 0 && all_digits(s) && digits_int(s) == 50 {
            Some(PoolLength::PoolLength50)
        } else {
            None
        }
    }

    /// Decode a pool-length field, written as a decimal meter count.
    ///
    /// A value that is not a number is an [`Error::TryFrom`] carrying the
    /// input; a number other than 25 or 50 is
    /// [`Error::PoolLengthDoesNotExists`].
    pub fn decode(s: &str) -> (r: Result<PoolLength, Error>)
        ensures
            r matches Ok(v) ==> Self::decode_spec(s@) == Some(v),
            r is Err <==> Self::decode_spec(s@) is None,
            r matches Err(e) ==> match e {
                Error::TryFrom(t) => t@ == s@ && (s@.len() == 0 || !all_digits(s@) || digits_int(
                    s@,
                ) > u8::MAX),
                Error::PoolLengthDoesNotExists => s@.len() > 0 && all_digits(s@) && digits_int(s@)
                    <= u8::MAX,
            },
    {
        match parse_u8(s) {
            Some(v) => match PoolLength::from_meters(v) {
                Ok(p) => Ok(p),
                Err(_) => Err(Error::PoolLengthDoesNotExists),
            },
            None => Err(Error::TryFrom(String::from_str(s))),
        }
    }

    /// The meter count followed by the unit.
    pub open spec fn display_spec(self) -> Seq<char> {
        match self {
            PoolLength::PoolLength25 => "25m"@,
            PoolLength::PoolLength50 => "50m"@,
        }
    }

    /// Human-readable pool length, as the table printers show it.
    pub fn display_string(&self) -> (r: String)
        ensures
            r@ == self.display_spec(),
    {
        match self {
            PoolLength::PoolLength25 => String::from_str("25m"),
            PoolLength::PoolLength50 => String::from_str("50m"),
        }
    }
}

} // verus!
