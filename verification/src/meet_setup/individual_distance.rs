//! Distances swum by a single athlete.

use crate::text::{all_digits, digits_int, parse_u16};
use vstd::prelude::*;

verus! {

/// The fixed table of individual distances, in meters.
#[derive(Debug, Clone, Copy, PartialEq, Eq, Structural)]
pub enum Individual {
    /// 25 m.
    Distance25,
    /// 50 m.
    Distance50,
    /// 100 m.
    Distance100,
    /// 150 m.
    Distance150,
    /// 200 m.
    Distance200,
    /// 400 m.
    Distance400,
    /// 800 m.
    Distance800,
    /// 1500 m.
    Distance1500,
}

/// Rejection of an individual-distance value.
#[derive(Debug, Clone, PartialEq, Eq)]
pub enum Error {
    /// Not a number at all; carries the input.
    Convert(String),
    /// A number outside the fixed distance table.
    InvalidDistance,
}

impl Individual {
    /// The fixed meter table; other totals fail.
    pub open spec fn from_meters_spec(meters: int) -> Option<Individual> {
        if meters == 25 {
            Some(Individual::Distance25)
        } else if meters == 50 {
            Some(Individual::Distance50)
        } else if meters == 100 {
            Some(Individual::Distance100)
        } else if meters == 150 {
            Some(Individual::Distance150)
        } else if meters == 200 {
            Some(Individual::Distance200)
        } else if meters == 400 {
            Some(Individual::Distance400)
        } else if meters == 800 {
            Some(Individual::Distance800)
        } else if meters == 1500 {
            Some(Individual::Distance1500)
        } else {
            None
        }
    }

    /// Total meters swum.
    pub open spec fn meters_spec(self) -> int {
        match self {
            Individual::Distance25 => 25,
            Individual::Distance50 => 50,
            Individual::Distance100 => 100,
            Individual::Distance150 => 150,
            Individual::Distance200 => 200,
            Individual::Distance400 => 400,
            Individual::Distance800 => 800,
            Individual::Distance1500 => 1500,
        }
    }

    /// Classify a meter count as an individual distance of the fixed
    /// table.
    pub fn from_meters(meters: u16) -> (r: Result<Individual, Error>)
        ensures
            r matches Ok(v) ==> Self::from_meters_spec(meters as int) == Some(v),
            r is Err <==> Self::from_meters_spec(meters as int) is None,
            r matches Err(e) ==> e is InvalidDistance,
    {
        match meters {
            25 => Ok(Individual::Distance25),
            50 => Ok(Individual::Distance50),
            100 => Ok(Individual::Distance100),
            150 => Ok(Individual::Distance150),
            200 => Ok(Individual::Distance200),
            400 => Ok(Individual::Distance400),
            800 => Ok(Individual::Distance800),
            1500 => Ok(Individual::Distance1500),
            _ => Err(Error::InvalidDistance),
        }
    }

    /// Total meters swum.
    pub fn meters(&self) -> (r: u16)
        ensures
            r == self.meters_spec(),
    {
        match self {
            Individual::Distance25 => 25,
            Individual::Distance50 => 50,
            Individual::Distance100 => 100,
            Individual::Distance150 => 150,
            Individual::Distance200 => 200,
            Individual::Distance400 => 400,
            Individual::Distance800 => 800,
            Individual::Distance1500 => 1500,
        }
    }

    /// A decimal number naming a distance of the fixed table.
    pub open spec fn decode_spec(s: Seq<char>) -> Option<Individual> {
        if s.len() > 0 && all_digits(s) && digits_int(s) <= u16::MAX {
            Self::from_meters_spec(digits_int(s))
        } else {
            None
        }
    }

    /// Decode an individual-distance field, written as a decimal meter
    /// count.
    pub fn decode(s: &str) -> (r: Result<Individual, Error>)
        ensures
            r matches Ok(v) ==> Self::decode_spec(s@) == Some(v),
            r is Err <==> Self::decode_spec(s@) is None,
            r matches Err(e) ==> match e {
                Error::Convert(t) => t@ == s@ && (s@.len() == 0 || !all_digits(s@) || digits_int(
                    s@,
                ) > u16::MAX),
                Error::InvalidDistance => s@.len() > 0 && all_digits(s@) && digits_int(s@)
                    <= u16::MAX,
            },
    {
        match parse_u16(s) {
            Some(meters) => Individual::from_meters(meters),
            None => Err(Error::Convert(String::from_str(s))),
        }
    }

    /// The canonical decimal token of the distance.
    pub open spec fn display_spec(self) -> Seq<char> {
        match self {
            Individual::Distance25 => "25"@,
            Individual::Distance50 => "50"@,
            Individual::Distance100 => "100"@,
            Individual::Distance150 => "150"@,
            Individual::Distance200 => "200"@,
            Individual::Distance400 => "400"@,
            Individual::Distance800 => "800"@,
            Individual::Distance1500 => "1500"@,
        }
    }

    /// Canonical token of the distance, the same spelling the decoder
    /// accepts.
    pub fn display_string(&self) -> (r: String)
        ensures
            r@ == self.display_spec(),
    {
        match self {
            Individual::Distance25 => String::from_str("25"),
            Individual::Distance50 => String::from_str("50"),
            Individual::Distance100 => String::from_str("100"),
            Individual::Distance150 => String::from_str("150"),
            Individual::Distance200 => String::from_str("200"),
            Individual::Distance400 => String::from_str("400"),
            Individual::Distance800 => String::from_str("800"),
            Individual::Distance1500 => String::from_str("1500"),
        }
    }

    /// The distances sanctioned for record keeping: 50, 100, 200, 400,
    /// 800 and 1500 m. The 25 m and 150 m distances are unofficial.
    pub open spec fn is_official_spec(self) -> bool {
        match self {
            Individual::Distance25 => false,
            Individual::Distance50 => true,
            Individual::Distance100 => true,
            Individual::Distance150 => false,
            Individual::Distance200 => true,
            Individual::Distance400 => true,
            Individual::Distance800 => true,
            Individual::Distance1500 => true,
        }
    }

    /// Whether the distance is sanctioned for record keeping.
    pub fn is_official(&self) -> (r: bool)
        ensures
            r == self.is_official_spec(),
    {
        match self {
            Individual::Distance25 => false,
            Individual::Distance50 => true,
            Individual::Distance100 => true,
            Individual::Distance150 => false,
            Individual::Distance200 => true,
            Individual::Distance400 => true,
            Individual::Distance800 => true,
            Individual::Distance1500 => true,
        }
    }
}

} // verus!
