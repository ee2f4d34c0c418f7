//! Distances swum by relay teams.

use crate::text::str_eq;
use vstd::prelude::*;

verus! {

/// The fixed table of relay distances: leg count times per-leg distance,
/// plus the legacy bare `1000` total.
#[derive(Debug, Clone, Copy, PartialEq, Eq, Structural)]
pub enum Team {
    /// 4 x 25 m.
    Distance4x25,
    /// 4 x 50 m.
    Distance4x50,
    /// 6 x 50 m.
    Distance6x50,
    /// 4 x 100 m.
    Distance4x100,
    /// 8 x 50 m.
    Distance8x50,
    /// 4 x 200 m.
    Distance4x200,
    /// 4 x 400 m.
    Distance4x400,
    /// The legacy 1000 m total, written without a leg count.
    Distance1000,
}

/// Rejection of a relay-distance value.
#[derive(Debug, Clone, PartialEq, Eq)]
pub enum Error {
    /// A bare total shared with an individual distance; refusing to guess.
    IndistinguishableDistance,
    /// Not a relay token at all; carries the input.
    Convert(String),
    /// A token outside the fixed relay table.
    InvalidDistance,
}

impl Team {
    /// The closed token table of relay distances.
    pub open spec fn decode_spec(s: Seq<char>) -> Option<Team> {
        if s == "4*25"@ {
            Some(Team::Distance4x25)
        } else if s == "4*50"@ {
            Some(Team::Distance4x50)
        } else if s == "6*50"@ {
            Some(Team::Distance6x50)
        } else if s == "4*100"@ {
            Some(Team::Distance4x100)
        } else if s == "8*50"@ {
            Some(Team::Distance8x50)
        } else if s == "4*200"@ {
            Some(Team::Distance4x200)
        } else if s == "4*400"@ {
            Some(Team::Distance4x400)
        } else if s == "1000"@ {
            Some(Team::Distance1000)
        } else {
            None
        }
    }

    /// Decode a relay-distance token.
    pub fn decode(s: &str) -> (r: Result<Team, Error>)
        ensures
            r matches Ok(v) ==> Self::decode_spec(s@) == Some(v),
            r is Err <==> Self::decode_spec(s@) is None,
            r matches Err(e) ==> e is InvalidDistance,
    {
        if str_eq(s, "4*25") {
            Ok(Team::Distance4x25)
        } else if str_eq(s, "4*50") {
            Ok(Team::Distance4x50)
        } else if str_eq(s, "6*50") {
            Ok(Team::Distance6x50)
        } else if str_eq(s, "4*100") {
            Ok(Team::Distance4x100)
        } else if str_eq(s, "8*50") {
            Ok(Team::Distance8x50)
        } else if str_eq(s, "4*200") {
            Ok(Team::Distance4x200)
        } else if str_eq(s, "4*400") {
            Ok(Team::Distance4x400)
        } else if str_eq(s, "1000") {
            Ok(Team::Distance1000)
        } else {
            Err(Error::InvalidDistance)
        }
    }

    /// Number of legs of the relay; the legacy 1000 m total has no
    /// recorded leg count and is counted as one leg.
    pub open spec fn laps_spec(self) -> int {
        match self {
            Team::Distance4x25 => 4,
            Team::Distance4x50 => 4,
            Team::Distance6x50 => 6,
            Team::Distance4x100 => 4,
            Team::Distance8x50 => 8,
            Team::Distance4x200 => 4,
            Team::Distance4x400 => 4,
            Team::Distance1000 => 1,
        }
    }

    /// Total meters swum by the whole team.
    pub open spec fn total_meters_spec(self) -> int {
        match self {
            Team::Distance4x25 => 100,
            Team::Distance4x50 => 200,
            Team::Distance6x50 => 300,
            Team::Distance4x100 => 400,
            Team::Distance8x50 => 400,
            Team::Distance4x200 => 800,
            Team::Distance4x400 => 1600,
            Team::Distance1000 => 1000,
        }
    }

    /// Total meters swum by the whole team.
    pub fn total_meters(&self) -> (r: u16)
        ensures
            r == self.total_meters_spec(),
    {
        match self {
            Team::Distance4x25 => 100,
            Team::Distance4x50 => 200,
            Team::Distance6x50 => 300,
            Team::Distance4x100 => 400,
            Team::Distance8x50 => 400,
            Team::Distance4x200 => 800,
            Team::Distance4x400 => 1600,
            Team::Distance1000 => 1000,
        }
    }

    /// The canonical token of the relay distance.
    pub open spec fn display_spec(self) -> Seq<char> {
        match self {
            Team::Distance4x25 => "4*25"@,
            Team::Distance4x50 => "4*50"@,
            Team::Distance6x50 => "6*50"@,
            Team::Distance4x100 => "4*100"@,
            Team::Distance8x50 => "8*50"@,
            Team::Distance4x200 => "4*200"@,
            Team::Distance4x400 => "4*400"@,
            Team::Distance1000 => "1000"@,
        }
    }

    /// Canonical token of the relay distance, the same spelling the
    /// decoder accepts.
    pub fn display_string(&self) -> (r: String)
        ensures
            r@ == self.display_spec(),
    {
        match self {
            Team::Distance4x25 => String::from_str("4*25"),
            Team::Distance4x50 => String::from_str("4*50"),
            Team::Distance6x50 => String::from_str("6*50"),
            Team::Distance4x100 => String::from_str("4*100"),
            Team::Distance8x50 => String::from_str("8*50"),
            Team::Distance4x200 => String::from_str("4*200"),
            Team::Distance4x400 => String::from_str("4*400"),
            Team::Distance1000 => String::from_str("1000"),
        }
    }

    /// The relays sanctioned for record keeping: 4 x 50, 4 x 100 and
    /// 4 x 200 m. All others are unofficial.
    pub open spec fn is_official_spec(self) -> bool {
        match self {
            Team::Distance4x50 => true,
            Team::Distance4x100 => true,
            Team::Distance4x200 => true,
            _ => false,
        }
    }

    /// Whether the relay distance is sanctioned for record keeping.
    pub fn is_official(&self) -> (r: bool)
        ensures
            r == self.is_official_spec(),
    {
        match self {
            Team::Distance4x50 => true,
            Team::Distance4x100 => true,
            Team::Distance4x200 => true,
            _ => false,
        }
    }
}

} // verus!
