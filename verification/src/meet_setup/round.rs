//! Competition round of an event.

use crate::text::str_eq;
use vstd::prelude::*;

verus! {

/// Which round of the competition an event belongs to.
#[derive(Debug, Clone, Copy, PartialEq, Eq, Structural)]
pub enum Round {
    /// Final.
    Final,
    /// Final over eight lanes.
    Final8,
    /// Direct final without preliminaries.
    DirectFinal,
    /// Quarter final.
    QuarterFinal,
    /// Semi final.
    SemiFinal,
    /// Preliminary heats.
    Preliminary,
    /// The document leaves the round open.
    Undefined,
}

/// Rejection of a round token.
#[derive(Debug, Clone, PartialEq, Eq)]
pub enum Error {
    /// The token names no round; carries the input.
    UnknownVariant(String),
}

impl Round {
    /// The closed token table of rounds.
    pub open spec fn decode_spec(s: Seq<char>) -> Option<Round> {
        if s == "8FINAL"@ {
            Some(Round::Final8)
        } else if s == "DIRECTFINAL"@ {
            Some(Round::DirectFinal)
        } else if s == "SEMIFINAL"@ {
            Some(Round::SemiFinal)
        } else if s == "FINAL"@ {
            Some(Round::Final)
        } else if s == "PRELIMINARY"@ {
            Some(Round::Preliminary)
        } else if s == "QUARTERFINAL"@ {
            Some(Round::QuarterFinal)
        } else if s == "UNDEFINED"@ {
            Some(Round::Undefined)
        } else {
            None
        }
    }

    /// Decode a round token.
    pub fn decode(s: &str) -> (r: Result<Round, Error>)
        ensures
            r matches Ok(v) ==> Self::decode_spec(s@) == Some(v),
            r is Err <==> Self::decode_spec(s@) is None,
            r matches Err(e) ==> (e matches Error::UnknownVariant(t) && t@ == s@),
    {
        if str_eq(s, "8FINAL") {
            Ok(Round::Final8)
        } else if str_eq(s, "DIRECTFINAL") {
            Ok(Round::DirectFinal)
        } else if str_eq(s, "SEMIFINAL") {
            Ok(Round::SemiFinal)
        } else if str_eq(s, "FINAL") {
            Ok(Round::Final)
        } else if str_eq(s, "PRELIMINARY") {
            Ok(Round::Preliminary)
        } else if str_eq(s, "QUARTERFINAL") {
            Ok(Round::QuarterFinal)
        } else if str_eq(s, "UNDEFINED") {
            Ok(Round::Undefined)
        } else {
            Err(Error::UnknownVariant(String::from_str(s)))
        }
    }

    /// The human-readable name of the round.
    pub open spec fn display_spec(self) -> Seq<char> {
        match self {
            Round::Final => "final"@,
            Round::SemiFinal => "semi final"@,
            Round::QuarterFinal => "quarter final"@,
            Round::Final8 => "8 final"@,
            Round::DirectFinal => "direct final"@,
            Round::Preliminary => "preliminary"@,
            Round::Undefined => "undefined"@,
        }
    }

    /// Human-readable round name, as the table printers show it.
    pub fn display_string(&self) -> (r: String)
        ensures
            r@ == self.display_spec(),
    {
        match self {
            Round::Final => String::from_str("final"),
            Round::SemiFinal => String::from_str("semi final"),
            Round::QuarterFinal => String::from_str("quarter final"),
            Round::Final8 => String::from_str("8 final"),
            Round::DirectFinal => String::from_str("direct final"),
            Round::Preliminary => String::from_str("preliminary"),
            Round::Undefined => String::from_str("undefined"),
        }
    }
}

} // verus!
