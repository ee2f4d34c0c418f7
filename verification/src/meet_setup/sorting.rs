//! Heat-ordering strategy of an event.
//!
//! Sorting distributes athletes across the heats of one event. The
//! strategies are decoded here by name only; the ordering algorithms
//! themselves are run by the meet software, not by this crate.

use crate::text::str_eq;
use vstd::prelude::*;

verus! {

/// Named heat-ordering strategy.
#[derive(Debug, Clone, Copy, PartialEq, Eq, Structural)]
pub enum Sorting {
    /// Fastest entry time in the center lane of the last heat.
    Final,
    /// Sort by age group, then by entry time.
    FinalAgeGroupTime,
    /// Sort by entry time, then by age group.
    FinalTimeAgeGroup,
    /// Part final.
    PartFinal,
    /// Alternative ordering.
    Alternative,
    /// Age group and time, with younger and female classes split.
    FinalAgeGroupTimeSplitYF,
    /// Handicap finals, senior preliminaries, junior finals.
    Hcfinsrprejrfin,
    /// Preliminary heats.
    Preliminary,
    /// Handicap preliminaries, senior preliminaries, junior finals.
    Hcpresrprejrfin,
    /// Handicap finals and senior finals.
    Hcfinsrfin,
    /// Age group D final.
    AgeGroupeDFinal,
}

/// Rejection of a sorting token.
#[derive(Debug, Clone, PartialEq, Eq)]
pub enum Error {
    /// The token names no sorting strategy; carries the input.
    UnknownVariant(String),
}

impl Sorting {
    /// The closed token table of sorting strategies.
    pub open spec fn decode_spec(s: Seq<char>) -> Option<Sorting> {
        if s == "AGEGROUPEDFINAL"@ {
            Some(Sorting::AgeGroupeDFinal)
        } else if s == "FINAL"@ {
            Some(Sorting::Final)
        } else if s == "PARTFINAL"@ {
            Some(Sorting::PartFinal)
        } else if s == "FINALAGEGROUPTIME"@ {
            Some(Sorting::FinalAgeGroupTime)
        } else if s == "FINALTIMEAGEGROUP"@ {
            Some(Sorting::FinalTimeAgeGroup)
        } else if s == "HCFINSRFIN"@ {
            Some(Sorting::Hcfinsrfin)
        } else if s == "PRELIMINARY"@ {
            Some(Sorting::Preliminary)
        } else if s == "ALTERNATIVE"@ {
            Some(Sorting::Alternative)
        } else if s == "HCFINSRPREJRFIN"@ {
            Some(Sorting::Hcfinsrprejrfin)
        } else if s == "HCPRESRPREJRFIN"@ {
            Some(Sorting::Hcpresrprejrfin)
        } else if s == "FINALAGEGROUPTIMESPLITYF"@ {
            Some(Sorting::FinalAgeGroupTimeSplitYF)
        } else {
            None
        }
    }

    /// Decode a sorting token.
    pub fn decode(s: &str) -> (r: Result<Sorting, Error>)
        ensures
            r matches Ok(v) ==> Self::decode_spec(s@) == Some(v),
            r is Err <==> Self::decode_spec(s@) is None,
            r matches Err(e) ==> (e matches Error::UnknownVariant(t) && t@ == s@),
    {
        if str_eq(s, "AGEGROUPEDFINAL") {
            Ok(Sorting::AgeGroupeDFinal)
        } else if str_eq(s, "FINAL") {
            Ok(Sorting::Final)
        } else if str_eq(s, "PARTFINAL") {
            Ok(Sorting::PartFinal)
        } else if str_eq(s, "FINALAGEGROUPTIME") {
            Ok(Sorting::FinalAgeGroupTime)
        } else if str_eq(s, "FINALTIMEAGEGROUP") {
            Ok(Sorting::FinalTimeAgeGroup)
        } else if str_eq(s, "HCFINSRFIN") {
            Ok(Sorting::Hcfinsrfin)
        } else if str_eq(s, "PRELIMINARY") {
            Ok(Sorting::Preliminary)
        } else if str_eq(s, "ALTERNATIVE") {
            Ok(Sorting::Alternative)
        } else if str_eq(s, "HCFINSRPREJRFIN") {
            Ok(Sorting::Hcfinsrprejrfin)
        } else if str_eq(s, "HCPRESRPREJRFIN") {
            Ok(Sorting::Hcpresrprejrfin)
        } else if str_eq(s, "FINALAGEGROUPTIMESPLITYF") {
            Ok(Sorting::FinalAgeGroupTimeSplitYF)
        } else {
            Err(Error::UnknownVariant(String::from_str(s)))
        }
    }

    /// The human-readable name of the strategy.
    pub open spec fn display_spec(self) -> Seq<char> {
        match self {
            Sorting::AgeGroupeDFinal => "Age group D Final"@,
            Sorting::Final => "Final"@,
            Sorting::FinalAgeGroupTime => "Final, age then time"@,
            Sorting::FinalTimeAgeGroup => "Final, time then age"@,
            Sorting::PartFinal => "PartFinal"@,
            Sorting::Alternative => "Alternative"@,
            Sorting::FinalAgeGroupTimeSplitYF => "FinalAgeGroupTimeSplitYF"@,
            Sorting::Hcfinsrprejrfin => "HCfinsrprejrfin"@,
            Sorting::Preliminary => "preliminary"@,
            Sorting::Hcpresrprejrfin => "Hcpresrprejrfin"@,
            Sorting::Hcfinsrfin => "Hcfinsrfin"@,
        }
    }

    /// Human-readable strategy name, as the table printers show it.
    pub fn display_string(&self) -> (r: String)
        ensures
            r@ == self.display_spec(),
    {
        match self {
            Sorting::AgeGroupeDFinal => String::from_str("Age group D Final"),
            Sorting::Final => String::from_str("Final"),
            Sorting::FinalAgeGroupTime => String::from_str("Final, age then time"),
            Sorting::FinalTimeAgeGroup => String::from_str("Final, time then age"),
            Sorting::PartFinal => String::from_str("PartFinal"),
            Sorting::Alternative => String::from_str("Alternative"),
            Sorting::FinalAgeGroupTimeSplitYF => String::from_str("FinalAgeGroupTimeSplitYF"),
            Sorting::Hcfinsrprejrfin => String::from_str("HCfinsrprejrfin"),
            Sorting::Preliminary => String::from_str("preliminary"),
            Sorting::Hcpresrprejrfin => String::from_str("Hcpresrprejrfin"),
            Sorting::Hcfinsrfin => String::from_str("Hcfinsrfin"),
        }
    }
}

} // verus!
