//! Ranking policy of the "Australian model" meet configuration.

use crate::text::str_eq;
use vstd::prelude::*;

verus! {

/// How athletes are ranked under the Australian model.
#[derive(Debug, Clone, Copy, PartialEq, Eq, Structural)]
pub enum AustralianRank {
    /// Ranking by percentage of the reference record.
    Percent,
}

/// Rejection of an Australian-rank token.
#[derive(Debug, Clone, PartialEq, Eq)]
pub enum Error {
    /// The token names no ranking policy; carries the input.
    DoesNotExists(String),
}

impl AustralianRank {
    /// The token table; the vendor data writes the value both in upper
    /// case and in lower case.
    pub open spec fn decode_spec(s: Seq<char>) -> Option<AustralianRank> {
        if s == "PERCENT"@ {
            Some(AustralianRank::Percent)
        } else if s == "percent"@ {
            Some(AustralianRank::Percent)
        } else {
            None
        }
    }

    /// Decode an Australian-rank token.
    pub fn decode(s: &str) -> (r: Result<AustralianRank, Error>)
        ensures
            r matches Ok(v) ==> Self::decode_spec(s@) == Some(v),
            r is Err <==> Self::decode_spec(s@) is None,
            r matches Err(e) ==> (e matches Error::DoesNotExists(t) && t@ == s@),
    {
        if str_eq(s, "PERCENT") {
            Ok(AustralianRank::Percent)
        } else if str_eq(s, "percent") {
            Ok(AustralianRank::Percent)
        } else {
            Err(Error::DoesNotExists(String::from_str(s)))
        }
    }

    /// The human-readable name of the policy.
    pub open spec fn display_spec(self) -> Seq<char> {
        "percent"@
    }

    /// Human-readable ranking policy.
    pub fn display_string(&self) -> (r: String)
        ensures
            r@ == self.display_spec(),
    {
        String::from_str("percent")
    }
}

} // verus!
