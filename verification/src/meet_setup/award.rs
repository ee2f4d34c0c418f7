//! Award policy of an event.

use crate::text::str_eq;
use vstd::prelude::*;

verus! {

/// How prizes are handed out on an event.
#[derive(Debug, Clone, Copy, PartialEq, Eq, Structural)]
pub enum Award {
    /// Use the meet's default award configuration.
    Default,
    /// Medals.
    Medals,
    /// No awards.
    NoAward,
    /// Awards for the top third of the field.
    Third,
}

/// Rejection of an award token.
#[derive(Debug, Clone, PartialEq, Eq)]
pub enum Error {
    /// The token is not one of `DEFAULT`, `MEDALS`, `NO`, `3`; carries the
    /// input.
    UnknownVariant(String),
}

impl Award {
    /// The closed token table: `3`, `NO`, `MEDALS` and `DEFAULT`.
    pub open spec fn decode_spec(s: Seq<char>) -> Option<Award> {
        if s == "3"@ {
            Some(Award::Third)
        } else if s == "NO"@ {
            Some(Award::NoAward)
        } else if s == "MEDALS"@ {
            Some(Award::Medals)
        } else if s == "DEFAULT"@ {
            Some(Award::Default)
        } else {
            None
        }
    }

    /// Decode an award token.
    pub fn decode(s: &str) -> (r: Result<Award, Error>)
        ensures
            r matches Ok(v) ==> Self::decode_spec(s@) == Some(v),
            r is Err <==> Self::decode_spec(s@) is None,
            r matches Err(e) ==> (e matches Error::UnknownVariant(t) && t@ == s@),
    {
        if str_eq(s, "3") {
            Ok(Award::Third)
        } else if str_eq(s, "NO") {
            Ok(Award::NoAward)
        } else if str_eq(s, "MEDALS") {
            Ok(Award::Medals)
        } else if str_eq(s, "DEFAULT") {
            Ok(Award::Default)
        } else {
            Err(Error::UnknownVariant(String::from_str(s)))
        }
    }

    /// The human-readable name of the policy.
    pub open spec fn display_spec(self) -> Seq<char> {
        match self {
            Award::Default => "events default"@,
            Award::Medals => "medals"@,
            Award::NoAward => "none"@,
            Award::Third => "top 1/3"@,
        }
    }

    /// Human-readable award policy, as the table printers show it.
    pub fn display_string(&self) -> (r: String)
        ensures
            r@ == self.display_spec(),
    {
        match self {
            Award::Default => String::from_str("events default"),
            Award::Medals => String::from_str("medals"),
            Award::NoAward => String::from_str("none"),
            Award::Third => String::from_str("top 1/3"),
        }
    }
}

} // verus!
