//! Gender restriction of an event or enrollment.

use crate::text::str_eq;
use vstd::prelude::*;

verus! {

/// Which athletes can enroll on an event.
#[derive(Debug, Clone, Copy, PartialEq, Eq, Structural)]
pub enum GenderGroup {
    /// Restricts athletes to male participants only.
    Male,
    /// Restricts athletes to female participants only.
    Female,
    /// Both genders enroll freely.
    Mixed,
}

/// Rejection of a gender-group token.
#[derive(Debug, Clone, PartialEq, Eq)]
pub enum Error {
    /// The token is not one of `MALE`, `FEMALE`, `MIXED`; carries the input.
    UnknownVariant(String),
}

impl GenderGroup {
    /// The closed token table: `MALE`, `FEMALE` and `MIXED`.
    pub open spec fn decode_spec(s: Seq<char>) -> Option<GenderGroup> {
        if s == "MALE"@ {
            Some(GenderGroup::Male)
        } else if s == "FEMALE"@ {
            Some(GenderGroup::Female)
        } else if s == "MIXED"@ {
            Some(GenderGroup::Mixed)
        } else {
            None
        }
    }

    /// Decode a gender-group token.
    pub fn decode(s: &str) -> (r: Result<GenderGroup, Error>)
        ensures
            r matches Ok(v) ==> Self::decode_spec(s@) == Some(v),
            r is Err <==> Self::decode_spec(s@) is None,
            r matches Err(e) ==> (e matches Error::UnknownVariant(t) && t@ == s@),
    {
        if str_eq(s, "MALE") {
            Ok(GenderGroup::Male)
        } else if str_eq(s, "FEMALE") {
            Ok(GenderGroup::Female)
        } else if str_eq(s, "MIXED") {
            Ok(GenderGroup::Mixed)
        } else {
            Err(Error::UnknownVariant(String::from_str(s)))
        }
    }

    /// The human-readable name of the group.
    pub open spec fn display_spec(self) -> Seq<char> {
        match self {
            GenderGroup::Male => "male"@,
            GenderGroup::Female => "female"@,
            GenderGroup::Mixed => "mixed"@,
        }
    }

    /// Human-readable name, as the table printers show it.
    pub fn display_string(&self) -> (r: String)
        ensures
            r@ == self.display_spec(),
    {
        match self {
            GenderGroup::Male => String::from_str("male"),
            GenderGroup::Female => String::from_str("female"),
            GenderGroup::Mixed => String::from_str("mixed"),
        }
    }
}

} // verus!
