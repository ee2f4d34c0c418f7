//! Shared domain errors of the meet-setup model.

use vstd::prelude::*;

verus! {

/// Domain-rule failures shared across the meet-setup types.
#[derive(Debug, Clone, Copy, PartialEq, Eq, Structural)]
pub enum Error {
    /// The distance is not in any table.
    InvalidDistance,
    /// Constructing a junior from an age outside the junior range.
    NotAJuniorAge,
    /// Asking a junior team relay for its class year: relays are only
    /// ever written as the bare `JR` and carry no birth year.
    TeamRelaysDoesNotHaveJuniorClassGroup,
    /// Asking a non-junior class for its junior ordinal.
    NotAJuniorVariant,
    /// A competition-type code outside the closed table.
    CompetitionTypeIdDoesNotExists,
    /// A distance string that more than one distance could explain.
    IndistinguishableDistance,
    /// An age outside the valid junior range.
    AgeNotJunior,
}

impl Error {
    /// The human-readable message of each error.
    pub open spec fn display_spec(self) -> Seq<char> {
        match self {
            Error::InvalidDistance => "invalid distance"@,
            Error::NotAJuniorAge => "attempting to construct a junior but the age is not a junior age"@,
            Error::TeamRelaysDoesNotHaveJuniorClassGroup => "team relays does not have an associated class year"@,
            Error::NotAJuniorVariant => "cannot convert class into Junior because this class is not of Junior variant"@,
            Error::CompetitionTypeIdDoesNotExists => "competition type does not exists"@,
            Error::IndistinguishableDistance => "cannot determine the distance from the given string. Too many distances can be constructed"@,
            Error::AgeNotJunior => "age is outside valid junior range"@,
        }
    }

    /// Human-readable message of the error.
    pub fn display_string(&self) -> (r: String)
        ensures
            r@ == self.display_spec(),
    {
        match self {
            Error::InvalidDistance => String::from_str("invalid distance"),
            Error::NotAJuniorAge => String::from_str(
                "attempting to construct a junior but the age is not a junior age",
            ),
            Error::TeamRelaysDoesNotHaveJuniorClassGroup => String::from_str(
                "team relays does not have an associated class year",
            ),
            Error::NotAJuniorVariant => String::from_str(
                "cannot convert class into Junior because this class is not of Junior variant",
            ),
            Error::CompetitionTypeIdDoesNotExists => String::from_str(
                "competition type does not exists",
            ),
            Error::IndistinguishableDistance => String::from_str(
                "cannot determine the distance from the given string. Too many distances can be constructed",
            ),
            Error::AgeNotJunior => String::from_str("age is outside valid junior range"),
        }
    }
}

} // verus!
