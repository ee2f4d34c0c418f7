//! Junior age classes: athletes between 9 and 19 years old compete in a
//! class keyed by their age at the end of the meet year.

use vstd::prelude::*;

verus! {

/// Junior class ordinal, one per age from 9 to 19.
#[derive(Debug, Clone, Copy, PartialEq, Eq, Structural)]
pub enum Junior {
    /// 9 years old.
    A,
    /// 10 years old.
    B,
    /// 11 years old.
    C,
    /// 12 years old.
    D,
    /// 13 years old.
    E,
    /// 14 years old.
    F,
    /// 15 years old.
    G,
    /// 16 years old.
    H,
    /// 17 years old.
    I,
    /// 18 years old.
    J,
    /// 19 years old.
    K,
}

/// Rejection of an age outside the junior range.
#[derive(Debug, Clone, Copy, PartialEq, Eq, Structural)]
pub enum Error {
    /// The age difference is below 9 or above 19.
    AgeNotJunior,
}

impl Junior {
    /// The age each ordinal stands for.
    pub open spec fn age_spec(self) -> int {
        match self {
            Junior::A => 9,
            Junior::B => 10,
            Junior::C => 11,
            Junior::D => 12,
            Junior::E => 13,
            Junior::F => 14,
            Junior::G => 15,
            Junior::H => 16,
            Junior::I => 17,
            Junior::J => 18,
            Junior::K => 19,
        }
    }

    /// The ordinal of each age `9..=19`; other ages have none.
    pub open spec fn from_age_difference_spec(diff: int) -> Option<Junior> {
        if diff == 9 {
            Some(Junior::A)
        } else if diff == 10 {
            Some(Junior::B)
        } else if diff == 11 {
            Some(Junior::C)
        } else if diff == 12 {
            Some(Junior::D)
        } else if diff == 13 {
            Some(Junior::E)
        } else if diff == 14 {
            Some(Junior::F)
        } else if diff == 15 {
            Some(Junior::G)
        } else if diff == 16 {
            Some(Junior::H)
        } else if diff == 17 {
            Some(Junior::I)
        } else if diff == 18 {
            Some(Junior::J)
        } else if diff == 19 {
            Some(Junior::K)
        } else {
            None
        }
    }

    /// Map an age difference to its junior ordinal: 9 gives `A`, 10
    /// gives `B`, and so on up to 19 giving `K`; anything else fails.
    ///
    /// The age difference is the absolute distance between the meet's
    /// reference year and the athlete's birth year; the caller computes
    /// it, so no assumption is made about which year is larger.
    pub fn from_age_difference(diff: u32) -> (r: Result<Junior, Error>)
        ensures
            r matches Ok(j) ==> Self::from_age_difference_spec(diff as int) == Some(j)
                && j.age_spec() == diff,
            r is Err <==> Self::from_age_difference_spec(diff as int) is None,
            r is Err <==> !(9 <= diff <= 19),
            r matches Err(e) ==> e is AgeNotJunior,
    {
        match diff {
            9 => Ok(Junior::A),
            10 => Ok(Junior::B),
            11 => Ok(Junior::C),
            12 => Ok(Junior::D),
            13 => Ok(Junior::E),
            14 => Ok(Junior::F),
            15 => Ok(Junior::G),
            16 => Ok(Junior::H),
            17 => Ok(Junior::I),
            18 => Ok(Junior::J),
            19 => Ok(Junior::K),
            _ => Err(Error::AgeNotJunior),
        }
    }

    /// The age this ordinal stands for.
    pub fn age(&self) -> (r: u8)
        ensures
            r == self.age_spec(),
    {
        match self {
            Junior::A => 9,
            Junior::B => 10,
            Junior::C => 11,
            Junior::D => 12,
            Junior::E => 13,
            Junior::F => 14,
            Junior::G => 15,
            Junior::H => 16,
            Junior::I => 17,
            Junior::J => 18,
            Junior::K => 19,
        }
    }
}

/// The age table and the ordinal table invert each other over the ages
/// 9 to 19.
pub proof fn lemma_junior_age_round_trip()
    ensures
        forall|j: Junior| Junior::from_age_difference_spec(#[trigger] j.age_spec()) == Some(j),
        forall|diff: int|
            (#[trigger] Junior::from_age_difference_spec(diff)) matches Some(j) ==> j.age_spec()
                == diff,
{
}

} // verus!
