//! Competition type of a meet, keyed by the vendor's numeric codes.

use crate::text::{all_digits, digits_int, parse_u8};
use vstd::prelude::*;

verus! {

/// What kind of competition the meet is; each variant corresponds to one
/// of the vendor's numeric type codes.
#[derive(Debug, Clone, Copy, PartialEq, Eq, Structural)]
pub enum CompetitionType {
    /// Meet for mentally disabled athletes (code 3).
    MentallyDisabledMeet,
    /// National meet with athletes from other nations (code 4).
    NationalMeetWithAthletesFromForeginNations,
    /// International championship (code 5).
    International,
    /// Unofficial meet (code 6).
    Unofficial,
    /// Norwegian championship (code 8).
    NorwegianChampionship,
    /// Local or regional meet without qualifications (code 15).
    RegionalWithoutQualification,
    /// Regional age group meet (code 16).
    RegionalAgeGroupMeet,
    /// District or regional meet (code 18).
    DistrictRegionalMeet,
    /// Meet outside Norway (code 19).
    NonNorwegianMeet,
}

/// Rejection of a competition-type value.
#[derive(Debug, Clone, PartialEq, Eq)]
pub enum Error {
    /// A number outside the closed code table.
    CompetitionTypeIdDoesNotExists,
    /// Not a number at all; carries the input.
    Parse(String),
}

impl CompetitionType {
    /// The closed code table; codes outside it fail.
    pub open spec fn from_code_spec(code: int) -> Option<CompetitionType> {
        if code == 3 {
            Some(CompetitionType::MentallyDisabledMeet)
        } else if code == 4 {
            Some(CompetitionType::NationalMeetWithAthletesFromForeginNations)
        } else if code == 5 {
            Some(CompetitionType::International)
        } else if code == 6 {
            Some(CompetitionType::Unofficial)
        } else if code == 8 {
            Some(CompetitionType::NorwegianChampionship)
        } else if code == 15 {
            Some(CompetitionType::RegionalWithoutQualification)
        } else if code == 16 {
            Some(CompetitionType::RegionalAgeGroupMeet)
        } else if code == 18 {
            Some(CompetitionType::DistrictRegionalMeet)
        } else if code == 19 {
            Some(CompetitionType::NonNorwegianMeet)
        } else {
            None
        }
    }

    /// The numeric code of each competition type.
    pub open spec fn to_code_spec(self) -> int {
        match self {
            CompetitionType::MentallyDisabledMeet => 3,
            CompetitionType::NationalMeetWithAthletesFromForeginNations => 4,
            CompetitionType::International => 5,
            CompetitionType::Unofficial => 6,
            CompetitionType::NorwegianChampionship => 8,
            CompetitionType::RegionalWithoutQualification => 15,
            CompetitionType::RegionalAgeGroupMeet => 16,
            CompetitionType::DistrictRegionalMeet => 18,
            CompetitionType::NonNorwegianMeet => 19,
        }
    }

    /// Classify a numeric competition-type code; unknown codes fail
    /// closed.
    pub fn from_code(code: u8) -> (r: Result<CompetitionType, Error>)
        ensures
            r matches Ok(v) ==> Self::from_code_spec(code as int) == Some(v),
            r is Err <==> Self::from_code_spec(code as int) is None,
            r matches Err(e) ==> e is CompetitionTypeIdDoesNotExists,
    {
        match code {
            3 => Ok(CompetitionType::MentallyDisabledMeet),
            4 => Ok(CompetitionType::NationalMeetWithAthletesFromForeginNations),
            5 => Ok(CompetitionType::International),
            6 => Ok(CompetitionType::Unofficial),
            8 => Ok(CompetitionType::NorwegianChampionship),
            15 => Ok(CompetitionType::RegionalWithoutQualification),
            16 => Ok(CompetitionType::RegionalAgeGroupMeet),
            18 => Ok(CompetitionType::DistrictRegionalMeet),
            19 => Ok(CompetitionType::NonNorwegianMeet),
            _ => Err(Error::CompetitionTypeIdDoesNotExists),
        }
    }

    /// The numeric code of this competition type.
    pub fn to_code(&self) -> (r: u8)
        ensures
            r == self.to_code_spec(),
    {
        match self {
            CompetitionType::MentallyDisabledMeet => 3,
            CompetitionType::NationalMeetWithAthletesFromForeginNations => 4,
            CompetitionType::International => 5,
            CompetitionType::Unofficial => 6,
            CompetitionType::NorwegianChampionship => 8,
            CompetitionType::RegionalWithoutQualification => 15,
            CompetitionType::RegionalAgeGroupMeet => 16,
            CompetitionType::DistrictRegionalMeet => 18,
            CompetitionType::NonNorwegianMeet => 19,
        }
    }

    /// A decimal number naming a code of the closed table.
    pub open spec fn decode_spec(s: Seq<char>) -> Option<CompetitionType> {
        if s.len() > 0 && all_digits(s) && digits_int(s) <= u8::MAX {
            Self::from_code_spec(digits_int(s))
        } else {
            None
        }
    }

    /// Decode a competition-type field, written as a decimal code.
    pub fn decode(s: &str) -> (r: Result<CompetitionType, Error>)
        ensures
            r matches Ok(v) ==> Self::decode_spec(s@) == Some(v),
            r is Err <==> Self::decode_spec(s@) is None,
            r matches Err(e) ==> match e {
                Error::Parse(t) => t@ == s@ && (s@.len() == 0 || !all_digits(s@) || digits_int(s@)
                    > u8::MAX),
                Error::CompetitionTypeIdDoesNotExists => s@.len() > 0 && all_digits(s@)
                    && digits_int(s@) <= u8::MAX,
            },
    {
        match parse_u8(s) {
            Some(code) => CompetitionType::from_code(code),
            None => Err(Error::Parse(String::from_str(s))),
        }
    }

    /// The human-readable name of the competition type.
    pub open spec fn display_spec(self) -> Seq<char> {
        match self {
            CompetitionType::MentallyDisabledMeet => "meet for mentally disabled athletes"@,
            CompetitionType::International => "international championship"@,
            CompetitionType::Unofficial => "unofficial"@,
            CompetitionType::NorwegianChampionship => "Norwegian championship"@,
            CompetitionType::RegionalAgeGroupMeet => "regional age group meet"@,
            CompetitionType::NationalMeetWithAthletesFromForeginNations => "national meet with athletes from foregin nations"@,
            CompetitionType::NonNorwegianMeet => "non Norwegian meet"@,
            CompetitionType::RegionalWithoutQualification => "regional without qualifications"@,
            CompetitionType::DistrictRegionalMeet => "district / regional meet"@,
        }
    }

    /// Human-readable competition type, as the table printers show it.
    pub fn display_string(&self) -> (r: String)
        ensures
            r@ == self.display_spec(),
    {
        match self {
            CompetitionType::MentallyDisabledMeet => String::from_str(
                "meet for mentally disabled athletes",
            ),
            CompetitionType::International => String::from_str("international championship"),
            CompetitionType::Unofficial => String::from_str("unofficial"),
            CompetitionType::NorwegianChampionship => String::from_str("Norwegian championship"),
            CompetitionType::RegionalAgeGroupMeet => String::from_str("regional age group meet"),
            CompetitionType::NationalMeetWithAthletesFromForeginNations => String::from_str(
                "national meet with athletes from foregin nations",
            ),
            CompetitionType::NonNorwegianMeet => String::from_str("non Norwegian meet"),
            CompetitionType::RegionalWithoutQualification => String::from_str(
                "regional without qualifications",
            ),
            CompetitionType::DistrictRegionalMeet => String::from_str("district / regional meet"),
        }
    }
}

/// The code table and the code assignment invert each other: every
/// competition type comes back unchanged from its own code, and every
/// accepted code maps to a type carrying that code.
pub proof fn lemma_competition_type_code_round_trip()
    ensures
        forall|v: CompetitionType|
            CompetitionType::from_code_spec(#[trigger] v.to_code_spec()) == Some(v),
        forall|code: int|
            (#[trigger] CompetitionType::from_code_spec(code)) matches Some(v) ==> v.to_code_spec()
                == code,
{
}

} // verus!
