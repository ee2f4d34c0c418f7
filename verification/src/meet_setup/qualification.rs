//! One enrollment qualification: a filter on who may enroll.

use super::class::Class;
use super::distance::Distance;
use super::document::{field_spec, DecodeError, Element};
use super::gender_group::GenderGroup;
use super::pool_length::PoolLength;
use super::primitives::{is_qual_duration_str, parse_qual_duration, qual_duration_str_ms};
use super::style::Style;
use vstd::prelude::*;

verus! {

/// A single qualification: to enroll, an athlete of this class and
/// gender must have a time below the limit on this pool length, distance
/// and style. The evaluation itself happens downstream; this crate only
/// decodes the tuple.
#[derive(Debug, Clone, PartialEq, Eq)]
pub struct Qualification {
    /// Qualification is valid for this class.
    pub athlete_class: Class,
    /// Qualification applies to this gender.
    pub athlete_gender: GenderGroup,
    /// Pool length of the required time.
    pub pool_length: PoolLength,
    /// Distance the qualification applies to.
    pub distance: Distance,
    /// Style the qualification applies to.
    pub style: Style,
    /// Upper limit for enrollment, in whole milliseconds.
    pub time: u64,
}

impl Qualification {
    /// A qualification element decodes when all six fields are present
    /// and valid under the given reference year.
    #[verifier::opaque]
    pub open spec fn decode_wf(cs: Seq<Element>, reference_year: int) -> bool {
        &&& (field_spec(cs, "Class"@) matches Some(t) && Class::decode_spec(
            t,
            reference_year,
        ) is Some)
        &&& (field_spec(cs, "Sex"@) matches Some(t) && GenderGroup::decode_spec(t) is Some)
        &&& (field_spec(cs, "PoolLength"@) matches Some(t) && PoolLength::decode_spec(t) is Some)
        &&& (field_spec(cs, "DistanceLength"@) matches Some(t) && Distance::decode_spec(
            t,
        ) is Some)
        &&& (field_spec(cs, "Distanceart"@) matches Some(t) && Style::decode_spec(t) is Some)
        &&& (field_spec(cs, "QualificationTime"@) matches Some(t) && is_qual_duration_str(t))
    }

    /// The qualification `v` is exactly what the element's fields say.
    #[verifier::opaque]
    pub open spec fn decodes_to(cs: Seq<Element>, reference_year: int, v: Qualification) -> bool {
        &&& (field_spec(cs, "Class"@) matches Some(t) && Class::decode_spec(t, reference_year)
            == Some(v.athlete_class))
        &&& (field_spec(cs, "Sex"@) matches Some(t) && GenderGroup::decode_spec(t) == Some(
            v.athlete_gender,
        ))
        &&& (field_spec(cs, "PoolLength"@) matches Some(t) && PoolLength::decode_spec(t) == Some(
            v.pool_length,
        ))
        &&& (field_spec(cs, "DistanceLength"@) matches Some(t) && Distance::decode_spec(t) == Some(
            v.distance,
        ))
        &&& (field_spec(cs, "Distanceart"@) matches Some(t) && Style::decode_spec(t) == Some(
            v.style,
        ))
        &&& (field_spec(cs, "QualificationTime"@) matches Some(t) && is_qual_duration_str(t)
            && v.time == qual_duration_str_ms(t))
    }

    /// Decode one qualification element under a caller-supplied
    /// reference year.
    pub fn decode(elem: &Element, reference_year: i16) -> (r: Result<Qualification, DecodeError>)
        ensures
            r is Ok <==> Self::decode_wf(elem.children@, reference_year as int),
            r matches Ok(v) ==> Self::decodes_to(elem.children@, reference_year as int, v),
            r matches Err(e) ==> !(e is UnknownField),
    {
        proof {
            reveal(Qualification::decode_wf);
            reveal(Qualification::decodes_to);
        }
        let athlete_class = match elem.field_text("Class") {
            None => {
                return Err(DecodeError::MissingField(String::from_str("Class")));
            },
            Some(t) => match Class::decode(t.as_str(), reference_year) {
                Ok(v) => v,
                Err(_) => {
                    return Err(DecodeError::InvalidField(String::from_str("Class"), t.clone()));
                },
            },
        };
        let athlete_gender = match elem.field_text("Sex") {
            None => {
                return Err(DecodeError::MissingField(String::from_str("Sex")));
            },
            Some(t) => match GenderGroup::decode(t.as_str()) {
                Ok(v) => v,
                Err(_) => {
                    return Err(DecodeError::InvalidField(String::from_str("Sex"), t.clone()));
                },
            },
        };
        let pool_length = match elem.field_text("PoolLength") {
            None => {
                return Err(DecodeError::MissingField(String::from_str("PoolLength")));
            },
            Some(t) => match PoolLength::decode(t.as_str()) {
                Ok(v) => v,
                Err(_) => {
                    return Err(
                        DecodeError::InvalidField(String::from_str("PoolLength"), t.clone()),
                    );
                },
            },
        };
        let distance = match elem.field_text("DistanceLength") {
            None => {
                return Err(DecodeError::MissingField(String::from_str("DistanceLength")));
            },
            Some(t) => match Distance::decode(t.as_str()) {
                Ok(v) => v,
                Err(_) => {
                    return Err(
                        DecodeError::InvalidField(String::from_str("DistanceLength"), t.clone()),
                    );
                },
            },
        };
        let style = match elem.field_text("Distanceart") {
            None => {
                return Err(DecodeError::MissingField(String::from_str("Distanceart")));
            },
            Some(t) => match Style::decode(t.as_str()) {
                Ok(v) => v,
                Err(_) => {
                    return Err(
                        DecodeError::InvalidField(String::from_str("Distanceart"), t.clone()),
                    );
                },
            },
        };
        let time = match elem.field_text("QualificationTime") {
            None => {
                return Err(DecodeError::MissingField(String::from_str("QualificationTime")));
            },
            Some(t) => match parse_qual_duration(t.as_str()) {
                Ok(v) => v,
                Err(_) => {
                    return Err(
                        DecodeError::InvalidField(String::from_str("QualificationTime"), t.clone()),
                    );
                },
            },
        };
        Ok(Qualification { athlete_class, athlete_gender, pool_length, distance, style, time })
    }
}

} // verus!
