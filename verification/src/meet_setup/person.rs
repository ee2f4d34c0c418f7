//! A person attached to a meet: entry manager or competition manager.

use super::document::{field_spec, req_text_is, DecodeError, Element};
use super::gender_group::GenderGroup;
use crate::text::str_eq;
use vstd::prelude::*;

verus! {

/// Contact person of a meet.
#[derive(Debug, Clone, PartialEq, Eq)]
pub struct Person {
    /// Surname.
    pub surname: String,
    /// First name.
    pub name: String,
    /// Gender.
    pub gender: GenderGroup,
    /// Birth year; the class tokens `SR` and `JR` stand for none.
    pub birth_date: Option<i16>,
    /// Club.
    pub club: String,
}

/// A birth-date field: the class tokens `SR` and `JR` mean no year, any
/// other value must be a year number.
pub open spec fn birth_value(t: Seq<char>) -> Option<Option<int>> {
    if t == "SR"@ || t == "JR"@ {
        Some(None)
    } else {
        match super::document::year_value(t) {
            Some(y) => Some(Some(y)),
            None => None,
        }
    }
}

impl Person {
    /// A person element decodes when names, club and gender are present
    /// and the birth-date field, if present, is `SR`, `JR` or a year.
    #[verifier::opaque]
    pub open spec fn decode_wf(cs: Seq<Element>) -> bool {
        &&& field_spec(cs, "LastName"@) is Some
        &&& field_spec(cs, "FirstName"@) is Some
        &&& field_spec(cs, "Club"@) is Some
        &&& (field_spec(cs, "Sex"@) matches Some(t) && GenderGroup::decode_spec(t) is Some)
        &&& match field_spec(cs, "BirthDate"@) {
            None => true,
            Some(t) => birth_value(t) is Some,
        }
    }

    /// The person `v` is exactly what the element's fields say.
    #[verifier::opaque]
    pub open spec fn decodes_to(cs: Seq<Element>, v: Person) -> bool {
        &&& req_text_is(cs, "LastName"@, v.surname@)
        &&& req_text_is(cs, "FirstName"@, v.name@)
        &&& req_text_is(cs, "Club"@, v.club@)
        &&& (field_spec(cs, "Sex"@) matches Some(t) && GenderGroup::decode_spec(t) == Some(
            v.gender,
        ))
        &&& match field_spec(cs, "BirthDate"@) {
            None => v.birth_date is None,
            Some(t) => birth_value(t) == Some(
                match v.birth_date {
                    Some(y) => Some(y as int),
                    None => None,
                },
            ),
        }
    }

    /// Decode one person element.
    pub fn decode(elem: &Element) -> (r: Result<Person, DecodeError>)
        ensures
            r is Ok <==> Self::decode_wf(elem.children@),
            r matches Ok(v) ==> Self::decodes_to(elem.children@, v),
            r matches Err(e) ==> !(e is UnknownField),
    {
        proof {
            reveal(Person::decode_wf);
            reveal(Person::decodes_to);
        }
        let surname = match elem.req_text("LastName") {
            Ok(v) => v,
            Err(e) => {
                return Err(e);
            },
        };
        let name = match elem.req_text("FirstName") {
            Ok(v) => v,
            Err(e) => {
                return Err(e);
            },
        };
        let club = match elem.req_text("Club") {
            Ok(v) => v,
            Err(e) => {
                return Err(e);
            },
        };
        let gender = match elem.field_text("Sex") {
            None => {
                return Err(DecodeError::MissingField(String::from_str("Sex")));
            },
            Some(t) => match GenderGroup::decode(t.as_str()) {
                Ok(v) => v,
                Err(_) => {
                    return Err(DecodeError::InvalidField(String::from_str("Sex"), t.clone()));
                },
            },
        };
        let birth_date = match elem.field_text("BirthDate") {
            None => None,
            Some(t) => {
                proof {
                    reveal_strlit("SR");
                    reveal_strlit("JR");
                }
                if str_eq(t.as_str(), "SR") || str_eq(t.as_str(), "JR") {
                    None
                } else {
                    match crate::meet_setup::primitives::parse_year(t.as_str()) {
                        Ok(y) => Some(y),
                        Err(_) => {
                            return Err(
                                DecodeError::InvalidField(String::from_str("BirthDate"), t.clone()),
                            );
                        },
                    }
                }
            },
        };
        Ok(Person { surname, name, gender, birth_date, club })
    }
}

} // verus!
