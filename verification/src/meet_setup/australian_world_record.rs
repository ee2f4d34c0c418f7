//! Reference record of the "Australian model" meet configuration.

use crate::text::str_eq;
use vstd::prelude::*;

verus! {

/// Which world record the Australian model measures against.
#[derive(Debug, Clone, Copy, PartialEq, Eq, Structural)]
pub enum AustralianWorldRecord {
    /// Always the long-course record.
    LongCourse,
    /// The record of the same course as the meet.
    Same,
}

/// Rejection of an Australian-world-record token.
#[derive(Debug, Clone, PartialEq, Eq)]
pub enum Error {
    /// The token names no record policy; carries the input.
    DoesNotExists(String),
}

impl AustralianWorldRecord {
    /// The token table; the vendor data writes the values both as single
    /// upper-case tokens and as lower-case phrases.
    pub open spec fn decode_spec(s: Seq<char>) -> Option<AustralianWorldRecord> {
        if s == "LONGCOURSE"@ {
            Some(AustralianWorldRecord::LongCourse)
        } else if s == "long course"@ {
            Some(AustralianWorldRecord::LongCourse)
        } else if s == "SAME"@ {
            Some(AustralianWorldRecord::Same)
        } else if s == "same"@ {
            Some(AustralianWorldRecord::Same)
        } else {
            None
        }
    }

    /// Decode an Australian-world-record token.
    pub fn decode(s: &str) -> (r: Result<AustralianWorldRecord, Error>)
        ensures
            r matches Ok(v) ==> Self::decode_spec(s@) == Some(v),
            r is Err <==> Self::decode_spec(s@) is None,
            r matches Err(e) ==> (e matches Error::DoesNotExists(t) && t@ == s@),
    {
        if str_eq(s, "LONGCOURSE") {
            Ok(AustralianWorldRecord::LongCourse)
        } else if str_eq(s, "long course") {
            Ok(AustralianWorldRecord::LongCourse)
        } else if str_eq(s, "SAME") {
            Ok(AustralianWorldRecord::Same)
        } else if str_eq(s, "same") {
            Ok(AustralianWorldRecord::Same)
        } else {
            Err(Error::DoesNotExists(String::from_str(s)))
        }
    }
}

} // verus!
