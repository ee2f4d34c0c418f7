//! A session: a continuous block of events without a break.

use super::document::{
    field_spec, req_date_spec, req_time_spec, req_uint_spec, DecodeError, Element,
};
use super::primitives::{Date, Time};
use vstd::prelude::*;

verus! {

/// One session of a meet. A meet has at least one session and at most
/// one session per event.
#[derive(Debug, Clone, PartialEq, Eq)]
pub struct Session {
    /// Session id.
    pub id: u8,
    /// Session name or title; empty when the document gives none.
    pub name: String,
    /// Session start date.
    pub date: Date,
    /// Session start time.
    pub start_time: Time,
}

impl Session {
    /// A session element decodes when its id, date and start time fields
    /// are present and valid; the name falls back to the empty string.
    #[verifier::opaque]
    pub open spec fn decode_wf(cs: Seq<Element>) -> bool {
        &&& req_uint_spec(cs, "SessionId"@, u8::MAX as int) is Some
        &&& req_date_spec(cs, "SessionDate"@) is Some
        &&& req_time_spec(cs, "SessionStartTime"@) is Some
    }

    /// The session `v` is exactly what the element's fields say.
    #[verifier::opaque]
    pub open spec fn decodes_to(cs: Seq<Element>, v: Session) -> bool {
        &&& Some(v.id as int) == req_uint_spec(cs, "SessionId"@, u8::MAX as int)
        &&& match field_spec(cs, "SessionName"@) {
            Some(t) => v.name@ == t,
            None => v.name@ == Seq::<char>::empty(),
        }
        &&& Some(v.date) == req_date_spec(cs, "SessionDate"@)
        &&& Some(v.start_time) == req_time_spec(cs, "SessionStartTime"@)
    }

    /// Decode one `Session` element.
    pub fn decode(elem: &Element) -> (r: Result<Session, DecodeError>)
        ensures
            r is Ok <==> Self::decode_wf(elem.children@),
            r matches Ok(v) ==> Self::decodes_to(elem.children@, v),
            r matches Err(e) ==> !(e is UnknownField),
    {
        proof {
            reveal(Session::decode_wf);
            reveal(Session::decodes_to);
        }
        let id = match elem.req_u8("SessionId") {
            Ok(v) => v,
            Err(e) => {
                return Err(e);
            },
        };
        let name = elem.text_or_empty("SessionName");
        let date = match elem.req_date("SessionDate") {
            Ok(v) => v,
            Err(e) => {
                return Err(e);
            },
        };
        let start_time = match elem.req_time("SessionStartTime") {
            Ok(v) => v,
            Err(e) => {
                return Err(e);
            },
        };
        Ok(Session { id, name, date, start_time })
    }
}

} // verus!
