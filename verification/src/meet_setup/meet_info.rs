//! One entry of the meet-list feed used to discover upcoming meets.

use super::document::{field_spec, req_date_spec, req_text_is, req_uint_spec, DecodeError, Element};
use super::primitives::Date;
use vstd::prelude::*;

verus! {

/// One meet as the meet-list feed announces it: enough to find, date and
/// download the full configuration document.
#[derive(Debug, Clone, PartialEq, Eq)]
pub struct MeetInfo {
    /// Meet name.
    pub name: String,
    /// Starting date of the meet.
    pub date_start: Date,
    /// Ending date of the meet.
    pub date_end: Date,
    /// Host club name.
    pub host: String,
    /// Norwegian swimming federation meet id.
    pub id: u32,
    /// Address of the meet's configuration document.
    pub config_xml: String,
}

impl MeetInfo {
    /// A meet-list entry decodes when all six fields are present and the
    /// dates and id are valid.
    pub open spec fn decode_wf(cs: Seq<Element>) -> bool {
        &&& field_spec(cs, "stevnenavn"@) is Some
        &&& req_date_spec(cs, "fradato"@) is Some
        &&& req_date_spec(cs, "tildato"@) is Some
        &&& field_spec(cs, "arrangor"@) is Some
        &&& req_uint_spec(cs, "nsfstevneid"@, u32::MAX as int) is Some
        &&& field_spec(cs, "xmllink"@) is Some
    }

    /// The entry `v` is exactly what the element's fields say.
    pub open spec fn decodes_to(cs: Seq<Element>, v: MeetInfo) -> bool {
        &&& req_text_is(cs, "stevnenavn"@, v.name@)
        &&& Some(v.date_start) == req_date_spec(cs, "fradato"@)
        &&& Some(v.date_end) == req_date_spec(cs, "tildato"@)
        &&& req_text_is(cs, "arrangor"@, v.host@)
        &&& Some(v.id as int) == req_uint_spec(cs, "nsfstevneid"@, u32::MAX as int)
        &&& req_text_is(cs, "xmllink"@, v.config_xml@)
    }

    /// Decode one meet-list entry element.
    pub fn decode(elem: &Element) -> (r: Result<MeetInfo, DecodeError>)
        ensures
            r is Ok <==> Self::decode_wf(elem.children@),
            r matches Ok(v) ==> Self::decodes_to(elem.children@, v),
            r matches Err(e) ==> !(e is UnknownField),
    {
        let name = match elem.req_text("stevnenavn") {
            Ok(v) => v,
            Err(e) => {
                return Err(e);
            },
        };
        let date_start = match elem.req_date("fradato") {
            Ok(v) => v,
            Err(e) => {
                return Err(e);
            },
        };
        let date_end = match elem.req_date("tildato") {
            Ok(v) => v,
            Err(e) => {
                return Err(e);
            },
        };
        let host = match elem.req_text("arrangor") {
            Ok(v) => v,
            Err(e) => {
                return Err(e);
            },
        };
        let id = match elem.req_u32("nsfstevneid") {
            Ok(v) => v,
            Err(e) => {
                return Err(e);
            },
        };
        let config_xml = match elem.req_text("xmllink") {
            Ok(v) => v,
            Err(e) => {
                return Err(e);
            },
        };
        Ok(MeetInfo { name, date_start, date_end, host, id, config_xml })
    }
}

} // verus!
