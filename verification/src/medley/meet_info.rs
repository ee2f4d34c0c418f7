//! One meet announcement of the medley meet-list endpoint.

use crate::meet_setup::document::{
    field_spec, req_date_spec, req_text_is, req_uint_spec, DecodeError, Element,
};
use crate::meet_setup::primitives::Date;
use crate::text::{u32_zero_pad11, zero_pad11_spec};
use vstd::prelude::*;

verus! {

/// One meet as the medley endpoint announces it. The endpoint reports no
/// modification date, so callers re-download announced meets when in
/// doubt.
#[derive(Debug, Clone, PartialEq, Eq)]
pub struct MeetInfo {
    /// Meet name.
    pub name: String,
    /// Starting date of the meet.
    pub date_start: Date,
    /// Last date of the meet.
    pub date_end: Date,
    /// Host, usually the organizing swimming club.
    pub host: String,
    /// Norwegian swimming federation meet id: a unique numeric value,
    /// written in the feed as up to ten digits with leading zeros.
    pub id: u32,
    /// Address of the meet's `meetsetup.xml` configuration document.
    pub meet_setup: String,
}

impl MeetInfo {
    /// A feed entry decodes when all six fields are present and the
    /// dates and id are valid.
    pub open spec fn decode_wf(cs: Seq<Element>) -> bool {
        &&& field_spec(cs, "stevnenavn"@) is Some
        &&& req_date_spec(cs, "fradato"@) is Some
        &&& req_date_spec(cs, "tildato"@) is Some
        &&& field_spec(cs, "arrangor"@) is Some
        &&& req_uint_spec(cs, "nsfstevneid"@, u32::MAX as int) is Some
        &&& field_spec(cs, "xmllink"@) is Some
    }

    /// The entry `v` is exactly what the element's fields say.
    pub open spec fn decodes_to(cs: Seq<Element>, v: MeetInfo) -> bool {
        &&& req_text_is(cs, "stevnenavn"@, v.name@)
        &&& Some(v.date_start) == req_date_spec(cs, "fradato"@)
        &&& Some(v.date_end) == req_date_spec(cs, "tildato"@)
        &&& req_text_is(cs, "arrangor"@, v.host@)
        &&& Some(v.id as int) == req_uint_spec(cs, "nsfstevneid"@, u32::MAX as int)
        &&& req_text_is(cs, "xmllink"@, v.meet_setup@)
    }

    /// Decode one feed entry element.
    pub fn decode(elem: &Element) -> (r: Result<MeetInfo, DecodeError>)
        ensures
            r is Ok <==> Self::decode_wf(elem.children@),
            r matches Ok(v) ==> Self::decodes_to(elem.children@, v),
            r matches Err(e) ==> !(e is UnknownField),
    {
        let name = match elem.req_text("stevnenavn") {
            Ok(v) => v,
            Err(e) => {
                return Err(e);
            },
        };
        let date_start = match elem.req_date("fradato") {
            Ok(v) => v,
            Err(e) => {
                return Err(e);
            },
        };
        let date_end = match elem.req_date("tildato") {
            Ok(v) => v,
            Err(e) => {
                return Err(e);
            },
        };
        let host = match elem.req_text("arrangor") {
            Ok(v) => v,
            Err(e) => {
                return Err(e);
            },
        };
        let id = match elem.req_u32("nsfstevneid") {
            Ok(v) => v,
            Err(e) => {
                return Err(e);
            },
        };
        let meet_setup = match elem.req_text("xmllink") {
            Ok(v) => v,
            Err(e) => {
                return Err(e);
            },
        };
        Ok(MeetInfo { name, date_start, date_end, host, id, meet_setup })
    }

    /// The cache file name of the meet: its unique federation id,
    /// zero-padded to 11 digits. Unlike a name-based file name this
    /// cannot collide for meets sharing a name across years.
    pub fn get_filename(&self) -> (r: String)
        ensures
            r@ == zero_pad11_spec(self.id as int),
    {
        u32_zero_pad11(self.id)
    }
}

} // verus!
