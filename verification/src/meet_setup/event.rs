//! One schedulable race of a meet.

use super::award::Award;
use super::distance::Distance;
use super::document::{
    field2_spec, field_spec, opt_bool_spec, opt_duration_spec, opt_text_is, opt_uint_spec,
    opt_year_spec, req_bool_spec, req_date_spec, req_text_is, req_uint_spec, DecodeError, Element,
};
use super::gender_group::GenderGroup;
use super::pool_length::PoolLength;
use super::primitives::{bool_value, Date};
use super::round::Round;
use super::sorting::Sorting;
use super::style::Style;
use vstd::prelude::*;

verus! {

/// Stored configuration of one event of a meet.
#[derive(Debug, Clone, PartialEq, Eq)]
pub struct Event {
    /// Event number, starting with 1.
    pub id: u32,
    /// Human readable description of the event.
    pub description: String,
    /// Distance.
    pub distance: Distance,
    /// Swimming style.
    pub style: Style,
    /// Which groups can compete in this event.
    pub gender_group: GenderGroup,
    /// Seniors can enroll.
    pub senior: bool,
    /// Juniors can enroll.
    pub junior: bool,
    /// Older juniors can enroll.
    pub junior_older: bool,
    /// Younger juniors can enroll.
    pub junior_younger: bool,
    /// Youngest birth year allowed.
    pub youngest: Option<i16>,
    /// Oldest birth year allowed.
    pub oldest: Option<i16>,
    /// Pool length the event is swum on.
    pub pool_length: PoolLength,
    /// Date of the event.
    pub date: Date,
    /// Qualification limit for long course, in milliseconds.
    pub qualification_time_long_course: Option<u64>,
    /// Qualification limit for short course, in milliseconds.
    pub qualification_time_short_course: Option<u64>,
    /// Heat-ordering strategy.
    pub sorting: Sorting,
    /// No qualification applies to handicap classes.
    pub no_qualification_for_handicap: bool,
    /// Publish heats on the web.
    pub web_heat: bool,
    /// Event sponsor text.
    pub sponsor: Option<String>,
    /// Seniors and juniors are combined.
    pub srjrcombi: bool,
    /// Free event without enrollment fee.
    pub free: bool,
    /// Hide the age group in listings.
    pub dont_show_age_group: bool,
    /// Show entry times in listings.
    pub show_entry_times: bool,
    /// Award configuration override for this event.
    pub awards: Option<Award>,
    /// Competition round.
    pub round: Option<Round>,
    /// March in the last heat for presentation.
    pub presentation_last_heat: bool,
    /// Undocumented vendor field.
    pub break_field: bool,
    /// Undocumented vendor field.
    pub prize_ceremony: bool,
    /// Undocumented vendor field.
    pub postpone_heat: bool,
    /// Undocumented vendor field, likely a scheduling hint.
    pub start_after_break: bool,
    /// Undocumented vendor field, likely a scheduling hint.
    pub presentation_time: Option<String>,
    /// Undocumented vendor field, likely a scheduling hint.
    pub break_time: Option<String>,
    /// Undocumented vendor field, likely a scheduling hint.
    pub prize_ceremony_time: Option<String>,
    /// Undocumented vendor field, likely a heat-list hint.
    pub prize_ceremony_text: Option<String>,
    /// Undocumented vendor field.
    pub postpone_heat_number: Option<u8>,
    /// Undocumented vendor field.
    pub start_after_break_min: Option<String>,
    /// Undocumented vendor field.
    pub ses_id: Option<u8>,
    /// Undocumented vendor field.
    pub alt_event_id: u16,
    /// Undocumented vendor field.
    pub alt_ses_id: Option<u16>,
    /// Undocumented vendor field.
    pub alt_class_name: Option<bool>,
    /// Undocumented vendor field.
    pub break_alt: Option<bool>,
    /// Undocumented vendor field.
    pub prize_ceremony_alt: Option<bool>,
    /// Undocumented vendor field.
    pub lenex_event_id: Option<u16>,
    /// Undocumented vendor field.
    pub lenex_event_no: Option<u16>,
    /// Undocumented vendor field.
    pub lenex_event_order: Option<u16>,
    /// Withdrawal deadline date.
    pub deadline_date_withdrawals: Option<u64>,
    /// Withdrawal deadline time, four digits.
    pub deadline_time_withdrawals: Option<u16>,
    /// Relay deadline date.
    pub deadline_date_relay: Option<u64>,
    /// Relay deadline time, four digits.
    pub deadline_time_relay: Option<u16>,
}

/// An optional `u8`-sized decode matches the optional value.
pub open spec fn opt_u8_is(cs: Seq<Element>, name: Seq<char>, v: Option<u8>) -> bool {
    opt_uint_spec(cs, name, u8::MAX as int) == Some(
        match v {
            Some(x) => Some(x as int),
            None => None,
        },
    )
}

/// An optional `u16`-sized decode matches the optional value.
pub open spec fn opt_u16_is(cs: Seq<Element>, name: Seq<char>, v: Option<u16>) -> bool {
    opt_uint_spec(cs, name, u16::MAX as int) == Some(
        match v {
            Some(x) => Some(x as int),
            None => None,
        },
    )
}

/// An optional `u64`-sized decode matches the optional value.
pub open spec fn opt_u64_is(cs: Seq<Element>, name: Seq<char>, v: Option<u64>) -> bool {
    opt_uint_spec(cs, name, crate::text::u64_max()) == Some(
        match v {
            Some(x) => Some(x as int),
            None => None,
        },
    )
}

/// An optional year decode matches the optional value.
pub open spec fn opt_year_is(cs: Seq<Element>, name: Seq<char>, v: Option<i16>) -> bool {
    opt_year_spec(cs, name) == Some(
        match v {
            Some(x) => Some(x as int),
            None => None,
        },
    )
}

/// An optional duration decode matches the optional value.
pub open spec fn opt_duration_is(cs: Seq<Element>, name: Seq<char>, v: Option<u64>) -> bool {
    opt_duration_spec(cs, name) == Some(
        match v {
            Some(x) => Some(x as int),
            None => None,
        },
    )
}

impl Event {
    /// An event element decodes when every required field is present and
    /// valid and every optional field, where present, is valid.
    #[verifier::opaque]
    pub open spec fn decode_wf(cs: Seq<Element>) -> bool {
        &&& req_uint_spec(cs, "EventNumber"@, u32::MAX as int) is Some
        &&& field_spec(cs, "EventDescription"@) is Some
        &&& (field_spec(cs, "EventLength"@) matches Some(t) && Distance::decode_spec(t) is Some)
        &&& (field2_spec(cs, "Eventart"@, "EventArt"@) matches Some(t) && Style::decode_spec(
            t,
        ) is Some)
        &&& (field_spec(cs, "Sex"@) matches Some(t) && GenderGroup::decode_spec(t) is Some)
        &&& req_bool_spec(cs, "Senior"@) is Some
        &&& req_bool_spec(cs, "Junior"@) is Some
        &&& req_bool_spec(cs, "JuniorOlder"@) is Some
        &&& req_bool_spec(cs, "JuniorYounger"@) is Some
        &&& opt_year_spec(cs, "Youngest"@) is Some
        &&& opt_year_spec(cs, "Oldest"@) is Some
        &&& (field_spec(cs, "EventPoolLength"@) matches Some(t) && PoolLength::decode_spec(
            t,
        ) is Some)
        &&& req_date_spec(cs, "Date"@) is Some
        &&& opt_duration_spec(cs, "QualLongCourse"@) is Some
        &&& opt_duration_spec(cs, "QualShortCourse"@) is Some
        &&& (field_spec(cs, "Sorting"@) matches Some(t) && Sorting::decode_spec(t) is Some)
        &&& req_bool_spec(cs, "NoQualHcEvent"@) is Some
        &&& req_bool_spec(cs, "Webheat"@) is Some
        &&& req_bool_spec(cs, "SRJRCOMBI"@) is Some
        &&& (field2_spec(cs, "Free"@, "FREE"@) matches Some(t) && bool_value(t) is Some)
        &&& req_bool_spec(cs, "DontShowAgeGroup"@) is Some
        &&& req_bool_spec(cs, "ShowEntryTimes"@) is Some
        &&& match field_spec(cs, "Prizes"@) {
            None => true,
            Some(t) => Award::decode_spec(t) is Some,
        }
        &&& match field_spec(cs, "Round"@) {
            None => true,
            Some(t) => Round::decode_spec(t) is Some,
        }
        &&& req_bool_spec(cs, "PresentationLastHeat"@) is Some
        &&& req_bool_spec(cs, "Break"@) is Some
        &&& req_bool_spec(cs, "PrizeCeremony"@) is Some
        &&& req_bool_spec(cs, "PostponeHeat"@) is Some
        &&& req_bool_spec(cs, "StartAfterBreak"@) is Some
        &&& opt_uint_spec(cs, "PostponeHeatNumber"@, u8::MAX as int) is Some
        &&& opt_uint_spec(cs, "SesId"@, u8::MAX as int) is Some
        &&& req_uint_spec(cs, "AltEventId"@, u16::MAX as int) is Some
        &&& opt_uint_spec(cs, "AltSesId"@, u16::MAX as int) is Some
        &&& opt_bool_spec(cs, "AltClassName"@) is Some
        &&& opt_bool_spec(cs, "BreakAlt"@) is Some
        &&& opt_bool_spec(cs, "PrizeCeremonyAlt"@) is Some
        &&& opt_uint_spec(cs, "LenexEventId"@, u16::MAX as int) is Some
        &&& opt_uint_spec(cs, "LenexEventNo"@, u16::MAX as int) is Some
        &&& opt_uint_spec(cs, "LenexEventOrder"@, u16::MAX as int) is Some
        &&& opt_uint_spec(cs, "DEADLINEDATEWITHDRAWALS"@, crate::text::u64_max()) is Some
        &&& opt_uint_spec(cs, "DEADLINETIMEWITHDRAWALS"@, u16::MAX as int) is Some
        &&& opt_uint_spec(cs, "DEADLINEDATERELAY"@, crate::text::u64_max()) is Some
        &&& opt_uint_spec(cs, "DEADLINETIMERELAY"@, u16::MAX as int) is Some
    }

    /// The event `v` is exactly what the element's fields say.
    #[verifier::opaque]
    pub open spec fn decodes_to(cs: Seq<Element>, v: Event) -> bool {
        &&& Some(v.id as int) == req_uint_spec(cs, "EventNumber"@, u32::MAX as int)
        &&& req_text_is(cs, "EventDescription"@, v.description@)
        &&& (field_spec(cs, "EventLength"@) matches Some(t) && Distance::decode_spec(t) == Some(
            v.distance,
        ))
        &&& (field2_spec(cs, "Eventart"@, "EventArt"@) matches Some(t) && Style::decode_spec(t)
            == Some(v.style))
        &&& (field_spec(cs, "Sex"@) matches Some(t) && GenderGroup::decode_spec(t) == Some(
            v.gender_group,
        ))
        &&& Some(v.senior) == req_bool_spec(cs, "Senior"@)
        &&& Some(v.junior) == req_bool_spec(cs, "Junior"@)
        &&& Some(v.junior_older) == req_bool_spec(cs, "JuniorOlder"@)
        &&& Some(v.junior_younger) == req_bool_spec(cs, "JuniorYounger"@)
        &&& opt_year_is(cs, "Youngest"@, v.youngest)
        &&& opt_year_is(cs, "Oldest"@, v.oldest)
        &&& (field_spec(cs, "EventPoolLength"@) matches Some(t) && PoolLength::decode_spec(t)
            == Some(v.pool_length))
        &&& Some(v.date) == req_date_spec(cs, "Date"@)
        &&& opt_duration_is(cs, "QualLongCourse"@, v.qualification_time_long_course)
        &&& opt_duration_is(cs, "QualShortCourse"@, v.qualification_time_short_course)
        &&& (field_spec(cs, "Sorting"@) matches Some(t) && Sorting::decode_spec(t) == Some(
            v.sorting,
        ))
        &&& Some(v.no_qualification_for_handicap) == req_bool_spec(cs, "NoQualHcEvent"@)
        &&& Some(v.web_heat) == req_bool_spec(cs, "Webheat"@)
        &&& opt_text_is(cs, "Sponsor"@, v.sponsor)
        &&& Some(v.srjrcombi) == req_bool_spec(cs, "SRJRCOMBI"@)
        &&& (field2_spec(cs, "Free"@, "FREE"@) matches Some(t) && bool_value(t) == Some(v.free))
        &&& Some(v.dont_show_age_group) == req_bool_spec(cs, "DontShowAgeGroup"@)
        &&& Some(v.show_entry_times) == req_bool_spec(cs, "ShowEntryTimes"@)
        &&& match field_spec(cs, "Prizes"@) {
            None => v.awards is None,
            Some(t) => v.awards matches Some(a) && Award::decode_spec(t) == Some(a),
        }
        &&& match field_spec(cs, "Round"@) {
            None => v.round is None,
            Some(t) => v.round matches Some(a) && Round::decode_spec(t) == Some(a),
        }
        &&& Some(v.presentation_last_heat) == req_bool_spec(cs, "PresentationLastHeat"@)
        &&& Some(v.break_field) == req_bool_spec(cs, "Break"@)
        &&& Some(v.prize_ceremony) == req_bool_spec(cs, "PrizeCeremony"@)
        &&& Some(v.postpone_heat) == req_bool_spec(cs, "PostponeHeat"@)
        &&& Some(v.start_after_break) == req_bool_spec(cs, "StartAfterBreak"@)
        &&& opt_text_is(cs, "PresentationTime"@, v.presentation_time)
        &&& opt_text_is(cs, "BreakTime"@, v.break_time)
        &&& opt_text_is(cs, "PrizeCeremonyTime"@, v.prize_ceremony_time)
        &&& opt_text_is(cs, "PrizeCeremonyText"@, v.prize_ceremony_text)
        &&& opt_u8_is(cs, "PostponeHeatNumber"@, v.postpone_heat_number)
        &&& opt_text_is(cs, "StartAfterBreakMin"@, v.start_after_break_min)
        &&& opt_u8_is(cs, "SesId"@, v.ses_id)
        &&& Some(v.alt_event_id as int) == req_uint_spec(cs, "AltEventId"@, u16::MAX as int)
        &&& opt_u16_is(cs, "AltSesId"@, v.alt_ses_id)
        &&& Some(v.alt_class_name) == opt_bool_spec(cs, "AltClassName"@)
        &&& Some(v.break_alt) == opt_bool_spec(cs, "BreakAlt"@)
        &&& Some(v.prize_ceremony_alt) == opt_bool_spec(cs, "PrizeCeremonyAlt"@)
        &&& opt_u16_is(cs, "LenexEventId"@, v.lenex_event_id)
        &&& opt_u16_is(cs, "LenexEventNo"@, v.lenex_event_no)
        &&& opt_u16_is(cs, "LenexEventOrder"@, v.lenex_event_order)
        &&& opt_u64_is(cs, "DEADLINEDATEWITHDRAWALS"@, v.deadline_date_withdrawals)
        &&& opt_u16_is(cs, "DEADLINETIMEWITHDRAWALS"@, v.deadline_time_withdrawals)
        &&& opt_u64_is(cs, "DEADLINEDATERELAY"@, v.deadline_date_relay)
        &&& opt_u16_is(cs, "DEADLINETIMERELAY"@, v.deadline_time_relay)
    }

    /// Decode one `Event` element. Unknown fields inside an event are
    /// tolerated; only the top-level meet record is strict.
    #[verifier::rlimit(60)]
    pub fn decode(elem: &Element) -> (r: Result<Event, DecodeError>)
        ensures
            r is Ok <==> Self::decode_wf(elem.children@),
            r matches Ok(v) ==> Self::decodes_to(elem.children@, v),
            r matches Err(e) ==> !(e is UnknownField),
    {
        proof {
            reveal(Event::decode_wf);
            reveal(Event::decodes_to);
        }
        let id = match elem.req_u32("EventNumber") {
            Ok(v) => v,
            Err(e) => {
                return Err(e);
            },
        };
        let description = match elem.req_text("EventDescription") {
            Ok(v) => v,
            Err(e) => {
                return Err(e);
            },
        };
        let distance = match elem.field_text("EventLength") {
            None => {
                return Err(DecodeError::MissingField(String::from_str("EventLength")));
            },
            Some(t) => match Distance::decode(t.as_str()) {
                Ok(v) => v,
                Err(_) => {
                    return Err(
                        DecodeError::InvalidField(String::from_str("EventLength"), t.clone()),
                    );
                },
            },
        };
        let style = match elem.field_text2("Eventart", "EventArt") {
            None => {
                return Err(DecodeError::MissingField(String::from_str("Eventart")));
            },
            Some(t) => match Style::decode(t.as_str()) {
                Ok(v) => v,
                Err(_) => {
                    return Err(DecodeError::InvalidField(String::from_str("Eventart"), t.clone()));
                },
            },
        };
        let gender_group = match elem.field_text("Sex") {
            None => {
                return Err(DecodeError::MissingField(String::from_str("Sex")));
            },
            Some(t) => match GenderGroup::decode(t.as_str()) {
                Ok(v) => v,
                Err(_) => {
                    return Err(DecodeError::InvalidField(String::from_str("Sex"), t.clone()));
                },
            },
        };
        let senior = match elem.req_bool("Senior") {
            Ok(v) => v,
            Err(e) => {
                return Err(e);
            },
        };
        let junior = match elem.req_bool("Junior") {
            Ok(v) => v,
            Err(e) => {
                return Err(e);
            },
        };
        let junior_older = match elem.req_bool("JuniorOlder") {
            Ok(v) => v,
            Err(e) => {
                return Err(e);
            },
        };
        let junior_younger = match elem.req_bool("JuniorYounger") {
            Ok(v) => v,
            Err(e) => {
                return Err(e);
            },
        };
        let youngest = match elem.opt_year("Youngest") {
            Ok(v) => v,
            Err(e) => {
                return Err(e);
            },
        };
        let oldest = match elem.opt_year("Oldest") {
            Ok(v) => v,
            Err(e) => {
                return Err(e);
            },
        };
        let pool_length = match elem.field_text("EventPoolLength") {
            None => {
                return Err(DecodeError::MissingField(String::from_str("EventPoolLength")));
            },
            Some(t) => match PoolLength::decode(t.as_str()) {
                Ok(v) => v,
                Err(_) => {
                    return Err(
                        DecodeError::InvalidField(String::from_str("EventPoolLength"), t.clone()),
                    );
                },
            },
        };
        let date = match elem.req_date("Date") {
            Ok(v) => v,
            Err(e) => {
                return Err(e);
            },
        };
        let qualification_time_long_course = match elem.opt_duration("QualLongCourse") {
            Ok(v) => v,
            Err(e) => {
                return Err(e);
            },
        };
        let qualification_time_short_course = match elem.opt_duration("QualShortCourse") {
            Ok(v) => v,
            Err(e) => {
                return Err(e);
            },
        };
        let sorting = match elem.field_text("Sorting") {
            None => {
                return Err(DecodeError::MissingField(String::from_str("Sorting")));
            },
            Some(t) => match Sorting::decode(t.as_str()) {
                Ok(v) => v,
                Err(_) => {
                    return Err(DecodeError::InvalidField(String::from_str("Sorting"), t.clone()));
                },
            },
        };
        let no_qualification_for_handicap = match elem.req_bool("NoQualHcEvent") {
            Ok(v) => v,
            Err(e) => {
                return Err(e);
            },
        };
        let web_heat = match elem.req_bool("Webheat") {
            Ok(v) => v,
            Err(e) => {
                return Err(e);
            },
        };
        let sponsor = elem.opt_text("Sponsor");
        let srjrcombi = match elem.req_bool("SRJRCOMBI") {
            Ok(v) => v,
            Err(e) => {
                return Err(e);
            },
        };
        let free = match elem.field_text2("Free", "FREE") {
            None => {
                return Err(DecodeError::MissingField(String::from_str("Free")));
            },
            Some(t) => match super::primitives::parse_bool(t.as_str()) {
                Ok(v) => v,
                Err(_) => {
                    return Err(DecodeError::InvalidField(String::from_str("Free"), t.clone()));
                },
            },
        };
        let dont_show_age_group = match elem.req_bool("DontShowAgeGroup") {
            Ok(v) => v,
            Err(e) => {
                return Err(e);
            },
        };
        let show_entry_times = match elem.req_bool("ShowEntryTimes") {
            Ok(v) => v,
            Err(e) => {
                return Err(e);
            },
        };
        let awards = match elem.field_text("Prizes") {
            None => None,
            Some(t) => match Award::decode(t.as_str()) {
                Ok(v) => Some(v),
                Err(_) => {
                    return Err(DecodeError::InvalidField(String::from_str("Prizes"), t.clone()));
                },
            },
        };
        let round = match elem.field_text("Round") {
            None => None,
            Some(t) => match Round::decode(t.as_str()) {
                Ok(v) => Some(v),
                Err(_) => {
                    return Err(DecodeError::InvalidField(String::from_str("Round"), t.clone()));
                },
            },
        };
        let presentation_last_heat = match elem.req_bool("PresentationLastHeat") {
            Ok(v) => v,
            Err(e) => {
                return Err(e);
            },
        };
        let break_field = match elem.req_bool("Break") {
            Ok(v) => v,
            Err(e) => {
                return Err(e);
            },
        };
        let prize_ceremony = match elem.req_bool("PrizeCeremony") {
            Ok(v) => v,
            Err(e) => {
                return Err(e);
            },
        };
        let postpone_heat = match elem.req_bool("PostponeHeat") {
            Ok(v) => v,
            Err(e) => {
                return Err(e);
            },
        };
        let start_after_break = match elem.req_bool("StartAfterBreak") {
            Ok(v) => v,
            Err(e) => {
                return Err(e);
            },
        };
        let presentation_time = elem.opt_text("PresentationTime");
        let break_time = elem.opt_text("BreakTime");
        let prize_ceremony_time = elem.opt_text("PrizeCeremonyTime");
        let prize_ceremony_text = elem.opt_text("PrizeCeremonyText");
        let postpone_heat_number = match elem.opt_u8("PostponeHeatNumber") {
            Ok(v) => v,
            Err(e) => {
                return Err(e);
            },
        };
        let start_after_break_min = elem.opt_text("StartAfterBreakMin");
        let ses_id = match elem.opt_u8("SesId") {
            Ok(v) => v,
            Err(e) => {
                return Err(e);
            },
        };
        let alt_event_id = match elem.req_u16("AltEventId") {
            Ok(v) => v,
            Err(e) => {
                return Err(e);
            },
        };
        let alt_ses_id = match elem.opt_u16("AltSesId") {
            Ok(v) => v,
            Err(e) => {
                return Err(e);
            },
        };
        let alt_class_name = match elem.opt_bool("AltClassName") {
            Ok(v) => v,
            Err(e) => {
                return Err(e);
            },
        };
        let break_alt = match elem.opt_bool("BreakAlt") {
            Ok(v) => v,
            Err(e) => {
                return Err(e);
            },
        };
        let prize_ceremony_alt = match elem.opt_bool("PrizeCeremonyAlt") {
            Ok(v) => v,
            Err(e) => {
                return Err(e);
            },
        };
        let lenex_event_id = match elem.opt_u16("LenexEventId") {
            Ok(v) => v,
            Err(e) => {
                return Err(e);
            },
        };
        let lenex_event_no = match elem.opt_u16("LenexEventNo") {
            Ok(v) => v,
            Err(e) => {
                return Err(e);
            },
        };
        let lenex_event_order = match elem.opt_u16("LenexEventOrder") {
            Ok(v) => v,
            Err(e) => {
                return Err(e);
            },
        };
        let deadline_date_withdrawals = match elem.opt_u64("DEADLINEDATEWITHDRAWALS") {
            Ok(v) => v,
            Err(e) => {
                return Err(e);
            },
        };
        let deadline_time_withdrawals = match elem.opt_u16("DEADLINETIMEWITHDRAWALS") {
            Ok(v) => v,
            Err(e) => {
                return Err(e);
            },
        };
        let deadline_date_relay = match elem.opt_u64("DEADLINEDATERELAY") {
            Ok(v) => v,
            Err(e) => {
                return Err(e);
            },
        };
        let deadline_time_relay = match elem.opt_u16("DEADLINETIMERELAY") {
            Ok(v) => v,
            Err(e) => {
                return Err(e);
            },
        };
        Ok(
            Event {
                id,
                description,
                distance,
                style,
                gender_group,
                senior,
                junior,
                junior_older,
                junior_younger,
                youngest,
                oldest,
                pool_length,
                date,
                qualification_time_long_course,
                qualification_time_short_course,
                sorting,
                no_qualification_for_handicap,
                web_heat,
                sponsor,
                srjrcombi,
                free,
                dont_show_age_group,
                show_entry_times,
                awards,
                round,
                presentation_last_heat,
                break_field,
                prize_ceremony,
                postpone_heat,
                start_after_break,
                presentation_time,
                break_time,
                prize_ceremony_time,
                prize_ceremony_text,
                postpone_heat_number,
                start_after_break_min,
                ses_id,
                alt_event_id,
                alt_ses_id,
                alt_class_name,
                break_alt,
                prize_ceremony_alt,
                lenex_event_id,
                lenex_event_no,
                lenex_event_order,
                deadline_date_withdrawals,
                deadline_time_withdrawals,
                deadline_date_relay,
                deadline_time_relay,
            },
        )
    }
}

} // verus!
