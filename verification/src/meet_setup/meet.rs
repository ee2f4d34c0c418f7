//! The meet record: the full configuration stored in a `meetsetup.xml`
//! document.

use super::age_group::DefinedAgeGroups;
use super::australian_rank::AustralianRank;
use super::australian_world_record::AustralianWorldRecord;
use super::award::Award;
use super::competition_type::CompetitionType;
use super::distance::Distance;
use super::document::{
    children_named, field2_spec, field3_spec, field_spec, find_spec, lemma_children_named_prefix,
    opt_bool_spec, opt_date_spec, opt_text_is, opt_uint_spec, opt_year_spec, req_bool_spec,
    req_date_spec, req_text_is, req_uint_spec, year_value, DecodeError, Element,
};
use super::event::{opt_u16_is, opt_u8_is, opt_year_is, Event};
use super::person::Person;
use super::pool_category::PoolCategory;
use super::primitives::{opt_bool_value, Date};
use super::qualification_set::QualificationSet;
use super::session::Session;
use super::touch_pad_set::TouchPadSet;
use crate::text::{str_eq, u32_zero_pad11, zero_pad11_spec};
use vstd::prelude::*;

verus! {

/// One meet's full configuration, as `meetsetup.xml` stores it. Only
/// meet settings live here; enrollment and results belong to other
/// vendor documents.
#[derive(Debug, Clone, PartialEq, Eq)]
pub struct Meet {
    /// Vendor meet-config version.
    pub nsf_version: String,
    /// Software that generated the document.
    pub creator: String,
    /// Norwegian swimming federation meet id.
    pub nsf_meet_id: Option<u32>,
    /// Meet name.
    pub name: String,
    /// Readable representation of the date.
    pub date: String,
    /// Location of the meet.
    pub location: String,
    /// Pool measuring category.
    pub pool_category: PoolCategory,
    /// Pool length, written as a distance token.
    pub pool_length: Distance,
    /// First lane in use.
    pub start_with_lane: Option<u8>,
    /// Number of lanes in the competition.
    pub lanes: u8,
    /// Enrollment price for one individual entry.
    pub individual_price: u16,
    /// Enrollment price for one relay team entry.
    pub team_price: u16,
    /// Second individual price tier.
    pub individual_price2: u16,
    /// Second team price tier.
    pub team_price2: u16,
    /// Price for unlimited entries.
    pub one_price_all: u16,
    /// Birth years that pay once for unlimited starts.
    pub birth_years_pay_once: Option<Vec<i16>>,
    /// Whether the Australian ranking model applies.
    pub australian_model: bool,
    /// Ranking policy of the Australian model.
    pub australian_rank: AustralianRank,
    /// Reference record of the Australian model.
    pub australian_world_record: AustralianWorldRecord,
    /// Merge all handicap classes into one.
    pub hc_single_age_group: bool,
    /// Women born this year or earlier compete as seniors.
    pub women_senior: Option<i16>,
    /// Extra scheduling time for backstroke events.
    pub extra_time_backstroke: Option<u8>,
    /// Men born this year or earlier compete as seniors.
    pub men_senior: Option<i16>,
    /// Junior boundary year for women.
    pub women_junior: Option<i16>,
    /// Junior boundary year for men.
    pub men_junior: Option<i16>,
    /// Second junior boundary year for women.
    pub women_junior2: Option<i16>,
    /// Second junior boundary year for men.
    pub men_junior2: Option<i16>,
    /// Youngest final year for women.
    pub women_youngest_final: Option<i16>,
    /// Youngest final year for men.
    pub men_youngest_final: Option<i16>,
    /// The meet is primarily a masters meet.
    pub primary_masters: bool,
    /// Personal bests must be no later than this date.
    pub final_entry_date: Date,
    /// Personal bests must be no older than this date.
    pub first_entry_date: Date,
    /// Last enrollment date.
    pub last_entry_date: Date,
    /// Qualifications do not apply to handicapped athletes.
    pub no_qual_hc: bool,
    /// Date the meet starts.
    pub date_start: Option<Date>,
    /// Date the meet ends.
    pub date_end: Option<Date>,
    /// Host club.
    pub host_club: Option<String>,
    /// Organization number of the host club.
    pub host_club_organization_no: Option<String>,
    /// Competition type, written as a numeric code.
    pub competition_type_id: CompetitionType,
    /// Community of the host.
    pub community: Option<String>,
    /// Readable competition type text.
    pub competition_type: String,
    /// Address where results are published.
    pub result_web_address: Option<String>,
    /// Home page of the meet.
    pub home_page: Option<String>,
    /// Enrollment email address.
    pub entry_email: Option<String>,
    /// Payment account for clubs.
    pub pay_account: String,
    /// General senior flag.
    pub general_senior: Option<bool>,
    /// General junior flag.
    pub general_junior: Option<bool>,
    /// General handicap flag.
    pub general_hc: Option<bool>,
    /// Pool length of the starting heat.
    pub pool_length_start_heat: Option<String>,
    /// Long-course entry time policy.
    pub lcm_entry_times: Option<String>,
    /// Short-course fallback for entry times.
    pub scm_entry_times_if_lcm_does_not_exists: Option<String>,
    /// Sort long-course times before short-course times.
    pub sort_lcm_before_scm: Option<String>,
    /// General masters flag.
    pub general_masters: Option<bool>,
    /// The meet has no pool.
    pub no_pool: Option<bool>,
    /// The meet has been cancelled.
    pub cancelled: bool,
    /// Optional info text.
    pub info: Option<String>,
    /// Print the country in listings.
    pub write_country: bool,
    /// Print records in the heat lists.
    pub records_in_heat_list: bool,
    /// Print the first lap.
    pub write_first_lap: Option<bool>,
    /// Print page numbers in heat lists.
    pub page_number_in_heat_list: Option<bool>,
    /// Print the first relay stage.
    pub write_first_stage: Option<bool>,
    /// Use the group text in listings.
    pub use_group_text: bool,
    /// Show the time schedule.
    pub show_time_schedule: bool,
    /// Show the time only for the first heat.
    pub show_time_only_heat_one: bool,
    /// Show the heat text.
    pub show_heat_text: bool,
    /// Touch-pad configuration of the meet.
    pub touch_pads: TouchPadSet,
    /// Print the extra price lines.
    pub write_other_prices: bool,
    /// No results are reported to the record database.
    pub unofficial: bool,
    /// Extra payment line 1.
    pub other_payment1: Option<String>,
    /// Extra price line 1.
    pub other_price1: Option<u16>,
    /// Extra payment line 2.
    pub other_payment2: Option<String>,
    /// Extra price line 2.
    pub other_price2: Option<u16>,
    /// Extra payment line 3.
    pub other_payment3: Option<String>,
    /// Extra price line 3.
    pub other_price3: Option<u16>,
    /// Extra payment line 4.
    pub other_payment4: Option<String>,
    /// Extra price line 4.
    pub other_price4: Option<u16>,
    /// Extra payment line 5.
    pub other_payment5: Option<String>,
    /// Extra price line 5.
    pub other_price5: Option<u16>,
    /// Extra payment line 6.
    pub other_payment6: Option<String>,
    /// Extra price line 6.
    pub other_price6: Option<u16>,
    /// Extra payment line 7.
    pub other_payment7: Option<String>,
    /// Extra price line 7.
    pub other_price7: Option<u16>,
    /// Extra payment line 8.
    pub other_payment8: Option<String>,
    /// Extra price line 8.
    pub other_price8: Option<u16>,
    /// Print date and time in listings.
    pub write_date_time: bool,
    /// Header text of listings.
    pub header: Option<String>,
    /// Footer text of listings.
    pub footer: Option<String>,
    /// Default award configuration of the meet.
    pub awards: Option<Award>,
    /// Start heats on full minutes.
    pub start_on_minute: Option<bool>,
    /// Minutes between events.
    pub time_between: Option<u16>,
    /// Extra scheduling time.
    pub extra_time: Option<u16>,
    /// Sessions of the meet, in document order.
    pub sessions: Vec<Session>,
    /// Enrollment qualifications, when the meet has any.
    pub qualification_set: Option<QualificationSet>,
    /// Host representative managing enrollment.
    pub entry_manager: Option<Person>,
    /// Age groups defined for the meet.
    pub age_groups: Option<DefinedAgeGroups>,
    /// Host representative managing the meet.
    pub competition_manager: Option<Person>,
    /// Events of the meet, in document order.
    pub events: Vec<Event>,
}

/// The field names the strict meet schema knows, vendor aliases
/// included.
pub open spec fn spec_meet_known(name: Seq<char>) -> bool {
    ||| name == "NsfVersion"@
    ||| name == "Creator"@
    ||| name == "NSFMeetId"@
    ||| name == "MeetName"@
    ||| name == "MeetDate"@
    ||| name == "MeetPlace"@
    ||| name == "PoolCategory"@
    ||| name == "PoolLength"@
    ||| name == "StartWithLane"@
    ||| name == "Lanes"@
    ||| name == "IndividualPrice"@
    ||| name == "TeamPrice"@
    ||| name == "IndividualPrice2"@
    ||| name == "TeamPrice2"@
    ||| name == "OnePriceAll"@
    ||| name == "OnePriceAllClasses"@
    ||| name == "AustralianModel"@
    ||| name == "AustralianRank"@
    ||| name == "AustralianWorldRecord"@
    ||| name == "HCSingleAgeGroup"@
    ||| name == "WomenSenior"@
    ||| name == "ExtraTimeBackstroke"@
    ||| name == "MenSenior"@
    ||| name == "menSenior"@
    ||| name == "WomenJunior"@
    ||| name == "MenJunior"@
    ||| name == "WomenJunior2"@
    ||| name == "MenJunior2"@
    ||| name == "WomenYoungestFinal"@
    ||| name == "MenYoungestFinal"@
    ||| name == "PrimaryMasters"@
    ||| name == "FinalEntryDate"@
    ||| name == "FirstEntryDate"@
    ||| name == "LastEntryDate"@
    ||| name == "NoQualHC"@
    ||| name == "StartDate"@
    ||| name == "EndDate"@
    ||| name == "HostClub"@
    ||| name == "HostClubOrganizationNo"@
    ||| name == "CompetitionTypeId"@
    ||| name == "Community"@
    ||| name == "CompetitionType"@
    ||| name == "ResultWebaddress"@
    ||| name == "Homepage"@
    ||| name == "EntryEmail"@
    ||| name == "MailPameldinger"@
    ||| name == "EntryMail"@
    ||| name == "PayAccount"@
    ||| name == "GeneralSenior"@
    ||| name == "GeneralJunior"@
    ||| name == "GeneralHC"@
    ||| name == "PoolLengthStartHeat"@
    ||| name == "LCMEntrytimes"@
    ||| name == "SCMEntrytimesIfLCMDoesNotExist"@
    ||| name == "SortLCMBeforeSCM"@
    ||| name == "GeneralMasters"@
    ||| name == "NoPool"@
    ||| name == "Cancelled"@
    ||| name == "Info"@
    ||| name == "WriteCountry"@
    ||| name == "RecordsInHeatlist"@
    ||| name == "WriteFirstLap"@
    ||| name == "PageNumberInHeatlist"@
    ||| name == "WriteFirstStage"@
    ||| name == "Skriv1etappe"@
    ||| name == "UseGroupText"@
    ||| name == "ShowTimeSchedule"@
    ||| name == "ShowTimeOnlyHeatOne"@
    ||| name == "ShowHeatText"@
    ||| name == "Touchpads"@
    ||| name == "WriteOtherPrices"@
    ||| name == "Unofficial"@
    ||| name == "OtherPayment1"@
    ||| name == "OtherPrice1"@
    ||| name == "OtherPayment2"@
    ||| name == "OtherPrice2"@
    ||| name == "OtherPayment3"@
    ||| name == "OtherPrice3"@
    ||| name == "OtherPayment4"@
    ||| name == "OtherPrice4"@
    ||| name == "OtherPayment5"@
    ||| name == "OtherPrice5"@
    ||| name == "OtherPayment6"@
    ||| name == "OtherPrice6"@
    ||| name == "OtherPayment7"@
    ||| name == "OtherPrice7"@
    ||| name == "OtherPayment8"@
    ||| name == "OtherPrice8"@
    ||| name == "WriteDateTime"@
    ||| name == "Header"@
    ||| name == "Footer"@
    ||| name == "Prizes"@
    ||| name == "StartOnMinute"@
    ||| name == "TimeBetween"@
    ||| name == "ExtraTime"@
    ||| name == "Sessions"@
    ||| name == "QualificationSet"@
    ||| name == "EntryManager"@
    ||| name == "DefinedAgeGroups"@
    ||| name == "CompetitionManager"@
    ||| name == "Events"@
}

/// Every child of the element carries a known field name.
pub open spec fn fields_known(cs: Seq<Element>) -> bool {
    forall|j: int| 0 <= j < cs.len() ==> spec_meet_known(#[trigger] cs[j].name@)
}

/// Whether a field name belongs to the strict meet schema.
pub fn meet_known_field(name: &str) -> (r: bool)
    ensures
        r == spec_meet_known(name@),
{
    str_eq(name, "NsfVersion")
        || str_eq(name, "Creator")
        || str_eq(name, "NSFMeetId")
        || str_eq(name, "MeetName")
        || str_eq(name, "MeetDate")
        || str_eq(name, "MeetPlace")
        || str_eq(name, "PoolCategory")
        || str_eq(name, "PoolLength")
        || str_eq(name, "StartWithLane")
        || str_eq(name, "Lanes")
        || str_eq(name, "IndividualPrice")
        || str_eq(name, "TeamPrice")
        || str_eq(name, "IndividualPrice2")
        || str_eq(name, "TeamPrice2")
        || str_eq(name, "OnePriceAll")
        || str_eq(name, "OnePriceAllClasses")
        || str_eq(name, "AustralianModel")
        || str_eq(name, "AustralianRank")
        || str_eq(name, "AustralianWorldRecord")
        || str_eq(name, "HCSingleAgeGroup")
        || str_eq(name, "WomenSenior")
        || str_eq(name, "ExtraTimeBackstroke")
        || str_eq(name, "MenSenior")
        || str_eq(name, "menSenior")
        || str_eq(name, "WomenJunior")
        || str_eq(name, "MenJunior")
        || str_eq(name, "WomenJunior2")
        || str_eq(name, "MenJunior2")
        || str_eq(name, "WomenYoungestFinal")
        || str_eq(name, "MenYoungestFinal")
        || str_eq(name, "PrimaryMasters")
        || str_eq(name, "FinalEntryDate")
        || str_eq(name, "FirstEntryDate")
        || str_eq(name, "LastEntryDate")
        || str_eq(name, "NoQualHC")
        || str_eq(name, "StartDate")
        || str_eq(name, "EndDate")
        || str_eq(name, "HostClub")
        || str_eq(name, "HostClubOrganizationNo")
        || str_eq(name, "CompetitionTypeId")
        || str_eq(name, "Community")
        || str_eq(name, "CompetitionType")
        || str_eq(name, "ResultWebaddress")
        || str_eq(name, "Homepage")
        || str_eq(name, "EntryEmail")
        || str_eq(name, "MailPameldinger")
        || str_eq(name, "EntryMail")
        || str_eq(name, "PayAccount")
        || str_eq(name, "GeneralSenior")
        || str_eq(name, "GeneralJunior")
        || str_eq(name, "GeneralHC")
        || str_eq(name, "PoolLengthStartHeat")
        || str_eq(name, "LCMEntrytimes")
        || str_eq(name, "SCMEntrytimesIfLCMDoesNotExist")
        || str_eq(name, "SortLCMBeforeSCM")
        || str_eq(name, "GeneralMasters")
        || str_eq(name, "NoPool")
        || str_eq(name, "Cancelled")
        || str_eq(name, "Info")
        || str_eq(name, "WriteCountry")
        || str_eq(name, "RecordsInHeatlist")
        || str_eq(name, "WriteFirstLap")
        || str_eq(name, "PageNumberInHeatlist")
        || str_eq(name, "WriteFirstStage")
        || str_eq(name, "Skriv1etappe")
        || str_eq(name, "UseGroupText")
        || str_eq(name, "ShowTimeSchedule")
        || str_eq(name, "ShowTimeOnlyHeatOne")
        || str_eq(name, "ShowHeatText")
        || str_eq(name, "Touchpads")
        || str_eq(name, "WriteOtherPrices")
        || str_eq(name, "Unofficial")
        || str_eq(name, "OtherPayment1")
        || str_eq(name, "OtherPrice1")
        || str_eq(name, "OtherPayment2")
        || str_eq(name, "OtherPrice2")
        || str_eq(name, "OtherPayment3")
        || str_eq(name, "OtherPrice3")
        || str_eq(name, "OtherPayment4")
        || str_eq(name, "OtherPrice4")
        || str_eq(name, "OtherPayment5")
        || str_eq(name, "OtherPrice5")
        || str_eq(name, "OtherPayment6")
        || str_eq(name, "OtherPrice6")
        || str_eq(name, "OtherPayment7")
        || str_eq(name, "OtherPrice7")
        || str_eq(name, "OtherPayment8")
        || str_eq(name, "OtherPrice8")
        || str_eq(name, "WriteDateTime")
        || str_eq(name, "Header")
        || str_eq(name, "Footer")
        || str_eq(name, "Prizes")
        || str_eq(name, "StartOnMinute")
        || str_eq(name, "TimeBetween")
        || str_eq(name, "ExtraTime")
        || str_eq(name, "Sessions")
        || str_eq(name, "QualificationSet")
        || str_eq(name, "EntryManager")
        || str_eq(name, "DefinedAgeGroups")
        || str_eq(name, "CompetitionManager")
        || str_eq(name, "Events")
}

/// What was replaced: every space of the input becomes an underscore,
/// all other characters stay.
pub open spec fn replace_spaces_spec(s: Seq<char>) -> Seq<char> {
    s.map_values(|c: char| if c == ' ' { '_' } else { c })
}

/// Relies on `str::replace` with a one-character pattern: each space
/// becomes an underscore, one for one, and nothing else changes.
#[verifier::external_body]
fn replace_spaces(s: &str) -> (r: String)
    ensures
        r@ == replace_spaces_spec(s@),
{
    s.replace(' ', "_")
}

/// The lower-case form of a string; what it is exactly depends only on
/// the characters of the input.
pub uninterp spec fn lower_of(s: Seq<char>) -> Seq<char>;

/// Relies on `str::to_lowercase`: the result is a function of the input
/// characters alone, and an empty input stays empty.
#[verifier::external_body]
fn lowercase(s: &str) -> (r: String)
    ensures
        r@ == lower_of(s@),
        s@.len() == 0 ==> r@.len() == 0,
{
    s.to_lowercase()
}

/// The canonical cache file name of a meet.
pub open spec fn meet_filename_spec(nsf_meet_id: Option<u32>, name: Seq<char>) -> Seq<char> {
    match nsf_meet_id {
        Some(id) => zero_pad11_spec(id as int),
        None => lower_of(replace_spaces_spec(name)),
    }
}

/// The canonical cache file name of a meet: the federation id zero-padded
/// to 11 digits when the meet has one, otherwise the meet name with
/// spaces replaced by underscores and lowered. The id-based name is
/// collision-free; the name-based fallback exists for meets without an
/// id.
pub fn meet_filename(nsf_meet_id: Option<u32>, name: &str) -> (r: String)
    ensures
        r@ == meet_filename_spec(nsf_meet_id, name@),
{
    match nsf_meet_id {
        Some(id) => u32_zero_pad11(id),
        None => lowercase(replace_spaces(name).as_str()),
    }
}

/// One slice of the meet's scalar fields, decoded as a unit.
struct PartGeneral {
    /// Vendor meet-config version.
    pub nsf_version: String,
    /// Software that generated the document.
    pub creator: String,
    /// Norwegian swimming federation meet id.
    pub nsf_meet_id: Option<u32>,
    /// Meet name.
    pub name: String,
    /// Readable representation of the date.
    pub date: String,
    /// Location of the meet.
    pub location: String,
    /// Pool measuring category.
    pub pool_category: PoolCategory,
    /// Pool length, written as a distance token.
    pub pool_length: Distance,
    /// First lane in use.
    pub start_with_lane: Option<u8>,
    /// Number of lanes in the competition.
    pub lanes: u8,
    /// Enrollment price for one individual entry.
    pub individual_price: u16,
    /// Enrollment price for one relay team entry.
    pub team_price: u16,
    /// Second individual price tier.
    pub individual_price2: u16,
    /// Second team price tier.
    pub team_price2: u16,
    /// Price for unlimited entries.
    pub one_price_all: u16,
    /// Birth years that pay once for unlimited starts.
    pub birth_years_pay_once: Option<Vec<i16>>,
    /// Whether the Australian ranking model applies.
    pub australian_model: bool,
    /// Ranking policy of the Australian model.
    pub australian_rank: AustralianRank,
    /// Reference record of the Australian model.
    pub australian_world_record: AustralianWorldRecord,
    /// Merge all handicap classes into one.
    pub hc_single_age_group: bool,
    /// Women born this year or earlier compete as seniors.
    pub women_senior: Option<i16>,
    /// Extra scheduling time for backstroke events.
    pub extra_time_backstroke: Option<u8>,
    /// Men born this year or earlier compete as seniors.
    pub men_senior: Option<i16>,
    /// Junior boundary year for women.
    pub women_junior: Option<i16>,
    /// Junior boundary year for men.
    pub men_junior: Option<i16>,
    /// Second junior boundary year for women.
    pub women_junior2: Option<i16>,
    /// Second junior boundary year for men.
    pub men_junior2: Option<i16>,
    /// Youngest final year for women.
    pub women_youngest_final: Option<i16>,
    /// Youngest final year for men.
    pub men_youngest_final: Option<i16>,
    /// The meet is primarily a masters meet.
    pub primary_masters: bool,
}

/// The fields of this slice are present and valid.
pub open spec fn general_wf(cs: Seq<Element>) -> bool {
        &&& field_spec(cs, "NsfVersion"@) is Some
        &&& field_spec(cs, "Creator"@) is Some
        &&& opt_uint_spec(cs, "NSFMeetId"@, u32::MAX as int) is Some
        &&& field_spec(cs, "MeetName"@) is Some
        &&& field_spec(cs, "MeetDate"@) is Some
        &&& field_spec(cs, "MeetPlace"@) is Some
        &&& (field_spec(cs, "PoolCategory"@) matches Some(t) && PoolCategory::decode_spec(t) is Some)
        &&& (field_spec(cs, "PoolLength"@) matches Some(t) && Distance::decode_spec(t) is Some)
        &&& opt_uint_spec(cs, "StartWithLane"@, u8::MAX as int) is Some
        &&& req_uint_spec(cs, "Lanes"@, u8::MAX as int) is Some
        &&& req_uint_spec(cs, "IndividualPrice"@, u16::MAX as int) is Some
        &&& req_uint_spec(cs, "TeamPrice"@, u16::MAX as int) is Some
        &&& req_uint_spec(cs, "IndividualPrice2"@, u16::MAX as int) is Some
        &&& req_uint_spec(cs, "TeamPrice2"@, u16::MAX as int) is Some
        &&& req_uint_spec(cs, "OnePriceAll"@, u16::MAX as int) is Some
        &&& match find_spec(cs, "OnePriceAllClasses"@) {
            None => true,
            Some(e) => forall|k: int|
                0 <= k < e.children@.len() ==> year_value(#[trigger] e.children@[k].text@) is Some,
        }
        &&& req_bool_spec(cs, "AustralianModel"@) is Some
        &&& (field_spec(cs, "AustralianRank"@) matches Some(t) && AustralianRank::decode_spec(t) is Some)
        &&& (field_spec(cs, "AustralianWorldRecord"@) matches Some(t) && AustralianWorldRecord::decode_spec(t) is Some)
        &&& req_bool_spec(cs, "HCSingleAgeGroup"@) is Some
        &&& opt_year_spec(cs, "WomenSenior"@) is Some
        &&& opt_uint_spec(cs, "ExtraTimeBackstroke"@, u8::MAX as int) is Some
        &&& match field2_spec(cs, "MenSenior"@, "menSenior"@) {
            None => true,
            Some(t) => year_value(t) is Some,
        }
        &&& opt_year_spec(cs, "WomenJunior"@) is Some
        &&& opt_year_spec(cs, "MenJunior"@) is Some
        &&& opt_year_spec(cs, "WomenJunior2"@) is Some
        &&& opt_year_spec(cs, "MenJunior2"@) is Some
        &&& opt_year_spec(cs, "WomenYoungestFinal"@) is Some
        &&& opt_year_spec(cs, "MenYoungestFinal"@) is Some
        &&& req_bool_spec(cs, "PrimaryMasters"@) is Some
}

/// The slice `v` is exactly what the document says.
spec fn general_rel(cs: Seq<Element>, v: PartGeneral) -> bool {
        &&& req_text_is(cs, "NsfVersion"@, v.nsf_version@)
        &&& req_text_is(cs, "Creator"@, v.creator@)
        &&& opt_uint_spec(cs, "NSFMeetId"@, u32::MAX as int) == Some(
            match v.nsf_meet_id {
                Some(x) => Some(x as int),
                None => None,
            },
        )
        &&& req_text_is(cs, "MeetName"@, v.name@)
        &&& req_text_is(cs, "MeetDate"@, v.date@)
        &&& req_text_is(cs, "MeetPlace"@, v.location@)
        &&& (field_spec(cs, "PoolCategory"@) matches Some(t) && PoolCategory::decode_spec(t) == Some(v.pool_category))
        &&& (field_spec(cs, "PoolLength"@) matches Some(t) && Distance::decode_spec(t) == Some(v.pool_length))
        &&& opt_u8_is(cs, "StartWithLane"@, v.start_with_lane)
        &&& Some(v.lanes as int) == req_uint_spec(cs, "Lanes"@, u8::MAX as int)
        &&& Some(v.individual_price as int) == req_uint_spec(cs, "IndividualPrice"@, u16::MAX as int)
        &&& Some(v.team_price as int) == req_uint_spec(cs, "TeamPrice"@, u16::MAX as int)
        &&& Some(v.individual_price2 as int) == req_uint_spec(cs, "IndividualPrice2"@, u16::MAX as int)
        &&& Some(v.team_price2 as int) == req_uint_spec(cs, "TeamPrice2"@, u16::MAX as int)
        &&& Some(v.one_price_all as int) == req_uint_spec(cs, "OnePriceAll"@, u16::MAX as int)
        &&& match find_spec(cs, "OnePriceAllClasses"@) {
            None => v.birth_years_pay_once is None,
            Some(e) => v.birth_years_pay_once matches Some(ys) && ys@.len() == e.children@.len() && (forall|k: int|
                0 <= k < e.children@.len() ==> year_value(#[trigger] e.children@[k].text@) == Some(
                    ys@[k] as int,
                )),
        }
        &&& Some(v.australian_model) == req_bool_spec(cs, "AustralianModel"@)
        &&& (field_spec(cs, "AustralianRank"@) matches Some(t) && AustralianRank::decode_spec(t) == Some(v.australian_rank))
        &&& (field_spec(cs, "AustralianWorldRecord"@) matches Some(t) && AustralianWorldRecord::decode_spec(t) == Some(v.australian_world_record))
        &&& Some(v.hc_single_age_group) == req_bool_spec(cs, "HCSingleAgeGroup"@)
        &&& opt_year_is(cs, "WomenSenior"@, v.women_senior)
        &&& opt_u8_is(cs, "ExtraTimeBackstroke"@, v.extra_time_backstroke)
        &&& match field2_spec(cs, "MenSenior"@, "menSenior"@) {
            None => v.men_senior is None,
            Some(t) => v.men_senior matches Some(y) && year_value(t) == Some(y as int),
        }
        &&& opt_year_is(cs, "WomenJunior"@, v.women_junior)
        &&& opt_year_is(cs, "MenJunior"@, v.men_junior)
        &&& opt_year_is(cs, "WomenJunior2"@, v.women_junior2)
        &&& opt_year_is(cs, "MenJunior2"@, v.men_junior2)
        &&& opt_year_is(cs, "WomenYoungestFinal"@, v.women_youngest_final)
        &&& opt_year_is(cs, "MenYoungestFinal"@, v.men_youngest_final)
        &&& Some(v.primary_masters) == req_bool_spec(cs, "PrimaryMasters"@)
}

/// Decode this slice of scalar fields.
#[verifier::loop_isolation(false)]
#[verifier::rlimit(100)]
fn decode_general(root: &Element) -> (r: Result<PartGeneral, DecodeError>)
    ensures
        r is Ok <==> general_wf(root.children@),
        r matches Ok(v) ==> general_rel(root.children@, v),
        r matches Err(e) ==> !(e is UnknownField),
{
        let nsf_version = match root.req_text("NsfVersion") {
            Ok(v) => v,
            Err(e) => {
                return Err(e);
            },
        };
        let creator = match root.req_text("Creator") {
            Ok(v) => v,
            Err(e) => {
                return Err(e);
            },
        };
        let nsf_meet_id = match root.opt_u32("NSFMeetId") {
            Ok(v) => v,
            Err(e) => {
                return Err(e);
            },
        };
        let name = match root.req_text("MeetName") {
            Ok(v) => v,
            Err(e) => {
                return Err(e);
            },
        };
        let date = match root.req_text("MeetDate") {
            Ok(v) => v,
            Err(e) => {
                return Err(e);
            },
        };
        let location = match root.req_text("MeetPlace") {
            Ok(v) => v,
            Err(e) => {
                return Err(e);
            },
        };
        let pool_category = match root.field_text("PoolCategory") {
            None => {
                return Err(DecodeError::MissingField(String::from_str("PoolCategory")));
            },
            Some(t) => match PoolCategory::decode(t.as_str()) {
                Ok(v) => v,
                Err(_) => {
                    return Err(DecodeError::InvalidField(String::from_str("PoolCategory"), t.clone()));
                },
            },
        };
        let pool_length = match root.field_text("PoolLength") {
            None => {
                return Err(DecodeError::MissingField(String::from_str("PoolLength")));
            },
            Some(t) => match Distance::decode(t.as_str()) {
                Ok(v) => v,
                Err(_) => {
                    return Err(DecodeError::InvalidField(String::from_str("PoolLength"), t.clone()));
                },
            },
        };
        let start_with_lane = match root.opt_u8("StartWithLane") {
            Ok(v) => v,
            Err(e) => {
                return Err(e);
            },
        };
        let lanes = match root.req_u8("Lanes") {
            Ok(v) => v,
            Err(e) => {
                return Err(e);
            },
        };
        let individual_price = match root.req_u16("IndividualPrice") {
            Ok(v) => v,
            Err(e) => {
                return Err(e);
            },
        };
        let team_price = match root.req_u16("TeamPrice") {
            Ok(v) => v,
            Err(e) => {
                return Err(e);
            },
        };
        let individual_price2 = match root.req_u16("IndividualPrice2") {
            Ok(v) => v,
            Err(e) => {
                return Err(e);
            },
        };
        let team_price2 = match root.req_u16("TeamPrice2") {
            Ok(v) => v,
            Err(e) => {
                return Err(e);
            },
        };
        let one_price_all = match root.req_u16("OnePriceAll") {
            Ok(v) => v,
            Err(e) => {
                return Err(e);
            },
        };
        let birth_years_pay_once: Option<Vec<i16>> = match root.find("OnePriceAllClasses") {
            None => None,
            Some(e) => {
                let m = e.children.len();
                let mut years: Vec<i16> = Vec::new();
                let mut j: usize = 0;
                while j < m
                    invariant
                        j <= m,
                        years@.len() == j,
                        forall|k: int|
                            0 <= k < j ==> year_value(#[trigger] e.children@[k].text@) == Some(
                                years@[k] as int,
                            ),
                    decreases m - j,
                {
                    let t = &e.children[j].text;
                    match super::primitives::parse_year(t.as_str()) {
                        Ok(y) => years.push(y),
                        Err(_) => {
                            return Err(
                                DecodeError::InvalidField(
                                    String::from_str("OnePriceAllClasses"),
                                    t.clone(),
                                ),
                            );
                        },
                    }
                    j = j + 1;
                }
                Some(years)
            },
        };
        let australian_model = match root.req_bool("AustralianModel") {
            Ok(v) => v,
            Err(e) => {
                return Err(e);
            },
        };
        let australian_rank = match root.field_text("AustralianRank") {
            None => {
                return Err(DecodeError::MissingField(String::from_str("AustralianRank")));
            },
            Some(t) => match AustralianRank::decode(t.as_str()) {
                Ok(v) => v,
                Err(_) => {
                    return Err(DecodeError::InvalidField(String::from_str("AustralianRank"), t.clone()));
                },
            },
        };
        let australian_world_record = match root.field_text("AustralianWorldRecord") {
            None => {
                return Err(DecodeError::MissingField(String::from_str("AustralianWorldRecord")));
            },
            Some(t) => match AustralianWorldRecord::decode(t.as_str()) {
                Ok(v) => v,
                Err(_) => {
                    return Err(DecodeError::InvalidField(String::from_str("AustralianWorldRecord"), t.clone()));
                },
            },
        };
        let hc_single_age_group = match root.req_bool("HCSingleAgeGroup") {
            Ok(v) => v,
            Err(e) => {
                return Err(e);
            },
        };
        let women_senior = match root.opt_year("WomenSenior") {
            Ok(v) => v,
            Err(e) => {
                return Err(e);
            },
        };
        let extra_time_backstroke = match root.opt_u8("ExtraTimeBackstroke") {
            Ok(v) => v,
            Err(e) => {
                return Err(e);
            },
        };
        let men_senior = match root.field_text2("MenSenior", "menSenior") {
            None => None,
            Some(t) => match super::primitives::parse_year(t.as_str()) {
                Ok(v) => Some(v),
                Err(_) => {
                    return Err(DecodeError::InvalidField(String::from_str("MenSenior"), t.clone()));
                },
            },
        };
        let women_junior = match root.opt_year("WomenJunior") {
            Ok(v) => v,
            Err(e) => {
                return Err(e);
            },
        };
        let men_junior = match root.opt_year("MenJunior") {
            Ok(v) => v,
            Err(e) => {
                return Err(e);
            },
        };
        let women_junior2 = match root.opt_year("WomenJunior2") {
            Ok(v) => v,
            Err(e) => {
                return Err(e);
            },
        };
        let men_junior2 = match root.opt_year("MenJunior2") {
            Ok(v) => v,
            Err(e) => {
                return Err(e);
            },
        };
        let women_youngest_final = match root.opt_year("WomenYoungestFinal") {
            Ok(v) => v,
            Err(e) => {
                return Err(e);
            },
        };
        let men_youngest_final = match root.opt_year("MenYoungestFinal") {
            Ok(v) => v,
            Err(e) => {
                return Err(e);
            },
        };
        let primary_masters = match root.req_bool("PrimaryMasters") {
            Ok(v) => v,
            Err(e) => {
                return Err(e);
            },
        };
        Ok(
            PartGeneral {
                nsf_version,
                creator,
                nsf_meet_id,
                name,
                date,
                location,
                pool_category,
                pool_length,
                start_with_lane,
                lanes,
                individual_price,
                team_price,
                individual_price2,
                team_price2,
                one_price_all,
                birth_years_pay_once,
                australian_model,
                australian_rank,
                australian_world_record,
                hc_single_age_group,
                women_senior,
                extra_time_backstroke,
                men_senior,
                women_junior,
                men_junior,
                women_junior2,
                men_junior2,
                women_youngest_final,
                men_youngest_final,
                primary_masters,
            },
        )
}

/// One slice of the meet's scalar fields, decoded as a unit.
struct PartSchedule {
    /// Personal bests must be no later than this date.
    pub final_entry_date: Date,
    /// Personal bests must be no older than this date.
    pub first_entry_date: Date,
    /// Last enrollment date.
    pub last_entry_date: Date,
    /// Qualifications do not apply to handicapped athletes.
    pub no_qual_hc: bool,
    /// Date the meet starts.
    pub date_start: Option<Date>,
    /// Date the meet ends.
    pub date_end: Option<Date>,
    /// Host club.
    pub host_club: Option<String>,
    /// Organization number of the host club.
    pub host_club_organization_no: Option<String>,
    /// Competition type, written as a numeric code.
    pub competition_type_id: CompetitionType,
    /// Community of the host.
    pub community: Option<String>,
    /// Readable competition type text.
    pub competition_type: String,
    /// Address where results are published.
    pub result_web_address: Option<String>,
    /// Home page of the meet.
    pub home_page: Option<String>,
    /// Enrollment email address.
    pub entry_email: Option<String>,
    /// Payment account for clubs.
    pub pay_account: String,
    /// General senior flag.
    pub general_senior: Option<bool>,
    /// General junior flag.
    pub general_junior: Option<bool>,
    /// General handicap flag.
    pub general_hc: Option<bool>,
    /// Pool length of the starting heat.
    pub pool_length_start_heat: Option<String>,
    /// Long-course entry time policy.
    pub lcm_entry_times: Option<String>,
    /// Short-course fallback for entry times.
    pub scm_entry_times_if_lcm_does_not_exists: Option<String>,
    /// Sort long-course times before short-course times.
    pub sort_lcm_before_scm: Option<String>,
    /// General masters flag.
    pub general_masters: Option<bool>,
    /// The meet has no pool.
    pub no_pool: Option<bool>,
    /// The meet has been cancelled.
    pub cancelled: bool,
    /// Optional info text.
    pub info: Option<String>,
    /// Print the country in listings.
    pub write_country: bool,
    /// Print records in the heat lists.
    pub records_in_heat_list: bool,
    /// Print the first lap.
    pub write_first_lap: Option<bool>,
    /// Print page numbers in heat lists.
    pub page_number_in_heat_list: Option<bool>,
}

/// The fields of this slice are present and valid.
pub open spec fn schedule_wf(cs: Seq<Element>) -> bool {
        &&& req_date_spec(cs, "FinalEntryDate"@) is Some
        &&& req_date_spec(cs, "FirstEntryDate"@) is Some
        &&& req_date_spec(cs, "LastEntryDate"@) is Some
        &&& req_bool_spec(cs, "NoQualHC"@) is Some
        &&& opt_date_spec(cs, "StartDate"@) is Some
        &&& opt_date_spec(cs, "EndDate"@) is Some
        &&& (field_spec(cs, "CompetitionTypeId"@) matches Some(t) && CompetitionType::decode_spec(t) is Some)
        &&& field_spec(cs, "CompetitionType"@) is Some
        &&& opt_bool_spec(cs, "GeneralSenior"@) is Some
        &&& opt_bool_spec(cs, "GeneralJunior"@) is Some
        &&& opt_bool_spec(cs, "GeneralHC"@) is Some
        &&& opt_bool_spec(cs, "GeneralMasters"@) is Some
        &&& opt_bool_spec(cs, "NoPool"@) is Some
        &&& req_bool_spec(cs, "Cancelled"@) is Some
        &&& req_bool_spec(cs, "WriteCountry"@) is Some
        &&& req_bool_spec(cs, "RecordsInHeatlist"@) is Some
        &&& opt_bool_spec(cs, "WriteFirstLap"@) is Some
        &&& opt_bool_spec(cs, "PageNumberInHeatlist"@) is Some
}

/// The slice `v` is exactly what the document says.
spec fn schedule_rel(cs: Seq<Element>, v: PartSchedule) -> bool {
        &&& Some(v.final_entry_date) == req_date_spec(cs, "FinalEntryDate"@)
        &&& Some(v.first_entry_date) == req_date_spec(cs, "FirstEntryDate"@)
        &&& Some(v.last_entry_date) == req_date_spec(cs, "LastEntryDate"@)
        &&& Some(v.no_qual_hc) == req_bool_spec(cs, "NoQualHC"@)
        &&& Some(v.date_start) == opt_date_spec(cs, "StartDate"@)
        &&& Some(v.date_end) == opt_date_spec(cs, "EndDate"@)
        &&& opt_text_is(cs, "HostClub"@, v.host_club)
        &&& opt_text_is(cs, "HostClubOrganizationNo"@, v.host_club_organization_no)
        &&& (field_spec(cs, "CompetitionTypeId"@) matches Some(t) && CompetitionType::decode_spec(t) == Some(v.competition_type_id))
        &&& opt_text_is(cs, "Community"@, v.community)
        &&& req_text_is(cs, "CompetitionType"@, v.competition_type@)
        &&& opt_text_is(cs, "ResultWebaddress"@, v.result_web_address)
        &&& opt_text_is(cs, "Homepage"@, v.home_page)
        &&& match field3_spec(cs, "EntryEmail"@, "MailPameldinger"@, "EntryMail"@) {
            None => v.entry_email is None,
            Some(t) => v.entry_email matches Some(s) && s@ == t,
        }
        &&& match field_spec(cs, "PayAccount"@) {
            Some(t) => v.pay_account@ == t,
            None => v.pay_account@ == Seq::<char>::empty(),
        }
        &&& Some(v.general_senior) == opt_bool_spec(cs, "GeneralSenior"@)
        &&& Some(v.general_junior) == opt_bool_spec(cs, "GeneralJunior"@)
        &&& Some(v.general_hc) == opt_bool_spec(cs, "GeneralHC"@)
        &&& opt_text_is(cs, "PoolLengthStartHeat"@, v.pool_length_start_heat)
        &&& opt_text_is(cs, "LCMEntrytimes"@, v.lcm_entry_times)
        &&& opt_text_is(cs, "SCMEntrytimesIfLCMDoesNotExist"@, v.scm_entry_times_if_lcm_does_not_exists)
        &&& opt_text_is(cs, "SortLCMBeforeSCM"@, v.sort_lcm_before_scm)
        &&& Some(v.general_masters) == opt_bool_spec(cs, "GeneralMasters"@)
        &&& Some(v.no_pool) == opt_bool_spec(cs, "NoPool"@)
        &&& Some(v.cancelled) == req_bool_spec(cs, "Cancelled"@)
        &&& opt_text_is(cs, "Info"@, v.info)
        &&& Some(v.write_country) == req_bool_spec(cs, "WriteCountry"@)
        &&& Some(v.records_in_heat_list) == req_bool_spec(cs, "RecordsInHeatlist"@)
        &&& Some(v.write_first_lap) == opt_bool_spec(cs, "WriteFirstLap"@)
        &&& Some(v.page_number_in_heat_list) == opt_bool_spec(cs, "PageNumberInHeatlist"@)
}

/// Decode this slice of scalar fields.
#[verifier::loop_isolation(false)]
#[verifier::rlimit(100)]
fn decode_schedule(root: &Element) -> (r: Result<PartSchedule, DecodeError>)
    ensures
        r is Ok <==> schedule_wf(root.children@),
        r matches Ok(v) ==> schedule_rel(root.children@, v),
        r matches Err(e) ==> !(e is UnknownField),
{
        let final_entry_date = match root.req_date("FinalEntryDate") {
            Ok(v) => v,
            Err(e) => {
                return Err(e);
            },
        };
        let first_entry_date = match root.req_date("FirstEntryDate") {
            Ok(v) => v,
            Err(e) => {
                return Err(e);
            },
        };
        let last_entry_date = match root.req_date("LastEntryDate") {
            Ok(v) => v,
            Err(e) => {
                return Err(e);
            },
        };
        let no_qual_hc = match root.req_bool("NoQualHC") {
            Ok(v) => v,
            Err(e) => {
                return Err(e);
            },
        };
        let date_start = match root.opt_date("StartDate") {
            Ok(v) => v,
            Err(e) => {
                return Err(e);
            },
        };
        let date_end = match root.opt_date("EndDate") {
            Ok(v) => v,
            Err(e) => {
                return Err(e);
            },
        };
        let host_club = root.opt_text("HostClub");
        let host_club_organization_no = root.opt_text("HostClubOrganizationNo");
        let competition_type_id = match root.field_text("CompetitionTypeId") {
            None => {
                return Err(DecodeError::MissingField(String::from_str("CompetitionTypeId")));
            },
            Some(t) => match CompetitionType::decode(t.as_str()) {
                Ok(v) => v,
                Err(_) => {
                    return Err(DecodeError::InvalidField(String::from_str("CompetitionTypeId"), t.clone()));
                },
            },
        };
        let community = root.opt_text("Community");
        let competition_type = match root.req_text("CompetitionType") {
            Ok(v) => v,
            Err(e) => {
                return Err(e);
            },
        };
        let result_web_address = root.opt_text("ResultWebaddress");
        let home_page = root.opt_text("Homepage");
        let entry_email = root.field_text3("EntryEmail", "MailPameldinger", "EntryMail");
        let pay_account = root.text_or_empty("PayAccount");
        let general_senior = match root.opt_bool("GeneralSenior") {
            Ok(v) => v,
            Err(e) => {
                return Err(e);
            },
        };
        let general_junior = match root.opt_bool("GeneralJunior") {
            Ok(v) => v,
            Err(e) => {
                return Err(e);
            },
        };
        let general_hc = match root.opt_bool("GeneralHC") {
            Ok(v) => v,
            Err(e) => {
                return Err(e);
            },
        };
        let pool_length_start_heat = root.opt_text("PoolLengthStartHeat");
        let lcm_entry_times = root.opt_text("LCMEntrytimes");
        let scm_entry_times_if_lcm_does_not_exists = root.opt_text("SCMEntrytimesIfLCMDoesNotExist");
        let sort_lcm_before_scm = root.opt_text("SortLCMBeforeSCM");
        let general_masters = match root.opt_bool("GeneralMasters") {
            Ok(v) => v,
            Err(e) => {
                return Err(e);
            },
        };
        let no_pool = match root.opt_bool("NoPool") {
            Ok(v) => v,
            Err(e) => {
                return Err(e);
            },
        };
        let cancelled = match root.req_bool("Cancelled") {
            Ok(v) => v,
            Err(e) => {
                return Err(e);
            },
        };
        let info = root.opt_text("Info");
        let write_country = match root.req_bool("WriteCountry") {
            Ok(v) => v,
            Err(e) => {
                return Err(e);
            },
        };
        let records_in_heat_list = match root.req_bool("RecordsInHeatlist") {
            Ok(v) => v,
            Err(e) => {
                return Err(e);
            },
        };
        let write_first_lap = match root.opt_bool("WriteFirstLap") {
            Ok(v) => v,
            Err(e) => {
                return Err(e);
            },
        };
        let page_number_in_heat_list = match root.opt_bool("PageNumberInHeatlist") {
            Ok(v) => v,
            Err(e) => {
                return Err(e);
            },
        };
        Ok(
            PartSchedule {
                final_entry_date,
                first_entry_date,
                last_entry_date,
                no_qual_hc,
                date_start,
                date_end,
                host_club,
                host_club_organization_no,
                competition_type_id,
                community,
                competition_type,
                result_web_address,
                home_page,
                entry_email,
                pay_account,
                general_senior,
                general_junior,
                general_hc,
                pool_length_start_heat,
                lcm_entry_times,
                scm_entry_times_if_lcm_does_not_exists,
                sort_lcm_before_scm,
                general_masters,
                no_pool,
                cancelled,
                info,
                write_country,
                records_in_heat_list,
                write_first_lap,
                page_number_in_heat_list,
            },
        )
}

/// One slice of the meet's scalar fields, decoded as a unit.
struct PartPresentation {
    /// Print the first relay stage.
    pub write_first_stage: Option<bool>,
    /// Use the group text in listings.
    pub use_group_text: bool,
    /// Show the time schedule.
    pub show_time_schedule: bool,
    /// Show the time only for the first heat.
    pub show_time_only_heat_one: bool,
    /// Show the heat text.
    pub show_heat_text: bool,
    /// Touch-pad configuration of the meet.
    pub touch_pads: TouchPadSet,
    /// Print the extra price lines.
    pub write_other_prices: bool,
    /// No results are reported to the record database.
    pub unofficial: bool,
    /// Extra payment line 1.
    pub other_payment1: Option<String>,
    /// Extra price line 1.
    pub other_price1: Option<u16>,
    /// Extra payment line 2.
    pub other_payment2: Option<String>,
    /// Extra price line 2.
    pub other_price2: Option<u16>,
    /// Extra payment line 3.
    pub other_payment3: Option<String>,
    /// Extra price line 3.
    pub other_price3: Option<u16>,
    /// Extra payment line 4.
    pub other_payment4: Option<String>,
    /// Extra price line 4.
    pub other_price4: Option<u16>,
    /// Extra payment line 5.
    pub other_payment5: Option<String>,
    /// Extra price line 5.
    pub other_price5: Option<u16>,
    /// Extra payment line 6.
    pub other_payment6: Option<String>,
    /// Extra price line 6.
    pub other_price6: Option<u16>,
    /// Extra payment line 7.
    pub other_payment7: Option<String>,
    /// Extra price line 7.
    pub other_price7: Option<u16>,
    /// Extra payment line 8.
    pub other_payment8: Option<String>,
    /// Extra price line 8.
    pub other_price8: Option<u16>,
    /// Print date and time in listings.
    pub write_date_time: bool,
    /// Header text of listings.
    pub header: Option<String>,
    /// Footer text of listings.
    pub footer: Option<String>,
    /// Default award configuration of the meet.
    pub awards: Option<Award>,
    /// Start heats on full minutes.
    pub start_on_minute: Option<bool>,
    /// Minutes between events.
    pub time_between: Option<u16>,
    /// Extra scheduling time.
    pub extra_time: Option<u16>,
}

/// The fields of this slice are present and valid.
pub open spec fn presentation_wf(cs: Seq<Element>) -> bool {
        &&& match field2_spec(cs, "WriteFirstStage"@, "Skriv1etappe"@) {
            None => true,
            Some(t) => opt_bool_value(t) is Some,
        }
        &&& req_bool_spec(cs, "UseGroupText"@) is Some
        &&& req_bool_spec(cs, "ShowTimeSchedule"@) is Some
        &&& req_bool_spec(cs, "ShowTimeOnlyHeatOne"@) is Some
        &&& req_bool_spec(cs, "ShowHeatText"@) is Some
        &&& (field_spec(cs, "Touchpads"@) matches Some(t) && TouchPadSet::decode_spec(t) is Some)
        &&& req_bool_spec(cs, "WriteOtherPrices"@) is Some
        &&& req_bool_spec(cs, "Unofficial"@) is Some
        &&& opt_uint_spec(cs, "OtherPrice1"@, u16::MAX as int) is Some
        &&& opt_uint_spec(cs, "OtherPrice2"@, u16::MAX as int) is Some
        &&& opt_uint_spec(cs, "OtherPrice3"@, u16::MAX as int) is Some
        &&& opt_uint_spec(cs, "OtherPrice4"@, u16::MAX as int) is Some
        &&& opt_uint_spec(cs, "OtherPrice5"@, u16::MAX as int) is Some
        &&& opt_uint_spec(cs, "OtherPrice6"@, u16::MAX as int) is Some
        &&& opt_uint_spec(cs, "OtherPrice7"@, u16::MAX as int) is Some
        &&& opt_uint_spec(cs, "OtherPrice8"@, u16::MAX as int) is Some
        &&& req_bool_spec(cs, "WriteDateTime"@) is Some
        &&& match field_spec(cs, "Prizes"@) {
            None => true,
            Some(t) => Award::decode_spec(t) is Some,
        }
        &&& opt_bool_spec(cs, "StartOnMinute"@) is Some
        &&& opt_uint_spec(cs, "TimeBetween"@, u16::MAX as int) is Some
        &&& opt_uint_spec(cs, "ExtraTime"@, u16::MAX as int) is Some
}

/// The slice `v` is exactly what the document says.
spec fn presentation_rel(cs: Seq<Element>, v: PartPresentation) -> bool {
        &&& match field2_spec(cs, "WriteFirstStage"@, "Skriv1etappe"@) {
            None => v.write_first_stage is None,
            Some(t) => opt_bool_value(t) == Some(v.write_first_stage),
        }
        &&& Some(v.use_group_text) == req_bool_spec(cs, "UseGroupText"@)
        &&& Some(v.show_time_schedule) == req_bool_spec(cs, "ShowTimeSchedule"@)
        &&& Some(v.show_time_only_heat_one) == req_bool_spec(cs, "ShowTimeOnlyHeatOne"@)
        &&& Some(v.show_heat_text) == req_bool_spec(cs, "ShowHeatText"@)
        &&& (field_spec(cs, "Touchpads"@) matches Some(t) && TouchPadSet::decode_spec(t) == Some(v.touch_pads))
        &&& Some(v.write_other_prices) == req_bool_spec(cs, "WriteOtherPrices"@)
        &&& Some(v.unofficial) == req_bool_spec(cs, "Unofficial"@)
        &&& opt_text_is(cs, "OtherPayment1"@, v.other_payment1)
        &&& opt_u16_is(cs, "OtherPrice1"@, v.other_price1)
        &&& opt_text_is(cs, "OtherPayment2"@, v.other_payment2)
        &&& opt_u16_is(cs, "OtherPrice2"@, v.other_price2)
        &&& opt_text_is(cs, "OtherPayment3"@, v.other_payment3)
        &&& opt_u16_is(cs, "OtherPrice3"@, v.other_price3)
        &&& opt_text_is(cs, "OtherPayment4"@, v.other_payment4)
        &&& opt_u16_is(cs, "OtherPrice4"@, v.other_price4)
        &&& opt_text_is(cs, "OtherPayment5"@, v.other_payment5)
        &&& opt_u16_is(cs, "OtherPrice5"@, v.other_price5)
        &&& opt_text_is(cs, "OtherPayment6"@, v.other_payment6)
        &&& opt_u16_is(cs, "OtherPrice6"@, v.other_price6)
        &&& opt_text_is(cs, "OtherPayment7"@, v.other_payment7)
        &&& opt_u16_is(cs, "OtherPrice7"@, v.other_price7)
        &&& opt_text_is(cs, "OtherPayment8"@, v.other_payment8)
        &&& opt_u16_is(cs, "OtherPrice8"@, v.other_price8)
        &&& Some(v.write_date_time) == req_bool_spec(cs, "WriteDateTime"@)
        &&& opt_text_is(cs, "Header"@, v.header)
        &&& opt_text_is(cs, "Footer"@, v.footer)
        &&& match field_spec(cs, "Prizes"@) {
            None => v.awards is None,
            Some(t) => v.awards matches Some(a) && Award::decode_spec(t) == Some(a),
        }
        &&& Some(v.start_on_minute) == opt_bool_spec(cs, "StartOnMinute"@)
        &&& opt_u16_is(cs, "TimeBetween"@, v.time_between)
        &&& opt_u16_is(cs, "ExtraTime"@, v.extra_time)
}

/// Decode this slice of scalar fields.
#[verifier::loop_isolation(false)]
#[verifier::rlimit(100)]
fn decode_presentation(root: &Element) -> (r: Result<PartPresentation, DecodeError>)
    ensures
        r is Ok <==> presentation_wf(root.children@),
        r matches Ok(v) ==> presentation_rel(root.children@, v),
        r matches Err(e) ==> !(e is UnknownField),
{
        let write_first_stage = match root.field_text2("WriteFirstStage", "Skriv1etappe") {
            None => None,
            Some(t) => match super::primitives::parse_opt_bool(t.as_str()) {
                Ok(v) => v,
                Err(_) => {
                    return Err(DecodeError::InvalidField(String::from_str("WriteFirstStage"), t.clone()));
                },
            },
        };
        let use_group_text = match root.req_bool("UseGroupText") {
            Ok(v) => v,
            Err(e) => {
                return Err(e);
            },
        };
        let show_time_schedule = match root.req_bool("ShowTimeSchedule") {
            Ok(v) => v,
            Err(e) => {
                return Err(e);
            },
        };
        let show_time_only_heat_one = match root.req_bool("ShowTimeOnlyHeatOne") {
            Ok(v) => v,
            Err(e) => {
                return Err(e);
            },
        };
        let show_heat_text = match root.req_bool("ShowHeatText") {
            Ok(v) => v,
            Err(e) => {
                return Err(e);
            },
        };
        let touch_pads = match root.field_text("Touchpads") {
            None => {
                return Err(DecodeError::MissingField(String::from_str("Touchpads")));
            },
            Some(t) => match TouchPadSet::decode(t.as_str()) {
                Ok(v) => v,
                Err(_) => {
                    return Err(DecodeError::InvalidField(String::from_str("Touchpads"), t.clone()));
                },
            },
        };
        let write_other_prices = match root.req_bool("WriteOtherPrices") {
            Ok(v) => v,
            Err(e) => {
                return Err(e);
            },
        };
        let unofficial = match root.req_bool("Unofficial") {
            Ok(v) => v,
            Err(e) => {
                return Err(e);
            },
        };
        let other_payment1 = root.opt_text("OtherPayment1");
        let other_price1 = match root.opt_u16("OtherPrice1") {
            Ok(v) => v,
            Err(e) => {
                return Err(e);
            },
        };
        let other_payment2 = root.opt_text("OtherPayment2");
        let other_price2 = match root.opt_u16("OtherPrice2") {
            Ok(v) => v,
            Err(e) => {
                return Err(e);
            },
        };
        let other_payment3 = root.opt_text("OtherPayment3");
        let other_price3 = match root.opt_u16("OtherPrice3") {
            Ok(v) => v,
            Err(e) => {
                return Err(e);
            },
        };
        let other_payment4 = root.opt_text("OtherPayment4");
        let other_price4 = match root.opt_u16("OtherPrice4") {
            Ok(v) => v,
            Err(e) => {
                return Err(e);
            },
        };
        let other_payment5 = root.opt_text("OtherPayment5");
        let other_price5 = match root.opt_u16("OtherPrice5") {
            Ok(v) => v,
            Err(e) => {
                return Err(e);
            },
        };
        let other_payment6 = root.opt_text("OtherPayment6");
        let other_price6 = match root.opt_u16("OtherPrice6") {
            Ok(v) => v,
            Err(e) => {
                return Err(e);
            },
        };
        let other_payment7 = root.opt_text("OtherPayment7");
        let other_price7 = match root.opt_u16("OtherPrice7") {
            Ok(v) => v,
            Err(e) => {
                return Err(e);
            },
        };
        let other_payment8 = root.opt_text("OtherPayment8");
        let other_price8 = match root.opt_u16("OtherPrice8") {
            Ok(v) => v,
            Err(e) => {
                return Err(e);
            },
        };
        let write_date_time = match root.req_bool("WriteDateTime") {
            Ok(v) => v,
            Err(e) => {
                return Err(e);
            },
        };
        let header = root.opt_text("Header");
        let footer = root.opt_text("Footer");
        let awards = match root.field_text("Prizes") {
            None => None,
            Some(t) => match Award::decode(t.as_str()) {
                Ok(v) => Some(v),
                Err(_) => {
                    return Err(DecodeError::InvalidField(String::from_str("Prizes"), t.clone()));
                },
            },
        };
        let start_on_minute = match root.opt_bool("StartOnMinute") {
            Ok(v) => v,
            Err(e) => {
                return Err(e);
            },
        };
        let time_between = match root.opt_u16("TimeBetween") {
            Ok(v) => v,
            Err(e) => {
                return Err(e);
            },
        };
        let extra_time = match root.opt_u16("ExtraTime") {
            Ok(v) => v,
            Err(e) => {
                return Err(e);
            },
        };
        Ok(
            PartPresentation {
                write_first_stage,
                use_group_text,
                show_time_schedule,
                show_time_only_heat_one,
                show_heat_text,
                touch_pads,
                write_other_prices,
                unofficial,
                other_payment1,
                other_price1,
                other_payment2,
                other_price2,
                other_payment3,
                other_price3,
                other_payment4,
                other_price4,
                other_payment5,
                other_price5,
                other_payment6,
                other_price6,
                other_payment7,
                other_price7,
                other_payment8,
                other_price8,
                write_date_time,
                header,
                footer,
                awards,
                start_on_minute,
                time_between,
                extra_time,
            },
        )
}


/// The session elements of a meet document: the `Session` children of
/// its `Sessions` field.
pub open spec fn sessions_list(cs: Seq<Element>) -> Seq<Element> {
    match find_spec(cs, "Sessions"@) {
        Some(se) => children_named(se.children@, "Session"@),
        None => Seq::empty(),
    }
}

/// The event elements of a meet document: the `Event` children of its
/// `Events` field.
pub open spec fn events_list(cs: Seq<Element>) -> Seq<Element> {
    match find_spec(cs, "Events"@) {
        Some(ee) => children_named(ee.children@, "Event"@),
        None => Seq::empty(),
    }
}

impl Meet {
    /// A meet document decodes when every child field is known to the
    /// schema, every required field is present and valid, and every
    /// optional field, where present, is valid.
    pub open spec fn decode_wf(cs: Seq<Element>, reference_year: int) -> bool {
        &&& fields_known(cs)
        &&& general_wf(cs)
        &&& schedule_wf(cs)
        &&& presentation_wf(cs)
        &&& find_spec(cs, "Sessions"@) is Some
        &&& forall|j: int|
            0 <= j < sessions_list(cs).len() ==> Session::decode_wf(
                #[trigger] sessions_list(cs)[j].children@,
            )
        &&& match find_spec(cs, "QualificationSet"@) {
            None => true,
            Some(e) => QualificationSet::decode_wf(e.children@, reference_year),
        }
        &&& match find_spec(cs, "EntryManager"@) {
            None => true,
            Some(e) => Person::decode_wf(e.children@),
        }
        &&& match find_spec(cs, "DefinedAgeGroups"@) {
            None => true,
            Some(e) => DefinedAgeGroups::decode_wf(e.children@),
        }
        &&& match find_spec(cs, "CompetitionManager"@) {
            None => true,
            Some(e) => Person::decode_wf(e.children@),
        }
        &&& find_spec(cs, "Events"@) is Some
        &&& forall|j: int|
            0 <= j < events_list(cs).len() ==> Event::decode_wf(
                #[trigger] events_list(cs)[j].children@,
            )
    }

    /// The meet `v` is exactly what the document says.
    pub open spec fn decodes_to(cs: Seq<Element>, reference_year: int, v: Meet) -> bool {
        &&& req_text_is(cs, "NsfVersion"@, v.nsf_version@)
        &&& req_text_is(cs, "Creator"@, v.creator@)
        &&& opt_uint_spec(cs, "NSFMeetId"@, u32::MAX as int) == Some(
            match v.nsf_meet_id {
                Some(x) => Some(x as int),
                None => None,
            },
        )
        &&& req_text_is(cs, "MeetName"@, v.name@)
        &&& req_text_is(cs, "MeetDate"@, v.date@)
        &&& req_text_is(cs, "MeetPlace"@, v.location@)
        &&& (field_spec(cs, "PoolCategory"@) matches Some(t) && PoolCategory::decode_spec(t) == Some(v.pool_category))
        &&& (field_spec(cs, "PoolLength"@) matches Some(t) && Distance::decode_spec(t) == Some(v.pool_length))
        &&& opt_u8_is(cs, "StartWithLane"@, v.start_with_lane)
        &&& Some(v.lanes as int) == req_uint_spec(cs, "Lanes"@, u8::MAX as int)
        &&& Some(v.individual_price as int) == req_uint_spec(cs, "IndividualPrice"@, u16::MAX as int)
        &&& Some(v.team_price as int) == req_uint_spec(cs, "TeamPrice"@, u16::MAX as int)
        &&& Some(v.individual_price2 as int) == req_uint_spec(cs, "IndividualPrice2"@, u16::MAX as int)
        &&& Some(v.team_price2 as int) == req_uint_spec(cs, "TeamPrice2"@, u16::MAX as int)
        &&& Some(v.one_price_all as int) == req_uint_spec(cs, "OnePriceAll"@, u16::MAX as int)
        &&& match find_spec(cs, "OnePriceAllClasses"@) {
            None => v.birth_years_pay_once is None,
            Some(e) => v.birth_years_pay_once matches Some(ys) && ys@.len() == e.children@.len() && (forall|k: int|
                0 <= k < e.children@.len() ==> year_value(#[trigger] e.children@[k].text@) == Some(
                    ys@[k] as int,
                )),
        }
        &&& Some(v.australian_model) == req_bool_spec(cs, "AustralianModel"@)
        &&& (field_spec(cs, "AustralianRank"@) matches Some(t) && AustralianRank::decode_spec(t) == Some(v.australian_rank))
        &&& (field_spec(cs, "AustralianWorldRecord"@) matches Some(t) && AustralianWorldRecord::decode_spec(t) == Some(v.australian_world_record))
        &&& Some(v.hc_single_age_group) == req_bool_spec(cs, "HCSingleAgeGroup"@)
        &&& opt_year_is(cs, "WomenSenior"@, v.women_senior)
        &&& opt_u8_is(cs, "ExtraTimeBackstroke"@, v.extra_time_backstroke)
        &&& match field2_spec(cs, "MenSenior"@, "menSenior"@) {
            None => v.men_senior is None,
            Some(t) => v.men_senior matches Some(y) && year_value(t) == Some(y as int),
        }
        &&& opt_year_is(cs, "WomenJunior"@, v.women_junior)
        &&& opt_year_is(cs, "MenJunior"@, v.men_junior)
        &&& opt_year_is(cs, "WomenJunior2"@, v.women_junior2)
        &&& opt_year_is(cs, "MenJunior2"@, v.men_junior2)
        &&& opt_year_is(cs, "WomenYoungestFinal"@, v.women_youngest_final)
        &&& opt_year_is(cs, "MenYoungestFinal"@, v.men_youngest_final)
        &&& Some(v.primary_masters) == req_bool_spec(cs, "PrimaryMasters"@)
        &&& Some(v.final_entry_date) == req_date_spec(cs, "FinalEntryDate"@)
        &&& Some(v.first_entry_date) == req_date_spec(cs, "FirstEntryDate"@)
        &&& Some(v.last_entry_date) == req_date_spec(cs, "LastEntryDate"@)
        &&& Some(v.no_qual_hc) == req_bool_spec(cs, "NoQualHC"@)
        &&& Some(v.date_start) == opt_date_spec(cs, "StartDate"@)
        &&& Some(v.date_end) == opt_date_spec(cs, "EndDate"@)
        &&& opt_text_is(cs, "HostClub"@, v.host_club)
        &&& opt_text_is(cs, "HostClubOrganizationNo"@, v.host_club_organization_no)
        &&& (field_spec(cs, "CompetitionTypeId"@) matches Some(t) && CompetitionType::decode_spec(t) == Some(v.competition_type_id))
        &&& opt_text_is(cs, "Community"@, v.community)
        &&& req_text_is(cs, "CompetitionType"@, v.competition_type@)
        &&& opt_text_is(cs, "ResultWebaddress"@, v.result_web_address)
        &&& opt_text_is(cs, "Homepage"@, v.home_page)
        &&& match field3_spec(cs, "EntryEmail"@, "MailPameldinger"@, "EntryMail"@) {
            None => v.entry_email is None,
            Some(t) => v.entry_email matches Some(s) && s@ == t,
        }
        &&& match field_spec(cs, "PayAccount"@) {
            Some(t) => v.pay_account@ == t,
            None => v.pay_account@ == Seq::<char>::empty(),
        }
        &&& Some(v.general_senior) == opt_bool_spec(cs, "GeneralSenior"@)
        &&& Some(v.general_junior) == opt_bool_spec(cs, "GeneralJunior"@)
        &&& Some(v.general_hc) == opt_bool_spec(cs, "GeneralHC"@)
        &&& opt_text_is(cs, "PoolLengthStartHeat"@, v.pool_length_start_heat)
        &&& opt_text_is(cs, "LCMEntrytimes"@, v.lcm_entry_times)
        &&& opt_text_is(cs, "SCMEntrytimesIfLCMDoesNotExist"@, v.scm_entry_times_if_lcm_does_not_exists)
        &&& opt_text_is(cs, "SortLCMBeforeSCM"@, v.sort_lcm_before_scm)
        &&& Some(v.general_masters) == opt_bool_spec(cs, "GeneralMasters"@)
        &&& Some(v.no_pool) == opt_bool_spec(cs, "NoPool"@)
        &&& Some(v.cancelled) == req_bool_spec(cs, "Cancelled"@)
        &&& opt_text_is(cs, "Info"@, v.info)
        &&& Some(v.write_country) == req_bool_spec(cs, "WriteCountry"@)
        &&& Some(v.records_in_heat_list) == req_bool_spec(cs, "RecordsInHeatlist"@)
        &&& Some(v.write_first_lap) == opt_bool_spec(cs, "WriteFirstLap"@)
        &&& Some(v.page_number_in_heat_list) == opt_bool_spec(cs, "PageNumberInHeatlist"@)
        &&& match field2_spec(cs, "WriteFirstStage"@, "Skriv1etappe"@) {
            None => v.write_first_stage is None,
            Some(t) => opt_bool_value(t) == Some(v.write_first_stage),
        }
        &&& Some(v.use_group_text) == req_bool_spec(cs, "UseGroupText"@)
        &&& Some(v.show_time_schedule) == req_bool_spec(cs, "ShowTimeSchedule"@)
        &&& Some(v.show_time_only_heat_one) == req_bool_spec(cs, "ShowTimeOnlyHeatOne"@)
        &&& Some(v.show_heat_text) == req_bool_spec(cs, "ShowHeatText"@)
        &&& (field_spec(cs, "Touchpads"@) matches Some(t) && TouchPadSet::decode_spec(t) == Some(v.touch_pads))
        &&& Some(v.write_other_prices) == req_bool_spec(cs, "WriteOtherPrices"@)
        &&& Some(v.unofficial) == req_bool_spec(cs, "Unofficial"@)
        &&& opt_text_is(cs, "OtherPayment1"@, v.other_payment1)
        &&& opt_u16_is(cs, "OtherPrice1"@, v.other_price1)
        &&& opt_text_is(cs, "OtherPayment2"@, v.other_payment2)
        &&& opt_u16_is(cs, "OtherPrice2"@, v.other_price2)
        &&& opt_text_is(cs, "OtherPayment3"@, v.other_payment3)
        &&& opt_u16_is(cs, "OtherPrice3"@, v.other_price3)
        &&& opt_text_is(cs, "OtherPayment4"@, v.other_payment4)
        &&& opt_u16_is(cs, "OtherPrice4"@, v.other_price4)
        &&& opt_text_is(cs, "OtherPayment5"@, v.other_payment5)
        &&& opt_u16_is(cs, "OtherPrice5"@, v.other_price5)
        &&& opt_text_is(cs, "OtherPayment6"@, v.other_payment6)
        &&& opt_u16_is(cs, "OtherPrice6"@, v.other_price6)
        &&& opt_text_is(cs, "OtherPayment7"@, v.other_payment7)
        &&& opt_u16_is(cs, "OtherPrice7"@, v.other_price7)
        &&& opt_text_is(cs, "OtherPayment8"@, v.other_payment8)
        &&& opt_u16_is(cs, "OtherPrice8"@, v.other_price8)
        &&& Some(v.write_date_time) == req_bool_spec(cs, "WriteDateTime"@)
        &&& opt_text_is(cs, "Header"@, v.header)
        &&& opt_text_is(cs, "Footer"@, v.footer)
        &&& match field_spec(cs, "Prizes"@) {
            None => v.awards is None,
            Some(t) => v.awards matches Some(a) && Award::decode_spec(t) == Some(a),
        }
        &&& Some(v.start_on_minute) == opt_bool_spec(cs, "StartOnMinute"@)
        &&& opt_u16_is(cs, "TimeBetween"@, v.time_between)
        &&& opt_u16_is(cs, "ExtraTime"@, v.extra_time)
        &&& find_spec(cs, "Sessions"@) is Some
        &&& v.sessions@.len() == sessions_list(cs).len()
        &&& forall|j: int|
            0 <= j < sessions_list(cs).len() ==> Session::decodes_to(
                #[trigger] sessions_list(cs)[j].children@,
                v.sessions@[j],
            )
        &&& match find_spec(cs, "QualificationSet"@) {
            None => v.qualification_set is None,
            Some(e) => v.qualification_set matches Some(q) && QualificationSet::decodes_to(
                e.children@,
                reference_year,
                q,
            ),
        }
        &&& match find_spec(cs, "EntryManager"@) {
            None => v.entry_manager is None,
            Some(e) => v.entry_manager matches Some(p) && Person::decodes_to(e.children@, p),
        }
        &&& match find_spec(cs, "DefinedAgeGroups"@) {
            None => v.age_groups is None,
            Some(e) => v.age_groups matches Some(g) && DefinedAgeGroups::decodes_to(e.children@, g),
        }
        &&& match find_spec(cs, "CompetitionManager"@) {
            None => v.competition_manager is None,
            Some(e) => v.competition_manager matches Some(p) && Person::decodes_to(e.children@, p),
        }
        &&& find_spec(cs, "Events"@) is Some
        &&& v.events@.len() == events_list(cs).len()
        &&& forall|j: int|
            0 <= j < events_list(cs).len() ==> Event::decodes_to(
                #[trigger] events_list(cs)[j].children@,
                v.events@[j],
            )
    }

    /// Decode a whole meet document under a caller-supplied reference
    /// year (used by the class fields of the qualifications).
    ///
    /// The top-level schema is strict: a child element whose name the
    /// schema does not know fails the decode with an error naming that
    /// field. Nested records tolerate unknown substructure.
    #[verifier::loop_isolation(false)]
    #[verifier::rlimit(100)]
    pub fn decode(root: &Element, reference_year: i16) -> (r: Result<Meet, DecodeError>)
        ensures
            r is Ok <==> Self::decode_wf(root.children@, reference_year as int),
            r matches Ok(v) ==> Self::decodes_to(root.children@, reference_year as int, v),
            (r matches Err(e) && e is UnknownField) <==> !fields_known(root.children@),
            r matches Err(e) ==> match e {
                DecodeError::UnknownField(t) => !spec_meet_known(t@),
                _ => fields_known(root.children@),
            },
    {
        let kn = root.children.len();
        let mut ki: usize = 0;
        while ki < kn
            invariant
                ki <= kn,
                forall|j: int| 0 <= j < ki ==> spec_meet_known(#[trigger] root.children@[j].name@),
            decreases kn - ki,
        {
            let c = &root.children[ki];
            if !meet_known_field(c.name.as_str()) {
                return Err(DecodeError::UnknownField(c.name.clone()));
            }
            ki = ki + 1;
        }
        let p0 = match decode_general(root) {
            Ok(v) => v,
            Err(e) => {
                return Err(e);
            },
        };
        let p1 = match decode_schedule(root) {
            Ok(v) => v,
            Err(e) => {
                return Err(e);
            },
        };
        let p2 = match decode_presentation(root) {
            Ok(v) => v,
            Err(e) => {
                return Err(e);
            },
        };
        let sessions_elem = match root.find("Sessions") {
            Some(e) => e,
            None => {
                return Err(DecodeError::MissingField(String::from_str("Sessions")));
            },
        };
        let mut sessions: Vec<Session> = Vec::new();
        let num_sessions = sessions_elem.children.len();
        let mut idx: usize = 0;
        proof {
            assert(sessions_elem.children@.subrange(0, 0) =~= Seq::<Element>::empty());
        }
        while idx < num_sessions
            invariant
                idx <= num_sessions,
                sessions@.len() == children_named(
                    sessions_elem.children@.subrange(0, idx as int),
                    "Session"@,
                ).len(),
                forall|j: int|
                    0 <= j < sessions@.len() ==> Session::decodes_to(
                        #[trigger] children_named(
                            sessions_elem.children@.subrange(0, idx as int),
                            "Session"@,
                        )[j].children@,
                        sessions@[j],
                    ),
                forall|j: int|
                    0 <= j < sessions@.len() ==> Session::decode_wf(
                        #[trigger] children_named(
                            sessions_elem.children@.subrange(0, idx as int),
                            "Session"@,
                        )[j].children@,
                    ),
            decreases num_sessions - idx,
        {
            proof {
                assert(sessions_elem.children@.subrange(0, idx as int + 1).drop_last()
                    =~= sessions_elem.children@.subrange(0, idx as int));
                assert(sessions_elem.children@.subrange(0, idx as int + 1).last()
                    == sessions_elem.children@[idx as int]);
            }
            let c = &sessions_elem.children[idx];
            if str_eq(c.name.as_str(), "Session") {
                match Session::decode(c) {
                    Ok(s) => sessions.push(s),
                    Err(e) => {
                        proof {
                            lemma_children_named_prefix(
                                sessions_elem.children@,
                                "Session"@,
                                idx as int + 1,
                            );
                            let pre = children_named(
                                sessions_elem.children@.subrange(0, idx as int + 1),
                                "Session"@,
                            );
                            assert(pre[pre.len() - 1] == sessions_elem.children@[idx as int]);
                            assert(children_named(sessions_elem.children@, "Session"@)[pre.len()
                                - 1] == sessions_elem.children@[idx as int]);
                            assert(!Session::decode_wf(
                                children_named(sessions_elem.children@, "Session"@)[pre.len()
                                    - 1].children@,
                            ));
                            assert(sessions_list(root.children@) == children_named(
                                sessions_elem.children@,
                                "Session"@,
                            ));
                            assert(!Session::decode_wf(
                                sessions_list(root.children@)[pre.len() - 1].children@,
                            ));
                        }
                        return Err(e);
                    },
                }
            }
            idx = idx + 1;
        }
        proof {
            assert(sessions_elem.children@.subrange(0, num_sessions as int)
                =~= sessions_elem.children@);
            assert(sessions_list(root.children@) == children_named(
                sessions_elem.children@,
                "Session"@,
            ));
            assert forall|j: int|
                0 <= j < sessions_list(root.children@).len() implies Session::decodes_to(
                #[trigger] sessions_list(root.children@)[j].children@,
                sessions@[j],
            ) by {
                assert(sessions_list(root.children@)[j] == children_named(
                    sessions_elem.children@,
                    "Session"@,
                )[j]);
            }
            assert forall|j: int|
                0 <= j < sessions_list(root.children@).len() implies Session::decode_wf(
                #[trigger] sessions_list(root.children@)[j].children@,
            ) by {
                assert(sessions_list(root.children@)[j] == children_named(
                    sessions_elem.children@,
                    "Session"@,
                )[j]);
            }
        }
        let qualification_set = match root.find("QualificationSet") {
            None => None,
            Some(e) => match QualificationSet::decode(e, reference_year) {
                Ok(q) => Some(q),
                Err(err) => {
                    return Err(err);
                },
            },
        };
        let entry_manager = match root.find("EntryManager") {
            None => None,
            Some(e) => match Person::decode(e) {
                Ok(p) => Some(p),
                Err(err) => {
                    return Err(err);
                },
            },
        };
        let age_groups = match root.find("DefinedAgeGroups") {
            None => None,
            Some(e) => match DefinedAgeGroups::decode(e) {
                Ok(g) => Some(g),
                Err(err) => {
                    return Err(err);
                },
            },
        };
        let competition_manager = match root.find("CompetitionManager") {
            None => None,
            Some(e) => match Person::decode(e) {
                Ok(p) => Some(p),
                Err(err) => {
                    return Err(err);
                },
            },
        };
        let events_elem = match root.find("Events") {
            Some(e) => e,
            None => {
                return Err(DecodeError::MissingField(String::from_str("Events")));
            },
        };
        let mut events: Vec<Event> = Vec::new();
        let num_events = events_elem.children.len();
        let mut idx: usize = 0;
        proof {
            assert(events_elem.children@.subrange(0, 0) =~= Seq::<Element>::empty());
        }
        while idx < num_events
            invariant
                idx <= num_events,
                events@.len() == children_named(
                    events_elem.children@.subrange(0, idx as int),
                    "Event"@,
                ).len(),
                forall|j: int|
                    0 <= j < events@.len() ==> Event::decodes_to(
                        #[trigger] children_named(
                            events_elem.children@.subrange(0, idx as int),
                            "Event"@,
                        )[j].children@,
                        events@[j],
                    ),
                forall|j: int|
                    0 <= j < events@.len() ==> Event::decode_wf(
                        #[trigger] children_named(
                            events_elem.children@.subrange(0, idx as int),
                            "Event"@,
                        )[j].children@,
                    ),
            decreases num_events - idx,
        {
            proof {
                assert(events_elem.children@.subrange(0, idx as int + 1).drop_last()
                    =~= events_elem.children@.subrange(0, idx as int));
                assert(events_elem.children@.subrange(0, idx as int + 1).last()
                    == events_elem.children@[idx as int]);
            }
            let c = &events_elem.children[idx];
            if str_eq(c.name.as_str(), "Event") {
                match Event::decode(c) {
                    Ok(s) => events.push(s),
                    Err(e) => {
                        proof {
                            lemma_children_named_prefix(
                                events_elem.children@,
                                "Event"@,
                                idx as int + 1,
                            );
                            let pre = children_named(
                                events_elem.children@.subrange(0, idx as int + 1),
                                "Event"@,
                            );
                            assert(pre[pre.len() - 1] == events_elem.children@[idx as int]);
                            assert(children_named(events_elem.children@, "Event"@)[pre.len()
                                - 1] == events_elem.children@[idx as int]);
                            assert(!Event::decode_wf(
                                children_named(events_elem.children@, "Event"@)[pre.len()
                                    - 1].children@,
                            ));
                            assert(events_list(root.children@) == children_named(
                                events_elem.children@,
                                "Event"@,
                            ));
                            assert(!Event::decode_wf(
                                events_list(root.children@)[pre.len() - 1].children@,
                            ));
                        }
                        return Err(e);
                    },
                }
            }
            idx = idx + 1;
        }
        proof {
            assert(events_elem.children@.subrange(0, num_events as int)
                =~= events_elem.children@);
            assert(events_list(root.children@) == children_named(
                events_elem.children@,
                "Event"@,
            ));
            assert forall|j: int|
                0 <= j < events_list(root.children@).len() implies Event::decodes_to(
                #[trigger] events_list(root.children@)[j].children@,
                events@[j],
            ) by {
                assert(events_list(root.children@)[j] == children_named(
                    events_elem.children@,
                    "Event"@,
                )[j]);
            }
            assert forall|j: int|
                0 <= j < events_list(root.children@).len() implies Event::decode_wf(
                #[trigger] events_list(root.children@)[j].children@,
            ) by {
                assert(events_list(root.children@)[j] == children_named(
                    events_elem.children@,
                    "Event"@,
                )[j]);
            }
        }
        Ok(
            Meet {
                nsf_version: p0.nsf_version,
                creator: p0.creator,
                nsf_meet_id: p0.nsf_meet_id,
                name: p0.name,
                date: p0.date,
                location: p0.location,
                pool_category: p0.pool_category,
                pool_length: p0.pool_length,
                start_with_lane: p0.start_with_lane,
                lanes: p0.lanes,
                individual_price: p0.individual_price,
                team_price: p0.team_price,
                individual_price2: p0.individual_price2,
                team_price2: p0.team_price2,
                one_price_all: p0.one_price_all,
                birth_years_pay_once: p0.birth_years_pay_once,
                australian_model: p0.australian_model,
                australian_rank: p0.australian_rank,
                australian_world_record: p0.australian_world_record,
                hc_single_age_group: p0.hc_single_age_group,
                women_senior: p0.women_senior,
                extra_time_backstroke: p0.extra_time_backstroke,
                men_senior: p0.men_senior,
                women_junior: p0.women_junior,
                men_junior: p0.men_junior,
                women_junior2: p0.women_junior2,
                men_junior2: p0.men_junior2,
                women_youngest_final: p0.women_youngest_final,
                men_youngest_final: p0.men_youngest_final,
                primary_masters: p0.primary_masters,
                final_entry_date: p1.final_entry_date,
                first_entry_date: p1.first_entry_date,
                last_entry_date: p1.last_entry_date,
                no_qual_hc: p1.no_qual_hc,
                date_start: p1.date_start,
                date_end: p1.date_end,
                host_club: p1.host_club,
                host_club_organization_no: p1.host_club_organization_no,
                competition_type_id: p1.competition_type_id,
                community: p1.community,
                competition_type: p1.competition_type,
                result_web_address: p1.result_web_address,
                home_page: p1.home_page,
                entry_email: p1.entry_email,
                pay_account: p1.pay_account,
                general_senior: p1.general_senior,
                general_junior: p1.general_junior,
                general_hc: p1.general_hc,
                pool_length_start_heat: p1.pool_length_start_heat,
                lcm_entry_times: p1.lcm_entry_times,
                scm_entry_times_if_lcm_does_not_exists: p1.scm_entry_times_if_lcm_does_not_exists,
                sort_lcm_before_scm: p1.sort_lcm_before_scm,
                general_masters: p1.general_masters,
                no_pool: p1.no_pool,
                cancelled: p1.cancelled,
                info: p1.info,
                write_country: p1.write_country,
                records_in_heat_list: p1.records_in_heat_list,
                write_first_lap: p1.write_first_lap,
                page_number_in_heat_list: p1.page_number_in_heat_list,
                write_first_stage: p2.write_first_stage,
                use_group_text: p2.use_group_text,
                show_time_schedule: p2.show_time_schedule,
                show_time_only_heat_one: p2.show_time_only_heat_one,
                show_heat_text: p2.show_heat_text,
                touch_pads: p2.touch_pads,
                write_other_prices: p2.write_other_prices,
                unofficial: p2.unofficial,
                other_payment1: p2.other_payment1,
                other_price1: p2.other_price1,
                other_payment2: p2.other_payment2,
                other_price2: p2.other_price2,
                other_payment3: p2.other_payment3,
                other_price3: p2.other_price3,
                other_payment4: p2.other_payment4,
                other_price4: p2.other_price4,
                other_payment5: p2.other_payment5,
                other_price5: p2.other_price5,
                other_payment6: p2.other_payment6,
                other_price6: p2.other_price6,
                other_payment7: p2.other_payment7,
                other_price7: p2.other_price7,
                other_payment8: p2.other_payment8,
                other_price8: p2.other_price8,
                write_date_time: p2.write_date_time,
                header: p2.header,
                footer: p2.footer,
                awards: p2.awards,
                start_on_minute: p2.start_on_minute,
                time_between: p2.time_between,
                extra_time: p2.extra_time,
                sessions,
                qualification_set,
                entry_manager,
                age_groups,
                competition_manager,
                events,
            },
        )
    }

    /// The canonical cache file name of this meet; see
    /// [`meet_filename`].
    pub fn get_filename(&self) -> (r: String)
        ensures
            r@ == meet_filename_spec(self.nsf_meet_id, self.name@),
    {
        meet_filename(self.nsf_meet_id, self.name.as_str())
    }
}

} // verus!
