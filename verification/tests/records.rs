//! Record decoding: events, sessions, whole meet documents and the
//! strict top-level schema.

use jechsoft::meet_setup::distance::Distance;
use jechsoft::meet_setup::document::{DecodeError, Element};
use jechsoft::meet_setup::event::Event;
use jechsoft::meet_setup::gender_group::GenderGroup;
use jechsoft::meet_setup::meet::Meet;
use jechsoft::meet_setup::person::Person;
use jechsoft::meet_setup::primitives::{Date, Time};
use jechsoft::meet_setup::qualification::Qualification;
use jechsoft::meet_setup::session::Session;
use jechsoft::meet_setup::style::{Stroke, Style};
use jechsoft::meet_setup::team_distance::Team;

fn leaf(name: &str, text: &str) -> Element {
    Element { name: name.to_string(), text: text.to_string(), children: Vec::new() }
}

fn node(name: &str, children: Vec<Element>) -> Element {
    Element { name: name.to_string(), text: String::new(), children }
}

/// The fields of a minimal well-formed `Event` element, as a
/// `meetsetup.xml` fragment holds them.
fn event_fields() -> Vec<Element> {
    vec![
        leaf("EventNumber", "1"),
        leaf("EventDescription", "4 x 50 m medley relay"),
        leaf("EventLength", "4*50"),
        leaf("Eventart", "LM"),
        leaf("Sex", "MIXED"),
        leaf("Senior", "TRUE"),
        leaf("Junior", "FALSE"),
        leaf("JuniorOlder", "FALSE"),
        leaf("JuniorYounger", "FALSE"),
        leaf("EventPoolLength", "25"),
        leaf("Date", "20240615"),
        leaf("Sorting", "FINAL"),
        leaf("NoQualHcEvent", "TRUE"),
        leaf("Webheat", "FALSE"),
        leaf("SRJRCOMBI", "FALSE"),
        leaf("Free", "FALSE"),
        leaf("DontShowAgeGroup", "FALSE"),
        leaf("ShowEntryTimes", "TRUE"),
        leaf("PresentationLastHeat", "FALSE"),
        leaf("Break", "FALSE"),
        leaf("PrizeCeremony", "FALSE"),
        leaf("PostponeHeat", "FALSE"),
        leaf("StartAfterBreak", "FALSE"),
        leaf("AltEventId", "1"),
    ]
}

#[test]
fn event_from_meetsetup_fragment() {
    let elem = node("Event", event_fields());
    let event = Event::decode(&elem).expect("the fragment is well-formed");
    assert_eq!(event.id, 1);
    assert_eq!(event.distance, Distance::Team(Team::Distance4x50));
    assert_eq!(
        event.style,
        Style::Medley([
            Stroke::BackStroke,
            Stroke::BreastStroke,
            Stroke::Butterfly,
            Stroke::FreeStyle,
        ])
    );
    assert_eq!(event.gender_group, GenderGroup::Mixed);
    assert_eq!(event.date, Date { year: 2024, month: 6, day: 15 });
    assert_eq!(event.senior, true);
    assert_eq!(event.awards, None);
    assert_eq!(event.round, None);
    assert_eq!(event.qualification_time_long_course, None);
}

#[test]
fn event_accepts_the_style_alias_and_optional_fields() {
    let mut fields = event_fields();
    // The alias spelling of the style field.
    fields.retain(|e| e.name != "Eventart");
    fields.push(leaf("EventArt", "IM"));
    fields.push(leaf("QualLongCourse", "02:30:05"));
    fields.push(leaf("Prizes", "MEDALS"));
    fields.push(leaf("Round", "FINAL"));
    let elem = node("Event", fields);
    let event = Event::decode(&elem).unwrap();
    assert_eq!(
        event.style,
        Style::Medley([
            Stroke::Butterfly,
            Stroke::BackStroke,
            Stroke::BreastStroke,
            Stroke::FreeStyle,
        ])
    );
    assert_eq!(event.qualification_time_long_course, Some(120500));
    assert_eq!(
        event.awards,
        Some(jechsoft::meet_setup::award::Award::Medals)
    );
    assert_eq!(event.round, Some(jechsoft::meet_setup::round::Round::Final));
}

#[test]
fn event_missing_required_field_names_it() {
    let mut fields = event_fields();
    fields.retain(|e| e.name != "Sex");
    let elem = node("Event", fields);
    match Event::decode(&elem) {
        Err(DecodeError::MissingField(f)) => assert_eq!(f, "Sex"),
        other => panic!("expected MissingField(Sex), got {:?}", other),
    }
}

#[test]
fn event_invalid_field_names_it_with_the_raw_value() {
    let mut fields = event_fields();
    fields.retain(|e| e.name != "EventLength");
    fields.push(leaf("EventLength", "400"));
    let elem = node("Event", fields);
    match Event::decode(&elem) {
        Err(DecodeError::InvalidField(f, raw)) => {
            assert_eq!(f, "EventLength");
            assert_eq!(raw, "400");
        },
        other => panic!("expected InvalidField, got {:?}", other),
    }
}

#[test]
fn session_decodes() {
    let elem = node(
        "Session",
        vec![
            leaf("SessionId", "1"),
            leaf("SessionName", "Saturday morning"),
            leaf("SessionDate", "20240615"),
            leaf("SessionStartTime", "0930"),
        ],
    );
    let s = Session::decode(&elem).unwrap();
    assert_eq!(s.id, 1);
    assert_eq!(s.name, "Saturday morning");
    assert_eq!(s.date, Date { year: 2024, month: 6, day: 15 });
    assert_eq!(s.start_time, Time { hour: 9, minute: 30 });
}

#[test]
fn session_name_defaults_to_empty() {
    let elem = node(
        "Session",
        vec![
            leaf("SessionId", "2"),
            leaf("SessionDate", "20240616"),
            leaf("SessionStartTime", "1400"),
        ],
    );
    let s = Session::decode(&elem).unwrap();
    assert_eq!(s.name, "");
}

#[test]
fn person_decodes() {
    let elem = node(
        "EntryManager",
        vec![
            leaf("LastName", "Nordmann"),
            leaf("FirstName", "Ola"),
            leaf("Sex", "MALE"),
            leaf("BirthDate", "SR"),
            leaf("Club", "Oslo SK"),
        ],
    );
    let p = Person::decode(&elem).unwrap();
    assert_eq!(p.surname, "Nordmann");
    assert_eq!(p.name, "Ola");
    assert_eq!(p.gender, GenderGroup::Male);
    assert_eq!(p.birth_date, None);
    assert_eq!(p.club, "Oslo SK");
    let elem = node(
        "EntryManager",
        vec![
            leaf("LastName", "Nordmann"),
            leaf("FirstName", "Kari"),
            leaf("Sex", "FEMALE"),
            leaf("BirthDate", "1995"),
            leaf("Club", "Oslo SK"),
        ],
    );
    assert_eq!(Person::decode(&elem).unwrap().birth_date, Some(1995));
}

#[test]
fn qualification_decodes() {
    let elem = node(
        "Qualification",
        vec![
            leaf("Class", "SR"),
            leaf("Sex", "MALE"),
            leaf("PoolLength", "50"),
            leaf("DistanceLength", "100"),
            leaf("Distanceart", "FR"),
            leaf("QualificationTime", "024735"),
        ],
    );
    let q = Qualification::decode(&elem, 2024).unwrap();
    assert_eq!(q.athlete_class, jechsoft::meet_setup::class::Class::Senior);
    assert_eq!(q.time, 2 * 60000 + 7 * 1000 + 5 * 100);
}

#[test]
fn qualification_class_year_window_follows_the_reference_year() {
    let fields = |class: &str| {
        node(
            "Qualification",
            vec![
                leaf("Class", class),
                leaf("Sex", "MALE"),
                leaf("PoolLength", "50"),
                leaf("DistanceLength", "100"),
                leaf("Distanceart", "FR"),
                leaf("QualificationTime", "024735"),
            ],
        )
    };
    // A birth-year class more than 100 years from the reference year is
    // refused in either direction; a nearby one passes.
    assert!(Qualification::decode(&fields("2010"), 2024).is_ok());
    match Qualification::decode(&fields("3000"), 2024) {
        Err(DecodeError::InvalidField(f, raw)) => {
            assert_eq!(f, "Class");
            assert_eq!(raw, "3000");
        },
        other => panic!("expected InvalidField(Class), got {:?}", other),
    }
    assert!(Qualification::decode(&fields("1900"), 2024).is_err());
}

/// A minimal well-formed meet document.
fn meet_fields() -> Vec<Element> {
    vec![
        leaf("NsfVersion", "2.0"),
        leaf("Creator", "Victoria"),
        leaf("NSFMeetId", "12345678"),
        leaf("MeetName", "Summer Meet 2024"),
        leaf("MeetDate", "15.06.2024"),
        leaf("MeetPlace", "Oslo"),
        leaf("PoolCategory", "METERS"),
        leaf("PoolLength", "25"),
        leaf("Lanes", "6"),
        leaf("IndividualPrice", "100"),
        leaf("TeamPrice", "200"),
        leaf("IndividualPrice2", "120"),
        leaf("TeamPrice2", "220"),
        leaf("OnePriceAll", "500"),
        leaf("AustralianModel", "FALSE"),
        leaf("AustralianRank", "PERCENT"),
        leaf("AustralianWorldRecord", "LONGCOURSE"),
        leaf("HCSingleAgeGroup", "FALSE"),
        leaf("PrimaryMasters", "FALSE"),
        leaf("FinalEntryDate", "20240601"),
        leaf("FirstEntryDate", "20230601"),
        leaf("LastEntryDate", "20240610"),
        leaf("NoQualHC", "TRUE"),
        leaf("CompetitionTypeId", "8"),
        leaf("CompetitionType", "Norwegian championship"),
        leaf("Cancelled", "FALSE"),
        leaf("WriteCountry", "FALSE"),
        leaf("RecordsInHeatlist", "TRUE"),
        leaf("UseGroupText", "FALSE"),
        leaf("ShowTimeSchedule", "TRUE"),
        leaf("ShowTimeOnlyHeatOne", "FALSE"),
        leaf("ShowHeatText", "FALSE"),
        leaf("Touchpads", "NO"),
        leaf("WriteOtherPrices", "FALSE"),
        leaf("Unofficial", "FALSE"),
        leaf("WriteDateTime", "TRUE"),
        node(
            "Sessions",
            vec![node(
                "Session",
                vec![
                    leaf("SessionId", "1"),
                    leaf("SessionDate", "20240615"),
                    leaf("SessionStartTime", "0900"),
                ],
            )],
        ),
        node("Events", vec![node("Event", event_fields())]),
    ]
}

#[test]
fn meet_decodes_a_minimal_document() {
    let root = node("MeetSetUp", meet_fields());
    let meet = Meet::decode(&root, 2024).expect("the document is well-formed");
    assert_eq!(meet.name, "Summer Meet 2024");
    assert_eq!(meet.nsf_meet_id, Some(12345678));
    assert_eq!(meet.lanes, 6);
    assert_eq!(
        meet.competition_type_id,
        jechsoft::meet_setup::competition_type::CompetitionType::NorwegianChampionship
    );
    assert_eq!(meet.sessions.len(), 1);
    assert_eq!(meet.sessions[0].id, 1);
    assert_eq!(meet.events.len(), 1);
    assert_eq!(meet.events[0].distance, Distance::Team(Team::Distance4x50));
    assert_eq!(meet.events[0].gender_group, GenderGroup::Mixed);
    assert_eq!(meet.qualification_set, None);
    assert_eq!(meet.entry_manager, None);
    assert_eq!(meet.date_start, None);
}

#[test]
fn meet_rejects_an_unknown_top_level_field() {
    // The same document with one unrecognized extra field fails the
    // strict decode with an error naming that field; with the field
    // removed it decodes.
    let mut fields = meet_fields();
    fields.push(leaf("SecretSauce", "extra"));
    let root = node("MeetSetUp", fields);
    match Meet::decode(&root, 2024) {
        Err(DecodeError::UnknownField(name)) => assert_eq!(name, "SecretSauce"),
        other => panic!("expected UnknownField(SecretSauce), got {:?}", other),
    }
    let root = node("MeetSetUp", meet_fields());
    assert!(Meet::decode(&root, 2024).is_ok());
}

#[test]
fn meet_tolerates_known_aliases() {
    let mut fields = meet_fields();
    fields.push(leaf("menSenior", "2004"));
    fields.push(leaf("Skriv1etappe", "TRUE"));
    let root = node("MeetSetUp", fields);
    let meet = Meet::decode(&root, 2024).unwrap();
    assert_eq!(meet.men_senior, Some(2004));
    assert_eq!(meet.write_first_stage, Some(true));
}

#[test]
fn meet_decodes_pay_once_years() {
    let mut fields = meet_fields();
    fields.push(node(
        "OnePriceAllClasses",
        vec![leaf("OnePriceAllClasses", "2008"), leaf("OnePriceAllClasses", "2009")],
    ));
    let root = node("MeetSetUp", fields);
    let meet = Meet::decode(&root, 2024).unwrap();
    assert_eq!(meet.birth_years_pay_once, Some(vec![2008, 2009]));
}

#[test]
fn meet_missing_sessions_is_a_structural_error() {
    let mut fields = meet_fields();
    fields.retain(|e| e.name != "Sessions");
    let root = node("MeetSetUp", fields);
    match Meet::decode(&root, 2024) {
        Err(DecodeError::MissingField(f)) => assert_eq!(f, "Sessions"),
        other => panic!("expected MissingField(Sessions), got {:?}", other),
    }
}
