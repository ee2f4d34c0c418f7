//! The meet-list feed, cache file names and the enrollment format.

use jechsoft::medley::meet_info::MeetInfo as MedleyMeetInfo;
use jechsoft::medley::Entries;
use jechsoft::meet_setup::distance::Distance;
use jechsoft::meet_setup::document::Element;
use jechsoft::meet_setup::individual_distance::Individual;
use jechsoft::meet_setup::meet::meet_filename;
use jechsoft::meet_setup::meet_info::MeetInfo;
use jechsoft::meet_setup::pool_length::PoolLength;
use jechsoft::meet_setup::primitives::Date;
use jechsoft::meet_setup::style::{Stroke, Style};
use jechsoft::uni_p::{decode_entry_fields, parse_enrollment_duration, Error, Field};

fn leaf(name: &str, text: &str) -> Element {
    Element { name: name.to_string(), text: text.to_string(), children: Vec::new() }
}

fn node(name: &str, children: Vec<Element>) -> Element {
    Element { name: name.to_string(), text: String::new(), children }
}

fn feed_entry(name: &str, id: &str) -> Element {
    node(
        "strc_stevneoppsett",
        vec![
            leaf("stevnenavn", name),
            leaf("fradato", "20240615"),
            leaf("tildato", "20240616"),
            leaf("arrangor", "Oslo SK"),
            leaf("nsfstevneid", id),
            leaf("xmllink", "http://medley.example/meetsetup.xml"),
        ],
    )
}

#[test]
fn meet_list_entry_decodes() {
    let entry = feed_entry("Summer Meet", "12345678");
    let info = MedleyMeetInfo::decode(&entry).unwrap();
    assert_eq!(info.name, "Summer Meet");
    assert_eq!(info.id, 12345678);
    assert_eq!(info.date_start, Date { year: 2024, month: 6, day: 15 });
    assert_eq!(info.date_end, Date { year: 2024, month: 6, day: 16 });
    assert_eq!(info.meet_setup, "http://medley.example/meetsetup.xml");

    // The meet-setup flavour of the entry shares the field layout.
    let info2 = MeetInfo::decode(&entry).unwrap();
    assert_eq!(info2.host, "Oslo SK");
    assert_eq!(info2.config_xml, "http://medley.example/meetsetup.xml");
}

#[test]
fn meet_list_collects_entries_in_order() {
    let root = node(
        "ArrayOfStrc_stevneoppsett",
        vec![feed_entry("First", "1"), feed_entry("Second", "2")],
    );
    let entries = Entries::decode(&root).unwrap();
    assert_eq!(entries.meet_setup_entries.len(), 2);
    assert_eq!(entries.meet_setup_entries[0].name, "First");
    assert_eq!(entries.meet_setup_entries[1].name, "Second");
}

#[test]
fn meet_list_entry_with_bad_date_fails() {
    let mut entry = feed_entry("Broken", "3");
    entry.children.retain(|e| e.name != "fradato");
    entry.children.push(leaf("fradato", "yesterday"));
    assert!(MedleyMeetInfo::decode(&entry).is_err());
}

#[test]
fn id_filename_is_zero_padded_to_eleven_digits() {
    let entry = feed_entry("Summer Meet", "12345678");
    let info = MedleyMeetInfo::decode(&entry).unwrap();
    assert_eq!(info.get_filename(), "00012345678");
    let entry = feed_entry("Zero", "0");
    assert_eq!(MedleyMeetInfo::decode(&entry).unwrap().get_filename(), "00000000000");
    let entry = feed_entry("Max", "4294967295");
    assert_eq!(MedleyMeetInfo::decode(&entry).unwrap().get_filename(), "04294967295");
}

#[test]
fn meet_filename_prefers_the_id_and_normalizes_the_name() {
    assert_eq!(meet_filename(Some(12345678), "Summer Meet 2024"), "00012345678");
    // Without an id the name is lowered and spaces become underscores;
    // this would fail if the underlying replacements handed the name
    // back unchanged.
    assert_eq!(meet_filename(None, "Summer Meet 2024"), "summer_meet_2024");
    assert_eq!(meet_filename(None, "NM Langbane"), "nm_langbane");
    assert_eq!(meet_filename(None, ""), "");
}

#[test]
fn enrollment_duration_layout() {
    // 1 minute, 9 seconds; the trailing group counts ten milliseconds
    // per unit, reproducing the vendor's exact arithmetic.
    assert_eq!(parse_enrollment_duration("1:09.5"), Some(60000 + 9000 + 50));
    assert_eq!(parse_enrollment_duration("0:31.2"), Some(31000 + 20));
    assert_eq!(parse_enrollment_duration("10:00.0"), Some(600000));
    assert_eq!(parse_enrollment_duration("1-09-5"), None);
    assert_eq!(parse_enrollment_duration("1:09"), None);
    assert_eq!(parse_enrollment_duration("a:09.5"), None);
    assert_eq!(parse_enrollment_duration(""), None);
}

#[test]
fn enrollment_line_decodes_the_fixed_columns() {
    let fields: Vec<String> = vec![
        "3".to_string(),
        "100".to_string(),
        "FR".to_string(),
        "Ola".to_string(),
        "Nordmann".to_string(),
        "1:09.5".to_string(),
        "K".to_string(),
    ];
    let (event, distance, style, time, pool) = decode_entry_fields(&fields).unwrap();
    assert_eq!(event, 3);
    assert_eq!(distance, Distance::Individual(Individual::Distance100));
    assert_eq!(style, Style::Single(Stroke::FreeStyle));
    assert_eq!(time, 69050);
    assert_eq!(pool, PoolLength::PoolLength25);
}

#[test]
fn enrollment_line_rejections() {
    let line = |v: &[&str]| -> Vec<String> { v.iter().map(|s| s.to_string()).collect() };
    assert!(matches!(
        decode_entry_fields(&line(&[])),
        Err(Error::Missing(Field::EventNumber))
    ));
    assert!(matches!(
        decode_entry_fields(&line(&["1", "100", "FR", "a", "b"])),
        Err(Error::Missing(Field::Duration))
    ));
    assert!(matches!(
        decode_entry_fields(&line(&["x", "100", "FR", "a", "b", "1:09.5", "K"])),
        Err(Error::Parse(Field::EventNumber, _))
    ));
    assert!(matches!(
        decode_entry_fields(&line(&["1", "400", "FR", "a", "b", "1:09.5", "K"])),
        Err(Error::Unrecognized(Field::Distance))
    ));
    assert!(matches!(
        decode_entry_fields(&line(&["1", "100", "??", "a", "b", "1:09.5", "K"])),
        Err(Error::Unrecognized(Field::Style))
    ));
    assert!(matches!(
        decode_entry_fields(&line(&["1", "100", "FR", "a", "b", "fast", "K"])),
        Err(Error::Unrecognized(Field::Duration))
    ));
    assert!(matches!(
        decode_entry_fields(&line(&["1", "100", "FR", "a", "b", "1:09.5", "M"])),
        Err(Error::Unrecognized(Field::PoolLength))
    ));
    assert_eq!(Field::Duration.display_string(), "duration");
}
