//! Distance decoding: the fixed tables, the canonical tokens and the
//! ambiguity rule.

use jechsoft::meet_setup::distance::{Distance, Error};
use jechsoft::meet_setup::individual_distance::Individual;
use jechsoft::meet_setup::style::{Stroke, Style};
use jechsoft::meet_setup::individual_distance::Error as IndividualError;
use jechsoft::meet_setup::team_distance::{Error as TeamError, Team};

#[test]
fn table_tokens_round_trip_through_display() {
    // Every canonical token except the refused bare totals decodes and
    // formats back to itself.
    let tokens = [
        "25", "50", "100", "150", "200", "1500", "4*25", "4*50", "6*50", "4*100", "8*50", "4*200",
        "4*400", "1000",
    ];
    for token in tokens {
        let d = Distance::decode(token).unwrap();
        assert_eq!(d.display_string(), token, "token {} must round-trip", token);
    }
}

#[test]
fn bare_400_and_800_are_indistinguishable() {
    assert!(matches!(Distance::decode("400"), Err(Error::IndistinguishableDistance(_))));
    assert!(matches!(Distance::decode("800"), Err(Error::IndistinguishableDistance(_))));
    match Distance::decode("400") {
        Err(Error::IndistinguishableDistance(raw)) => assert_eq!(raw, "400"),
        other => panic!("expected IndistinguishableDistance, got {:?}", other),
    }
}

#[test]
fn starred_tokens_decode_as_relays() {
    assert_eq!(Distance::decode("4*50").unwrap(), Distance::Team(Team::Distance4x50));
    assert_eq!(Distance::decode("1000").unwrap(), Distance::Team(Team::Distance1000));
    assert_eq!(Distance::decode("4*100").unwrap(), Distance::Team(Team::Distance4x100));
}

#[test]
fn bare_numerals_decode_as_individual_when_unambiguous() {
    assert_eq!(Distance::decode("25").unwrap(), Distance::Individual(Individual::Distance25));
    assert_eq!(Distance::decode("1500").unwrap(), Distance::Individual(Individual::Distance1500));
}

#[test]
fn unknown_distances_fail() {
    assert!(matches!(Distance::decode("300"), Err(Error::TryFrom(_, _))));
    assert!(matches!(Distance::decode("2*50"), Err(Error::TryFrom(_, _))));
    assert!(matches!(Distance::decode(""), Err(Error::TryFrom(_, _))));
    assert!(matches!(Distance::decode("4x50"), Err(Error::TryFrom(_, _))));
}

#[test]
fn individual_table_by_meters_and_token() {
    assert_eq!(Individual::from_meters(1500).unwrap(), Individual::Distance1500);
    assert!(matches!(Individual::from_meters(60), Err(IndividualError::InvalidDistance)));
    assert_eq!(Individual::decode("800").unwrap(), Individual::Distance800);
    assert!(matches!(Individual::decode("eight"), Err(IndividualError::Convert(_))));
    assert!(matches!(Individual::decode("60"), Err(IndividualError::InvalidDistance)));
    assert_eq!(Individual::Distance800.meters(), 800);
    assert_eq!(Individual::Distance150.display_string(), "150");
}

#[test]
fn team_table_by_token() {
    assert_eq!(Team::decode("6*50").unwrap(), Team::Distance6x50);
    assert!(matches!(Team::decode("2*50"), Err(TeamError::InvalidDistance)));
    assert!(matches!(Team::decode("400"), Err(TeamError::InvalidDistance)));
    assert_eq!(Team::Distance6x50.display_string(), "6*50");
}

#[test]
fn official_distances() {
    // Official individual distances.
    for token in ["50", "100", "200", "1500"] {
        assert!(Distance::decode(token).unwrap().is_official(), "{} is official", token);
    }
    // Official relays.
    for token in ["4*50", "4*100", "4*200"] {
        assert!(Distance::decode(token).unwrap().is_official(), "{} is official", token);
    }
    // Unofficial: 25 m legs, 150 m, the odd relays and the legacy total.
    for token in ["25", "150", "4*25", "6*50", "8*50", "4*400", "1000"] {
        assert!(!Distance::decode(token).unwrap().is_official(), "{} is unofficial", token);
    }
    // The individual 400 m and 800 m are official but only reachable by
    // construction, never by decoding their bare tokens.
    assert!(Distance::Individual(Individual::Distance400).is_official());
    assert!(Distance::Individual(Individual::Distance800).is_official());
}

#[test]
fn team_totals() {
    assert_eq!(Team::Distance4x25.total_meters(), 100);
    assert_eq!(Team::Distance8x50.total_meters(), 400);
    assert_eq!(Team::Distance4x400.total_meters(), 1600);
    assert_eq!(Team::Distance1000.total_meters(), 1000);
}

#[test]
fn style_tokens_accept_both_spellings() {
    assert_eq!(Style::decode("FREESTYLE").unwrap(), Style::Single(Stroke::FreeStyle));
    assert_eq!(Style::decode("FR").unwrap(), Style::Single(Stroke::FreeStyle));
    assert_eq!(Style::decode("BUTTERFLY").unwrap(), Style::Single(Stroke::Butterfly));
    assert_eq!(Style::decode("BU").unwrap(), Style::Single(Stroke::Butterfly));
    assert_eq!(Style::decode("BACKSTROKE").unwrap(), Style::Single(Stroke::BackStroke));
    assert_eq!(Style::decode("RY").unwrap(), Style::Single(Stroke::BackStroke));
    assert_eq!(Style::decode("BREASTSTROKE").unwrap(), Style::Single(Stroke::BreastStroke));
    assert_eq!(Style::decode("BR").unwrap(), Style::Single(Stroke::BreastStroke));
    assert!(Style::decode("MEDLEY").is_err());
}

#[test]
fn medley_orders_are_distinct() {
    let individual = Style::decode("INDIVIDUALMEDLEY").unwrap();
    let relay = Style::decode("MEDLEYRELAY").unwrap();
    assert_eq!(
        individual,
        Style::Medley([
            Stroke::Butterfly,
            Stroke::BackStroke,
            Stroke::BreastStroke,
            Stroke::FreeStyle,
        ])
    );
    assert_eq!(
        relay,
        Style::Medley([
            Stroke::BackStroke,
            Stroke::BreastStroke,
            Stroke::Butterfly,
            Stroke::FreeStyle,
        ])
    );
    assert_ne!(individual, relay);
    assert_eq!(Style::decode("IM").unwrap(), individual);
    assert_eq!(Style::decode("LM").unwrap(), relay);
    assert_eq!(individual.display_string(), "individual medley");
    assert_eq!(relay.display_string(), "team medley");
}
