//! Class, handicap, gender-class and junior decoding.

use jechsoft::meet_setup::class::{Class, Error as ClassError};
use jechsoft::meet_setup::error::Error as SetupError;
use jechsoft::meet_setup::gender_class::{Error as GcError, GenderClass};
use jechsoft::meet_setup::gender_group::GenderGroup;
use jechsoft::meet_setup::handicap::{Error as HcError, Handicap, StyleGroup};
use jechsoft::meet_setup::junior::{Error as JuniorError, Junior};

#[test]
fn handicap_decodes_every_grade() {
    for grade in 1u8..=15 {
        let token = format!("S{}", grade);
        let h = Handicap::decode(&token).unwrap();
        assert_eq!(h.style_group, StyleGroup::FreestyleBackstrokeButterfly);
        assert_eq!(h.disability_type, grade);
        let token = format!("SB{}", grade);
        let h = Handicap::decode(&token).unwrap();
        assert_eq!(h.style_group, StyleGroup::BreastStroke);
        assert_eq!(h.disability_type, grade);
        let token = format!("SM{}", grade);
        let h = Handicap::decode(&token).unwrap();
        assert_eq!(h.style_group, StyleGroup::Medley);
        assert_eq!(h.disability_type, grade);
    }
}

#[test]
fn handicap_round_trips_through_display() {
    for grade in 1u8..=15 {
        for group in [
            StyleGroup::FreestyleBackstrokeButterfly,
            StyleGroup::BreastStroke,
            StyleGroup::Medley,
        ] {
            let h = Handicap { style_group: group, disability_type: grade };
            let shown = h.display_string();
            let back = Handicap::decode(&shown).unwrap();
            assert_eq!(back, h, "display {} must decode back", shown);
        }
    }
    assert_eq!(
        Handicap { style_group: StyleGroup::BreastStroke, disability_type: 7 }.display_string(),
        "SB,7"
    );
}

#[test]
fn handicap_rejects_out_of_range_grades() {
    assert!(matches!(Handicap::decode("S0"), Err(HcError::InvalidDisabilityGrade)));
    assert!(matches!(Handicap::decode("S16"), Err(HcError::InvalidDisabilityGrade)));
    assert!(matches!(Handicap::decode("SB200"), Err(HcError::InvalidDisabilityGrade)));
    assert!(matches!(Handicap::decode("S"), Err(HcError::ParseError(_))));
    assert!(matches!(Handicap::decode("X7"), Err(HcError::InvalidHandicapStyleGroup)));
    assert!(matches!(Handicap::decode(""), Err(HcError::InvalidHandicapStyleGroup)));
}

#[test]
fn handicap_explain_covers_the_grade_ranges() {
    let h = Handicap { style_group: StyleGroup::BreastStroke, disability_type: 7 };
    assert_eq!(h.explain().unwrap(), "movement and mobility in breaststroke");
    let h = Handicap { style_group: StyleGroup::Medley, disability_type: 12 };
    assert_eq!(h.explain().unwrap(), "reduced eye sight or blind in medley");
    let h = Handicap {
        style_group: StyleGroup::FreestyleBackstrokeButterfly,
        disability_type: 14,
    };
    assert_eq!(h.explain().unwrap(), "mental disability in freestyle, backstroke and butterfly");
    let h = Handicap { style_group: StyleGroup::Medley, disability_type: 15 };
    assert_eq!(h.explain().unwrap(), "deaf in medley");
    // Out-of-range grades are refused instead of aborting.
    let h = Handicap { style_group: StyleGroup::Medley, disability_type: 0 };
    assert!(matches!(h.explain(), Err(HcError::InvalidDisabilityGrade)));
    let h = Handicap { style_group: StyleGroup::Medley, disability_type: 16 };
    assert!(matches!(h.explain(), Err(HcError::InvalidDisabilityGrade)));
}

#[test]
fn class_decodes_the_fixed_tokens() {
    assert_eq!(Class::decode("SR", 2024).unwrap(), Class::Senior);
    assert_eq!(Class::decode("JR", 2024).unwrap(), Class::Junior(None));
}

#[test]
fn class_delegates_handicap_tokens() {
    assert_eq!(
        Class::decode("SB7", 2024).unwrap(),
        Class::Handicap(Handicap { style_group: StyleGroup::BreastStroke, disability_type: 7 })
    );
    assert_eq!(
        Class::decode("SM12", 2024).unwrap(),
        Class::Handicap(Handicap { style_group: StyleGroup::Medley, disability_type: 12 })
    );
    assert!(matches!(Class::decode("S99", 2024), Err(ClassError::Handicap(_))));
    // A lower-case leading s also reaches the handicap decoder, where
    // the prefix is refused.
    assert!(matches!(Class::decode("s7", 2024), Err(ClassError::Handicap(_))));
}

#[test]
fn class_decodes_birth_years_against_the_reference_year() {
    assert_eq!(Class::decode("2006", 2024).unwrap(), Class::Junior(Some(2006)));
    // Exactly 100 years in either direction is still accepted.
    assert_eq!(Class::decode("1924", 2024).unwrap(), Class::Junior(Some(1924)));
    assert_eq!(Class::decode("2124", 2024).unwrap(), Class::Junior(Some(2124)));
    // More than 100 years away is refused, past and future alike.
    assert!(matches!(Class::decode("1923", 2024), Err(ClassError::BirthYearOutOfRange(1923))));
    assert!(matches!(Class::decode("2125", 2024), Err(ClassError::BirthYearOutOfRange(2125))));
    assert!(matches!(Class::decode("3000", 2024), Err(ClassError::BirthYearOutOfRange(3000))));
    // Nearby future years pass; the window is a distance, not an age.
    assert_eq!(Class::decode("2030", 2024).unwrap(), Class::Junior(Some(2030)));
    assert!(matches!(Class::decode("", 2024), Err(ClassError::InvalidClass(_))));
    assert!(matches!(Class::decode("X5", 2024), Err(ClassError::InvalidClass(_))));
    assert!(matches!(Class::decode("99999", 2024), Err(ClassError::InvalidClass(_))));
}

#[test]
fn junior_ordinals_cover_ages_9_to_19() {
    let expected = [
        (9u32, Junior::A),
        (10, Junior::B),
        (11, Junior::C),
        (12, Junior::D),
        (13, Junior::E),
        (14, Junior::F),
        (15, Junior::G),
        (16, Junior::H),
        (17, Junior::I),
        (18, Junior::J),
        (19, Junior::K),
    ];
    for (age, ordinal) in expected {
        let j = Junior::from_age_difference(age).unwrap();
        assert_eq!(j, ordinal);
        assert_eq!(j.age() as u32, age);
    }
    assert!(matches!(Junior::from_age_difference(8), Err(JuniorError::AgeNotJunior)));
    assert!(matches!(Junior::from_age_difference(20), Err(JuniorError::AgeNotJunior)));
    assert!(matches!(Junior::from_age_difference(0), Err(JuniorError::AgeNotJunior)));
}

#[test]
fn junior_ordinal_of_a_class() {
    assert_eq!(Class::Junior(Some(2010)).junior_ordinal(2024).unwrap(), Junior::F);
    // The distance is absolute: the decoder does not assume which year
    // is larger.
    assert_eq!(Class::Junior(Some(2033)).junior_ordinal(2024).unwrap(), Junior::A);
    assert!(matches!(
        Class::Junior(Some(2020)).junior_ordinal(2024),
        Err(SetupError::AgeNotJunior)
    ));
    assert!(matches!(
        Class::Senior.junior_ordinal(2024),
        Err(SetupError::NotAJuniorVariant)
    ));
    assert!(matches!(
        Class::Junior(None).junior_ordinal(2024),
        Err(SetupError::TeamRelaysDoesNotHaveJuniorClassGroup)
    ));
    let hc = Class::Handicap(Handicap {
        style_group: StyleGroup::Medley,
        disability_type: 3,
    });
    assert!(matches!(hc.junior_ordinal(2024), Err(SetupError::NotAJuniorVariant)));
    assert_eq!(
        SetupError::AgeNotJunior.display_string(),
        "age is outside valid junior range"
    );
}

#[test]
fn gender_class_fixed_tokens() {
    let cases = [
        ("MSR", GenderGroup::Male, Class::Senior),
        ("MJS", GenderGroup::Male, Class::Junior(None)),
        ("KSR", GenderGroup::Female, Class::Senior),
        ("KJR", GenderGroup::Female, Class::Junior(None)),
        ("XSR", GenderGroup::Mixed, Class::Senior),
        ("XJR", GenderGroup::Mixed, Class::Junior(None)),
    ];
    for (token, gender, class) in cases {
        let gc = GenderClass::decode(token).unwrap();
        assert_eq!(gc.gender_group, gender, "token {}", token);
        assert_eq!(gc.class, class, "token {}", token);
    }
}

#[test]
fn gender_class_year_tokens() {
    let gc = GenderClass::decode("M95").unwrap();
    assert_eq!(gc.gender_group, GenderGroup::Male);
    assert_eq!(gc.class, Class::Junior(Some(95)));
    let gc = GenderClass::decode("K07").unwrap();
    assert_eq!(gc.gender_group, GenderGroup::Female);
    assert_eq!(gc.class, Class::Junior(Some(7)));
}

#[test]
fn gender_class_rejections() {
    assert!(matches!(GenderClass::decode("MS"), Err(GcError::InvalidStrLen)));
    assert!(matches!(GenderClass::decode("MSRX"), Err(GcError::InvalidStrLen)));
    assert!(matches!(GenderClass::decode(""), Err(GcError::InvalidStrLen)));
    assert!(matches!(GenderClass::decode("Z95"), Err(GcError::InvalidGender)));
    assert!(matches!(GenderClass::decode("M9X"), Err(GcError::InvalidClassYearStr(_))));
    assert!(matches!(GenderClass::decode("KAB"), Err(GcError::InvalidClassYearStr(_))));
}
