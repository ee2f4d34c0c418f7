//! Closed enumerations: token tables, display strings and numeric codes.

use jechsoft::meet_setup::australian_rank::AustralianRank;
use jechsoft::meet_setup::australian_world_record::AustralianWorldRecord;
use jechsoft::meet_setup::award::{Award, Error as AwardError};
use jechsoft::meet_setup::competition_type::{CompetitionType, Error as CompetitionError};
use jechsoft::meet_setup::gender_group::{Error as GenderError, GenderGroup};
use jechsoft::meet_setup::pool_category::PoolCategory;
use jechsoft::meet_setup::pool_length::{Error as PoolError, PoolLength};
use jechsoft::meet_setup::round::Round;
use jechsoft::meet_setup::sorting::Sorting;
use jechsoft::meet_setup::touch_pad_set::{Error as PadError, TouchPadSet};

#[test]
fn gender_group_tokens() {
    assert_eq!(GenderGroup::decode("MALE").unwrap(), GenderGroup::Male);
    assert_eq!(GenderGroup::decode("FEMALE").unwrap(), GenderGroup::Female);
    assert_eq!(GenderGroup::decode("MIXED").unwrap(), GenderGroup::Mixed);
    assert!(matches!(GenderGroup::decode("male"), Err(GenderError::UnknownVariant(_))));
    assert_eq!(GenderGroup::Male.display_string(), "male");
    assert_eq!(GenderGroup::Mixed.display_string(), "mixed");
}

#[test]
fn pool_length_tokens_and_meters() {
    assert_eq!(PoolLength::decode("25").unwrap(), PoolLength::PoolLength25);
    assert_eq!(PoolLength::decode("50").unwrap(), PoolLength::PoolLength50);
    assert!(matches!(PoolLength::decode("33"), Err(PoolError::PoolLengthDoesNotExists)));
    assert!(matches!(PoolLength::decode("fifty"), Err(PoolError::TryFrom(_))));
    assert_eq!(PoolLength::PoolLength25.meters(), 25);
    assert_eq!(PoolLength::PoolLength50.display_string(), "50m");
    assert!(PoolLength::from_meters(50).is_ok());
    assert!(PoolLength::from_meters(0).is_err());
}

#[test]
fn pool_category_token() {
    assert_eq!(PoolCategory::decode("METERS").unwrap(), PoolCategory::Meters);
    assert!(PoolCategory::decode("YARDS").is_err());
}

#[test]
fn competition_type_codes_round_trip() {
    let cases: [(u8, CompetitionType); 9] = [
        (3, CompetitionType::MentallyDisabledMeet),
        (4, CompetitionType::NationalMeetWithAthletesFromForeginNations),
        (5, CompetitionType::International),
        (6, CompetitionType::Unofficial),
        (8, CompetitionType::NorwegianChampionship),
        (15, CompetitionType::RegionalWithoutQualification),
        (16, CompetitionType::RegionalAgeGroupMeet),
        (18, CompetitionType::DistrictRegionalMeet),
        (19, CompetitionType::NonNorwegianMeet),
    ];
    for (code, variant) in cases {
        assert_eq!(CompetitionType::from_code(code).unwrap(), variant);
        assert_eq!(variant.to_code(), code);
    }
    // Codes outside the table fail closed.
    for code in [0u8, 1, 2, 7, 9, 14, 17, 20, 255] {
        assert!(matches!(
            CompetitionType::from_code(code),
            Err(CompetitionError::CompetitionTypeIdDoesNotExists)
        ));
    }
    assert_eq!(
        CompetitionType::decode("8").unwrap(),
        CompetitionType::NorwegianChampionship
    );
    assert!(matches!(CompetitionType::decode("eight"), Err(CompetitionError::Parse(_))));
    assert_eq!(
        CompetitionType::International.display_string(),
        "international championship"
    );
}

#[test]
fn award_tokens() {
    assert_eq!(Award::decode("DEFAULT").unwrap(), Award::Default);
    assert_eq!(Award::decode("MEDALS").unwrap(), Award::Medals);
    assert_eq!(Award::decode("NO").unwrap(), Award::NoAward);
    assert_eq!(Award::decode("3").unwrap(), Award::Third);
    assert!(matches!(Award::decode("GOLD"), Err(AwardError::UnknownVariant(_))));
    assert_eq!(Award::Third.display_string(), "top 1/3");
    assert_eq!(Award::NoAward.display_string(), "none");
}

#[test]
fn touch_pad_tokens() {
    assert_eq!(TouchPadSet::decode("ONE SET").unwrap(), TouchPadSet::OneSet);
    assert_eq!(TouchPadSet::decode("TWO SET").unwrap(), TouchPadSet::TwoSet);
    assert_eq!(TouchPadSet::decode("NO").unwrap(), TouchPadSet::NoPads);
    assert!(matches!(TouchPadSet::decode("THREE SET"), Err(PadError::UnknownSet(_))));
}

#[test]
fn round_tokens() {
    assert_eq!(Round::decode("8FINAL").unwrap(), Round::Final8);
    assert_eq!(Round::decode("DIRECTFINAL").unwrap(), Round::DirectFinal);
    assert_eq!(Round::decode("SEMIFINAL").unwrap(), Round::SemiFinal);
    assert_eq!(Round::decode("FINAL").unwrap(), Round::Final);
    assert_eq!(Round::decode("PRELIMINARY").unwrap(), Round::Preliminary);
    assert_eq!(Round::decode("QUARTERFINAL").unwrap(), Round::QuarterFinal);
    assert_eq!(Round::decode("UNDEFINED").unwrap(), Round::Undefined);
    assert!(Round::decode("FINALE").is_err());
    assert_eq!(Round::Final8.display_string(), "8 final");
}

#[test]
fn sorting_tokens() {
    assert_eq!(Sorting::decode("AGEGROUPEDFINAL").unwrap(), Sorting::AgeGroupeDFinal);
    assert_eq!(Sorting::decode("FINAL").unwrap(), Sorting::Final);
    assert_eq!(Sorting::decode("PARTFINAL").unwrap(), Sorting::PartFinal);
    assert_eq!(Sorting::decode("FINALAGEGROUPTIME").unwrap(), Sorting::FinalAgeGroupTime);
    assert_eq!(Sorting::decode("FINALTIMEAGEGROUP").unwrap(), Sorting::FinalTimeAgeGroup);
    assert_eq!(Sorting::decode("HCFINSRFIN").unwrap(), Sorting::Hcfinsrfin);
    assert_eq!(Sorting::decode("PRELIMINARY").unwrap(), Sorting::Preliminary);
    assert_eq!(Sorting::decode("ALTERNATIVE").unwrap(), Sorting::Alternative);
    assert_eq!(Sorting::decode("HCFINSRPREJRFIN").unwrap(), Sorting::Hcfinsrprejrfin);
    assert_eq!(Sorting::decode("HCPRESRPREJRFIN").unwrap(), Sorting::Hcpresrprejrfin);
    assert_eq!(
        Sorting::decode("FINALAGEGROUPTIMESPLITYF").unwrap(),
        Sorting::FinalAgeGroupTimeSplitYF
    );
    assert!(Sorting::decode("RANDOM").is_err());
    assert_eq!(Sorting::FinalAgeGroupTime.display_string(), "Final, age then time");
}

#[test]
fn australian_tokens() {
    assert_eq!(AustralianRank::decode("PERCENT").unwrap(), AustralianRank::Percent);
    assert_eq!(AustralianRank::decode("percent").unwrap(), AustralianRank::Percent);
    assert!(AustralianRank::decode("POINTS").is_err());
    assert_eq!(
        AustralianWorldRecord::decode("LONGCOURSE").unwrap(),
        AustralianWorldRecord::LongCourse
    );
    assert_eq!(
        AustralianWorldRecord::decode("long course").unwrap(),
        AustralianWorldRecord::LongCourse
    );
    assert_eq!(AustralianWorldRecord::decode("SAME").unwrap(), AustralianWorldRecord::Same);
    assert_eq!(AustralianWorldRecord::decode("same").unwrap(), AustralianWorldRecord::Same);
    assert!(AustralianWorldRecord::decode("SHORTCOURSE").is_err());
}
