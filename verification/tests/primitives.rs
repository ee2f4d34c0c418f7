//! Primitive decoders: dates, times, durations, booleans and years.

use jechsoft::meet_setup::primitives::{
    parse_bool, parse_date, parse_duration, parse_opt_bool, parse_opt_date, parse_qual_duration,
    parse_time, parse_year, Date, Error, Time,
};

#[test]
fn date_round_trips_components() {
    let d = parse_date("20240229").unwrap();
    assert_eq!(d, Date { year: 2024, month: 2, day: 29 });
    let d = parse_date("19991231").unwrap();
    assert_eq!(d, Date { year: 1999, month: 12, day: 31 });
    let d = parse_date("00010101").unwrap();
    assert_eq!(d, Date { year: 1, month: 1, day: 1 });
}

#[test]
fn date_rejects_non_calendar_days() {
    // Not a leap year.
    assert!(matches!(parse_date("20230229"), Err(Error::InvalidDate(_))));
    // There is no 30th of February even in a leap year.
    assert!(matches!(parse_date("20240230"), Err(Error::InvalidDate(_))));
    // April has 30 days.
    assert!(matches!(parse_date("20240431"), Err(Error::InvalidDate(_))));
    // 1900 is not a leap year (century rule), 2000 is (400 rule).
    assert!(matches!(parse_date("19000229"), Err(Error::InvalidDate(_))));
    assert!(parse_date("20000229").is_ok());
    // Month 0 and month 13 do not exist.
    assert!(matches!(parse_date("20240001"), Err(Error::InvalidDate(_))));
    assert!(matches!(parse_date("20241301"), Err(Error::InvalidDate(_))));
}

#[test]
fn date_rejects_malformed_strings() {
    assert!(matches!(parse_date(""), Err(Error::InvalidDate(_))));
    assert!(matches!(parse_date("2024021"), Err(Error::InvalidDate(_))));
    assert!(matches!(parse_date("202402291"), Err(Error::InvalidDate(_))));
    assert!(matches!(parse_date("2024O229"), Err(Error::InvalidDate(_))));
    assert!(matches!(parse_date("abcdefgh"), Err(Error::InvalidDate(_))));
    // The error carries the raw input.
    match parse_date("20230229") {
        Err(Error::InvalidDate(raw)) => assert_eq!(raw, "20230229"),
        other => panic!("expected InvalidDate, got {:?}", other),
    }
}

#[test]
fn opt_date_takes_empty_as_absent() {
    assert_eq!(parse_opt_date("").unwrap(), None);
    assert_eq!(parse_opt_date("20240610").unwrap(), Some(Date { year: 2024, month: 6, day: 10 }));
    assert!(parse_opt_date("2024").is_err());
}

#[test]
fn time_decodes_hours_and_minutes() {
    assert_eq!(parse_time("0000").unwrap(), Time { hour: 0, minute: 0 });
    assert_eq!(parse_time("2359").unwrap(), Time { hour: 23, minute: 59 });
    assert_eq!(parse_time("0930").unwrap(), Time { hour: 9, minute: 30 });
    assert!(matches!(parse_time("2400"), Err(Error::InvalidTime(_))));
    assert!(matches!(parse_time("1260"), Err(Error::InvalidTime(_))));
    assert!(matches!(parse_time("930"), Err(Error::InvalidTime(_))));
    assert!(matches!(parse_time(""), Err(Error::InvalidTime(_))));
    assert!(matches!(parse_time("12:30"), Err(Error::InvalidTime(_))));
}

#[test]
fn duration_reads_single_digits_at_fixed_offsets() {
    // Positions 0-1 give minutes, position 4 the seconds digit, position
    // 7 the hundredths digit: 2 min, 0 s, 5 hundredths. A naive
    // two-digit read of the seconds field would give 30 s instead.
    assert_eq!(parse_duration("02:30:05").unwrap(), 2 * 60000 + 0 * 1000 + 5 * 100);
    // 12 minutes, 6 s, 9 hundredths.
    assert_eq!(parse_duration("12:46:59").unwrap(), 12 * 60000 + 6 * 1000 + 9 * 100);
    assert!(matches!(parse_duration(""), Err(Error::InvalidValue(_))));
    assert!(matches!(parse_duration("0230:05"), Err(Error::InvalidValue(_))));
    assert!(matches!(parse_duration("ab:cd:ef"), Err(Error::InvalidValue(_))));
}

#[test]
fn qual_duration_reads_single_digits_at_fixed_offsets() {
    // Positions 0-1 give minutes, position 3 the seconds digit, position
    // 5 the hundredths digit: "024735" is 2 min, 7 s, 5 hundredths, not
    // the naive 47 s and 35 hundredths.
    assert_eq!(parse_qual_duration("024735").unwrap(), 2 * 60000 + 7 * 1000 + 5 * 100);
    assert_eq!(parse_qual_duration("023005").unwrap(), 2 * 60000 + 0 * 1000 + 5 * 100);
    assert!(matches!(parse_qual_duration("02305"), Err(Error::InvalidValue(_))));
    assert!(matches!(parse_qual_duration("0230051"), Err(Error::InvalidValue(_))));
}

#[test]
fn bool_accepts_exactly_the_two_tokens() {
    assert_eq!(parse_bool("TRUE").unwrap(), true);
    assert_eq!(parse_bool("FALSE").unwrap(), false);
    assert!(matches!(parse_bool("true"), Err(Error::UnknownVariant(_))));
    assert!(matches!(parse_bool("True"), Err(Error::UnknownVariant(_))));
    assert!(matches!(parse_bool(""), Err(Error::UnknownVariant(_))));
    match parse_bool("YES") {
        Err(Error::UnknownVariant(raw)) => assert_eq!(raw, "YES"),
        other => panic!("expected UnknownVariant, got {:?}", other),
    }
}

#[test]
fn opt_bool_takes_empty_as_absent() {
    assert_eq!(parse_opt_bool("").unwrap(), None);
    assert_eq!(parse_opt_bool("TRUE").unwrap(), Some(true));
    assert_eq!(parse_opt_bool("FALSE").unwrap(), Some(false));
    assert!(parse_opt_bool("no").is_err());
}

#[test]
fn year_accepts_any_small_signed_integer() {
    assert_eq!(parse_year("2024").unwrap(), 2024);
    assert_eq!(parse_year("95").unwrap(), 95);
    assert_eq!(parse_year("0").unwrap(), 0);
    assert_eq!(parse_year("-44").unwrap(), -44);
    assert_eq!(parse_year("+7").unwrap(), 7);
    assert!(matches!(parse_year("99999"), Err(Error::InvalidYear(_))));
    assert!(matches!(parse_year(""), Err(Error::InvalidYear(_))));
    assert!(matches!(parse_year("19x4"), Err(Error::InvalidYear(_))));
}
