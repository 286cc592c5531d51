use parsing::ParsingError;
use parsing::amounts::parse_amount;
use parsing::dates::Date;
use parsing::dates::parse_date;

#[test]
fn parse_date_bare_form() {
    let d = parse_date("2023-04-01").unwrap();
    assert_eq!(d, Date { year: 2023, month: 4, day: 1 });
}

#[test]
fn parse_date_combined_form_keeps_date_part() {
    let d = parse_date("2023-04-20T23:24:31").unwrap();
    assert_eq!(d, Date { year: 2023, month: 4, day: 20 });
}

#[test]
fn parse_date_rejects_other_text() {
    let r = parse_date("invalid-date");
    assert!(matches!(r, Err(ParsingError::ParseDateError(_))));
    assert!(matches!(parse_date(""), Err(ParsingError::ParseDateError(_))));
    assert!(matches!(parse_date("2023-4-1"), Err(ParsingError::ParseDateError(_))));
}

#[test]
fn parse_date_rejects_unreal_days() {
    assert!(parse_date("2023-02-29").is_err());
    assert!(parse_date("2023-13-01").is_err());
    assert!(parse_date("2023-00-10").is_err());
    assert!(parse_date("2023-04-31").is_err());
}

#[test]
fn parse_date_accepts_leap_day() {
    let d = parse_date("2024-02-29").unwrap();
    assert_eq!(d, Date { year: 2024, month: 2, day: 29 });
    assert!(parse_date("1900-02-29").is_err());
    assert!(parse_date("2000-02-29").is_ok());
}

#[test]
fn parse_date_rejects_bad_time_part() {
    assert!(parse_date("2023-04-20T25:00:00").is_err());
    assert!(parse_date("2023-04-20T23:61:00").is_err());
    assert!(parse_date("2023-04-20 23:24:31").is_err());
}

#[test]
fn parse_amount_two_fraction_digits() {
    assert_eq!(parse_amount("1000.00").unwrap(), 100_000);
    assert_eq!(parse_amount("1200.50").unwrap(), 120_050);
    assert_eq!(parse_amount("0.07").unwrap(), 7);
}

#[test]
fn parse_amount_signs_and_short_forms() {
    assert_eq!(parse_amount("-123.45").unwrap(), -12_345);
    assert_eq!(parse_amount("+50").unwrap(), 5_000);
    assert_eq!(parse_amount("50").unwrap(), 5_000);
    assert_eq!(parse_amount("1.5").unwrap(), 150);
    assert_eq!(parse_amount("-0.00").unwrap(), 0);
}

#[test]
fn parse_amount_rejects_malformed_literals() {
    for bad in ["", "abc", "12,50", "1.234", "1.", ".50", "--5", "5-", "1 000", "€5"] {
        let r = parse_amount(bad);
        assert!(
            matches!(r, Err(ParsingError::InvalidAmount(_))),
            "accepted {:?}",
            bad
        );
    }
}

#[test]
fn parse_amount_rejects_oversized_literals() {
    // sixteen integer digits lie beyond the documented bound
    assert!(parse_amount("1000000000000000.00").is_err());
    // fifteen digits are still accepted
    assert_eq!(
        parse_amount("999999999999999.99").unwrap(),
        99_999_999_999_999_999
    );
}
