use std::str::FromStr;

use chrono::{Datelike, Duration, NaiveDate, Utc};
use iso_currency::Currency;
use loan_interest::date::Date;
use loan_interest::decimal::Dec;
use loan_interest::input::{
    parse_currency, parse_date, parse_date_on, parse_decimal, parse_end_date,
    parse_percentage_input,
};
use loan_interest::text::parse_input_into_type;
use rust_decimal::Decimal;

fn date(text: &str) -> Date {
    parse_input_into_type::<Date>(text).expect("Failed to parse date")
}

fn decimal(d: Dec) -> Decimal {
    Decimal::from_i128_with_scale(d.mantissa, d.scale)
}

fn day_of(d: NaiveDate) -> Date {
    Date::from_days(d.num_days_from_ce())
}

#[test]
fn test_parse_start_date_valid() {
    // The date is checked against a fixed "today" so that the case does not
    // depend on when it runs.
    let today = date("2024-12-31");
    let start_date = parse_date_on("2025-01-01", today).expect("Failed to parse start date");
    assert!(start_date.days > today.days);
}

#[test]
fn test_parse_start_date_past() {
    let result = parse_date("2024-01-01");
    assert!(result.is_err());
}

#[test]
fn test_parse_start_date_invalid_date() {
    let result = parse_date("202-01");
    assert!(result.is_err());
}

#[test]
fn test_parse_end_date_valid() {
    let start_date = date("2025-01-01");
    let end_date = parse_end_date("2026-01-01", start_date).expect("Failed to parse end date");
    assert!(end_date.days > start_date.days);
}

#[test]
fn test_parse_end_date_invalid() {
    let start_date = date("2025-01-01");
    let result = parse_end_date("2024-01-01", start_date);
    assert!(result.is_err());
}

#[test]
fn test_parse_decimal_valid() {
    let decimal_value = parse_decimal("1000.00").expect("Failed to parse decimal");
    assert_eq!(decimal(decimal_value), Decimal::from(1000));
}

#[test]
fn test_parse_decimal_invalid() {
    let result = parse_decimal("1a00.00b");
    assert!(result.is_err());
}

#[test]
fn test_parse_currency_valid() {
    let currency = parse_currency("USD").expect("Failed to parse currency");
    assert_eq!(Currency::from_code(currency.as_str()), Some(Currency::USD));
}

#[test]
fn test_parse_currency_invalid() {
    let result = parse_currency("invalid currency");
    assert!(result.is_err());
}

#[test]
fn parsed_date_has_chrono_day_number() {
    let d = date("2025-01-01");
    let expected = NaiveDate::from_ymd_opt(2025, 1, 1).unwrap().num_days_from_ce();
    assert_eq!(d.days, expected);
    assert_eq!(date("  2025-01-02\n").days, expected + 1);
}

#[test]
fn date_today_is_accepted_yesterday_is_not() {
    let today = date("2025-06-15");
    assert_eq!(parse_date_on("2025-06-15", today), Ok(today));
    assert_eq!(
        parse_date_on("2025-06-14", today),
        Err("* Start date cannot be in the past".to_string())
    );
    assert_eq!(parse_date_on("2025-06-16", today).unwrap().days, today.days + 1);
}

#[test]
fn date_against_the_clock() {
    let now = Utc::now().date_naive();
    let text = now.format("%Y-%m-%d").to_string();
    let yesterday = (now - Duration::days(1)).format("%Y-%m-%d").to_string();
    assert_eq!(parse_date(&text), Ok(day_of(now)));
    assert_eq!(
        parse_date(&yesterday),
        Err("* Start date cannot be in the past".to_string())
    );
}

#[test]
fn invalid_date_message() {
    let today = date("2025-06-15");
    assert_eq!(
        parse_date_on("not a date", today),
        Err("* Please enter a valid date in the future".to_string())
    );
    assert_eq!(
        parse_end_date("2025-13-01", today),
        Err("* Please enter a valid date in the future".to_string())
    );
}

#[test]
fn end_date_must_follow_start() {
    let start = date("2025-01-01");
    let message = Err("* The end date of the loan must be after the start date".to_string());
    assert_eq!(parse_end_date("2025-01-01", start), message);
    assert_eq!(parse_end_date("2024-12-31", start), message);
    let next = parse_end_date("2025-01-02", start).expect("day after start");
    assert_eq!(next.days, start.days + 1);
}

#[test]
fn decimal_keeps_precision_and_trims() {
    let d = parse_decimal(" 0.0525\n").unwrap();
    assert_eq!((d.mantissa, d.scale), (525, 4));
    assert_eq!(
        parse_decimal("").unwrap_err(),
        "* Please enter a valid number".to_string()
    );
}

#[test]
fn decimal_text_round_trip() {
    for s in [
        "1000.00",
        "-12.345",
        "0.00",
        "-0.00",
        "0.0000000000000000000000000001",
        "79228162514264337593543950335",
        "-7.9228162514264337593543950335",
        "007.50",
    ] {
        let d = parse_decimal(s).unwrap();
        let text = d.to_text();
        let again = parse_decimal(&text).unwrap();
        assert_eq!((again.mantissa, again.scale), (d.mantissa, d.scale));
        assert_eq!(decimal(again), Decimal::from_str(s).unwrap());
    }
    assert_eq!(parse_decimal("007.50").unwrap().to_text(), "7.50");
}

#[test]
fn percentage_becomes_fraction() {
    let rate = parse_percentage_input("5.25").unwrap();
    assert_eq!(decimal(rate), Decimal::from_str("0.0525").unwrap());
    let margin = parse_percentage_input(" 1 ").unwrap();
    assert_eq!(decimal(margin), Decimal::from_str("0.01").unwrap());
    assert_eq!(
        parse_percentage_input("five").unwrap_err(),
        "* Please enter a valid number".to_string()
    );
}

#[test]
fn currency_codes() {
    for code in ["USD", "EUR", "GBP", " JPY\n"] {
        let c = parse_currency(code).expect("known code");
        assert_eq!(c.as_str(), code.trim());
    }
    let message = "* Please enter a valid currency".to_string();
    assert_eq!(parse_currency("XYZ123").unwrap_err(), message);
    assert_eq!(parse_currency("").unwrap_err(), message);
    assert_eq!(parse_currency("AAA").unwrap_err(), message);
}

#[test]
fn decimal_constructors() {
    assert!(Dec::new(1, 28).is_some());
    assert!(Dec::new(1, 29).is_none());
    assert!(Dec::new(79228162514264337593543950335, 0).is_some());
    assert!(Dec::new(79228162514264337593543950336, 0).is_none());
    assert!(Dec::new(-79228162514264337593543950336, 0).is_none());
    let d = Dec::from_int(-42);
    assert_eq!((d.mantissa, d.scale), (-42, 0));
}
