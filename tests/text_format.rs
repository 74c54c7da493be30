use machine_info::text::{parse_i32, parse_reading, same_text};

#[test]
fn parse_i32_reads_plain_and_signed_numbers() {
    assert_eq!(parse_i32("600"), Some(600));
    assert_eq!(parse_i32("-42"), Some(-42));
    assert_eq!(parse_i32("+7"), Some(7));
    assert_eq!(parse_i32("0"), Some(0));
    assert_eq!(parse_i32("007"), Some(7));
}

#[test]
fn parse_i32_bounds() {
    assert_eq!(parse_i32("2147483647"), Some(i32::MAX));
    assert_eq!(parse_i32("-2147483648"), Some(i32::MIN));
    assert_eq!(parse_i32("2147483648"), None);
    assert_eq!(parse_i32("-2147483649"), None);
    assert_eq!(parse_i32("99999999999999999999999"), None);
}

#[test]
fn parse_i32_rejects_other_text() {
    assert_eq!(parse_i32(""), None);
    assert_eq!(parse_i32("-"), None);
    assert_eq!(parse_i32("+"), None);
    assert_eq!(parse_i32("12a"), None);
    assert_eq!(parse_i32(" 1"), None);
    assert_eq!(parse_i32("1.5"), None);
}

#[test]
fn parse_reading_reads_twelve_decimals() {
    assert_eq!(parse_reading("7"), 7_000_000_000_000);
    assert_eq!(parse_reading("12.3"), 12_300_000_000_000);
    assert_eq!(parse_reading("12.34"), 12_340_000_000_000);
    assert_eq!(parse_reading("12.345"), 12_345_000_000_000);
    assert_eq!(parse_reading("12.3449"), 12_344_900_000_000);
    assert_eq!(parse_reading("0.004"), 4_000_000_000);
    assert_eq!(parse_reading("99.999999999999"), 99_999_999_999_999);
}

#[test]
fn parse_reading_rounds_beyond_twelve_decimals() {
    assert_eq!(parse_reading("12.3456789012345"), 12_345_678_901_235);
    assert_eq!(parse_reading("12.3456789012344"), 12_345_678_901_234);
    assert_eq!(parse_reading("0.9999999999995"), 1_000_000_000_000);
}

#[test]
fn parse_reading_gives_zero_for_other_text() {
    assert_eq!(parse_reading(""), 0);
    assert_eq!(parse_reading("NaN"), 0);
    assert_eq!(parse_reading("inf"), 0);
    assert_eq!(parse_reading("-3.5"), 0);
    assert_eq!(parse_reading("1."), 0);
    assert_eq!(parse_reading(".5"), 0);
    assert_eq!(parse_reading("1.2.3"), 0);
}

#[test]
fn parse_reading_holds_huge_values_at_the_cap() {
    assert_eq!(
        parse_reading("340282350000000000000000000000000000000"),
        machine_info::text::READING_CAP
    );
    assert_eq!(parse_reading("1000000"), machine_info::text::READING_CAP);
    assert_eq!(parse_reading("999999.5"), 999_999_500_000_000_000);
}

#[test]
fn same_text_compares_characters() {
    assert!(same_text("x86", "x86"));
    assert!(!same_text("x86", "x86_64"));
    assert!(!same_text("arm", "ARM"));
    assert!(same_text("", ""));
}
