use bitcoin_vanity::text::{decimal_string, format_number};

#[test]
fn decimal_zero() {
    assert_eq!(decimal_string(0), "0");
}

#[test]
fn decimal_plain() {
    assert_eq!(decimal_string(7), "7");
    assert_eq!(decimal_string(90521), "90521");
}

#[test]
fn decimal_largest() {
    assert_eq!(decimal_string(u64::MAX), "18446744073709551615");
}

#[test]
fn grouping_short_numbers_unchanged() {
    assert_eq!(format_number(0), "0");
    assert_eq!(format_number(42), "42");
    assert_eq!(format_number(999), "999");
}

#[test]
fn grouping_at_thousand() {
    assert_eq!(format_number(1000), "1 000");
}

#[test]
fn grouping_long_number() {
    assert_eq!(format_number(1234567), "1 234 567");
    assert_eq!(format_number(1000000000), "1 000 000 000");
}

#[test]
fn grouping_largest() {
    assert_eq!(format_number(u64::MAX), "18 446 744 073 709 551 615");
}
