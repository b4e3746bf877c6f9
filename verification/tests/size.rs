use dirlist::decimal::{count_digits, decimal};
use dirlist::size::{bytes_symbol, parse_size};

#[test]
fn small_counts_are_plain() {
    assert_eq!(parse_size(42), "42B");
    assert_eq!(parse_size(999), "999B");
    assert_eq!(parse_size(0), "0B");
    assert_eq!(parse_size(7), "7B");
    assert_eq!(parse_size(100), "100B");
}

#[test]
fn every_count_below_a_thousand_is_plain() {
    for n in 0..1000u64 {
        assert_eq!(parse_size(n), format!("{}B", n));
    }
}

#[test]
fn four_digits_are_kilobytes_with_one_leading_digit() {
    assert_eq!(parse_size(1234), "1.23kB");
    assert_eq!(parse_size(1000), "1.00kB");
    assert_eq!(parse_size(9999), "9.99kB");
}

#[test]
fn five_and_six_digits_are_kilobytes() {
    assert_eq!(parse_size(12345), "12.34kB");
    assert_eq!(parse_size(123456), "123.45kB");
    assert_eq!(parse_size(999999), "999.99kB");
}

#[test]
fn seven_digits_are_megabytes_in_lower_case() {
    assert_eq!(parse_size(1000000), "1.00mB");
    assert_eq!(parse_size(1234567), "1.23mB");
    assert_eq!(parse_size(12345678), "12.34mB");
    assert_eq!(parse_size(123456789), "123.45mB");
}

#[test]
fn ten_to_fifteen_digits_are_giga_and_terabytes() {
    assert_eq!(parse_size(1234567890), "1.23GB");
    assert_eq!(parse_size(12345678901), "12.34GB");
    assert_eq!(parse_size(123456789012), "123.45GB");
    assert_eq!(parse_size(1234567890123), "1.23TB");
    assert_eq!(parse_size(12345678901234), "12.34TB");
    assert_eq!(parse_size(123456789012345), "123.45TB");
}

#[test]
fn beyond_fifteen_digits_there_is_no_unit() {
    assert_eq!(parse_size(1234567890123456), "1.23");
    assert_eq!(parse_size(12345678901234567), "12.34");
    assert_eq!(parse_size(123456789012345678), "123.45");
    assert_eq!(parse_size(u64::MAX), "18.44");
}

#[test]
fn digits_are_cut_not_rounded() {
    assert_eq!(parse_size(1999), "1.99kB");
    assert_eq!(parse_size(19999), "19.99kB");
    assert_eq!(parse_size(1009), "1.00kB");
}

#[test]
fn human_form_is_never_longer_than_eight() {
    let samples = [0u64, 9, 10, 999, 1000, 123456, 999999, 123456789012345, u64::MAX];
    for n in samples {
        let len = parse_size(n).chars().count();
        assert!(2 <= len && len <= 8);
    }
}

#[test]
fn symbol_by_digit_count() {
    let expected = [
        "", "B", "B", "B", "kB", "kB", "kB", "mB", "mB", "mB", "GB", "GB", "GB", "TB", "TB", "TB",
        "", "", "", "", "",
    ];
    for (length, symbol) in expected.iter().enumerate() {
        assert_eq!(bytes_symbol(length as u32), *symbol);
    }
    assert_eq!(bytes_symbol(u32::MAX), "");
}

#[test]
fn decimal_matches_the_standard_rendering() {
    let samples = [0u64, 1, 9, 10, 11, 99, 100, 101, 1234, 1000000, 9007199254740993, u64::MAX];
    for n in samples {
        assert_eq!(decimal(n), n.to_string());
    }
    assert_eq!(decimal(0), "0");
    assert_eq!(decimal(1203), "1203");
    assert_eq!(decimal(u64::MAX), "18446744073709551615");
}

#[test]
fn digit_counts() {
    assert_eq!(count_digits(0), 1);
    assert_eq!(count_digits(9), 1);
    assert_eq!(count_digits(10), 2);
    assert_eq!(count_digits(999), 3);
    assert_eq!(count_digits(1000), 4);
    assert_eq!(count_digits(u64::MAX), 20);
    let mut power: u64 = 1;
    for digits in 1..=19u32 {
        assert_eq!(count_digits(power), digits);
        if digits > 1 {
            assert_eq!(count_digits(power - 1), digits - 1);
        }
        power *= 10;
    }
}
