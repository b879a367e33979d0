use routine::decimal::{format_decimal, format_two_places, parse_i64};

#[test]
fn plain_digits_are_read() {
    assert_eq!(parse_i64("0"), Some(0));
    assert_eq!(parse_i64("7"), Some(7));
    assert_eq!(parse_i64("30"), Some(30));
    assert_eq!(parse_i64("1234567890"), Some(1_234_567_890));
}

#[test]
fn a_sign_may_lead() {
    assert_eq!(parse_i64("+15"), Some(15));
    assert_eq!(parse_i64("-15"), Some(-15));
    assert_eq!(parse_i64("-0"), Some(0));
}

#[test]
fn leading_zeros_do_not_count() {
    assert_eq!(parse_i64("007"), Some(7));
    assert_eq!(parse_i64("0000000000000000000000000000000000000012"), Some(12));
}

#[test]
fn the_ends_of_the_range_are_read() {
    assert_eq!(parse_i64("9223372036854775807"), Some(i64::MAX));
    assert_eq!(parse_i64("-9223372036854775808"), Some(i64::MIN));
}

#[test]
fn numbers_out_of_range_are_refused() {
    assert_eq!(parse_i64("9223372036854775808"), None);
    assert_eq!(parse_i64("-9223372036854775809"), None);
    assert_eq!(parse_i64("99999999999999999999999999999999999999999999"), None);
}

#[test]
fn text_that_is_no_number_is_refused() {
    for text in ["", "+", "-", "--5", "+-5", "5-", "1 2", " 12", "12 ", "1_000", "12s", "abc", "1.5", "٣", "１２"] {
        assert_eq!(parse_i64(text), None, "{:?}", text);
    }
}

#[test]
fn reading_agrees_with_the_standard_library() {
    for text in ["0", "-1", "+1", "42", "-", "", "00", "9223372036854775807", "9223372036854775808", "-9223372036854775808", "x1", "1x", "+ 1"] {
        assert_eq!(parse_i64(text), text.parse::<i64>().ok(), "{:?}", text);
    }
}

#[test]
fn numbers_are_written_without_leading_zeros() {
    assert_eq!(format_decimal(0), "0");
    assert_eq!(format_decimal(9), "9");
    assert_eq!(format_decimal(10), "10");
    assert_eq!(format_decimal(4_294_967_295), "4294967295");
    assert_eq!(format_decimal(u128::MAX), "340282366920938463463374607431768211455");
}

#[test]
fn two_places_get_a_leading_zero() {
    assert_eq!(format_two_places(0), "00");
    assert_eq!(format_two_places(7), "07");
    assert_eq!(format_two_places(10), "10");
    assert_eq!(format_two_places(59), "59");
    assert_eq!(format_two_places(123), "123");
}

#[test]
fn what_is_written_reads_back() {
    for n in [0u128, 1, 9, 10, 99, 100, 12_345, 9_223_372_036_854_775_807] {
        assert_eq!(parse_i64(&format_decimal(n)), Some(n as i64));
    }
}
