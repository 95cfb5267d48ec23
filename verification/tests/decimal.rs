use swampbot::decimal::{append_decimal, parse_snowflake, snowflake_text};

#[test]
fn parse_reads_plain_numerals() {
    assert_eq!(parse_snowflake("0"), Some(0));
    assert_eq!(parse_snowflake("7"), Some(7));
    assert_eq!(parse_snowflake("111"), Some(111));
    assert_eq!(parse_snowflake("1234567890123456789"), Some(1234567890123456789));
}

#[test]
fn parse_allows_leading_zeros_and_one_plus() {
    assert_eq!(parse_snowflake("007"), Some(7));
    assert_eq!(parse_snowflake("0000000000000000000000000000042"), Some(42));
    assert_eq!(parse_snowflake("+5"), Some(5));
    assert_eq!(parse_snowflake("+0"), Some(0));
}

#[test]
fn parse_reads_the_largest_snowflake() {
    assert_eq!(parse_snowflake("18446744073709551615"), Some(u64::MAX));
    assert_eq!(parse_snowflake("+18446744073709551615"), Some(u64::MAX));
}

#[test]
fn parse_refuses_what_does_not_fit() {
    assert_eq!(parse_snowflake("18446744073709551616"), None);
    assert_eq!(parse_snowflake("18446744073709551620"), None);
    assert_eq!(parse_snowflake("28446744073709551615"), None);
    assert_eq!(parse_snowflake("99999999999999999999999999"), None);
}

#[test]
fn parse_refuses_what_is_no_numeral() {
    assert_eq!(parse_snowflake(""), None);
    assert_eq!(parse_snowflake("+"), None);
    assert_eq!(parse_snowflake("++1"), None);
    assert_eq!(parse_snowflake("1+"), None);
    assert_eq!(parse_snowflake("-1"), None);
    assert_eq!(parse_snowflake("-0"), None);
    assert_eq!(parse_snowflake(" 1"), None);
    assert_eq!(parse_snowflake("1 "), None);
    assert_eq!(parse_snowflake("12a"), None);
    assert_eq!(parse_snowflake("abc"), None);
    assert_eq!(parse_snowflake("1_000"), None);
    assert_eq!(parse_snowflake("0x10"), None);
    assert_eq!(parse_snowflake("1.0"), None);
    assert_eq!(parse_snowflake("\u{ff11}\u{ff12}"), None);
    assert_eq!(parse_snowflake("\u{0661}"), None);
}

#[test]
fn parse_agrees_with_the_standard_library() {
    let samples = [
        "", "0", "1", "9", "10", "42", "+42", "-42", "+", "-", "+-1", "00", "0001", "1e3", "\u{0661}\u{0662}\u{0663}",
        "18446744073709551614", "18446744073709551615", "18446744073709551616",
        "184467440737095516150", "1844674407370955161", " 7", "7 ", "7\n", "seven", "\u{ff11}",
        "111", "222", "not-a-role", "+00000000000000000000000000000000000001",
    ];
    for sample in samples {
        assert_eq!(parse_snowflake(sample), sample.parse::<u64>().ok(), "on {:?}", sample);
    }
}

#[test]
fn text_of_a_snowflake_is_its_decimal_numeral() {
    assert_eq!(snowflake_text(0), "0");
    assert_eq!(snowflake_text(9), "9");
    assert_eq!(snowflake_text(10), "10");
    assert_eq!(snowflake_text(1005), "1005");
    assert_eq!(snowflake_text(123456789012345678), "123456789012345678");
    assert_eq!(snowflake_text(u64::MAX), "18446744073709551615");
}

#[test]
fn text_agrees_with_the_standard_library() {
    let samples = [0u64, 1, 9, 10, 11, 99, 100, 101, 65535, 4294967295, 4294967296, u64::MAX - 1, u64::MAX];
    for sample in samples {
        assert_eq!(snowflake_text(sample), sample.to_string());
    }
}

#[test]
fn append_keeps_what_was_there() {
    let mut out = String::from("id=");
    append_decimal(&mut out, 305);
    assert_eq!(out, "id=305");
    append_decimal(&mut out, 0);
    assert_eq!(out, "id=3050");
}

#[test]
fn reading_back_what_was_written_gives_the_same_snowflake() {
    let samples = [0u64, 1, 10, 111, 222, 1000000007, 9223372036854775808, u64::MAX];
    for sample in samples {
        assert_eq!(parse_snowflake(&snowflake_text(sample)), Some(sample));
    }
}
