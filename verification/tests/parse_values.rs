use rlbot_core::parse::{parse_i32, parse_i32_list};

#[test]
fn parses_plain_numbers() {
    assert_eq!(parse_i32("0"), Some(0));
    assert_eq!(parse_i32("123"), Some(123));
    assert_eq!(parse_i32("-123"), Some(-123));
    assert_eq!(parse_i32("+5"), Some(5));
    assert_eq!(parse_i32("00042"), Some(42));
}

#[test]
fn parses_the_extremes() {
    assert_eq!(parse_i32("2147483647"), Some(i32::MAX));
    assert_eq!(parse_i32("-2147483648"), Some(i32::MIN));
    assert_eq!(parse_i32("2147483648"), None);
    assert_eq!(parse_i32("-2147483649"), None);
    assert_eq!(parse_i32("99999999999999999999"), None);
}

#[test]
fn rejects_malformed_numbers() {
    assert_eq!(parse_i32(""), None);
    assert_eq!(parse_i32("-"), None);
    assert_eq!(parse_i32("+"), None);
    assert_eq!(parse_i32("abc"), None);
    assert_eq!(parse_i32("1e3"), None);
    assert_eq!(parse_i32("12 "), None);
    assert_eq!(parse_i32("--1"), None);
}

#[test]
fn parses_comma_separated_lists() {
    assert_eq!(parse_i32_list("0,1,2,3,4,5"), Some(vec![0, 1, 2, 3, 4, 5]));
    assert_eq!(parse_i32_list("7"), Some(vec![7]));
    assert_eq!(parse_i32_list("-1,2"), Some(vec![-1, 2]));
}

#[test]
fn rejects_malformed_lists() {
    assert_eq!(parse_i32_list(""), None);
    assert_eq!(parse_i32_list("1,,2"), None);
    assert_eq!(parse_i32_list("1,x"), None);
    assert_eq!(parse_i32_list("1,2,"), None);
    assert_eq!(parse_i32_list(",1"), None);
}
