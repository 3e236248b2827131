use wishlist::text::{parse_user_id, to_decimal};

#[test]
fn decimal_text_of_ids() {
    assert_eq!(to_decimal(0), "0");
    assert_eq!(to_decimal(7), "7");
    assert_eq!(to_decimal(42), "42");
    assert_eq!(to_decimal(-42), "-42");
    assert_eq!(to_decimal(1000), "1000");
    assert_eq!(to_decimal(i32::MAX), "2147483647");
    assert_eq!(to_decimal(i32::MIN), "-2147483648");
}

#[test]
fn decimal_text_matches_to_string() {
    for n in [-1000000, -99, -10, -9, -1, 0, 1, 9, 10, 99, 100, 12345, 987654321] {
        assert_eq!(to_decimal(n), n.to_string());
    }
}

#[test]
fn parse_accepts_signs_and_digits() {
    assert_eq!(parse_user_id("17"), Some(17));
    assert_eq!(parse_user_id("+5"), Some(5));
    assert_eq!(parse_user_id("-0"), Some(0));
    assert_eq!(parse_user_id("007"), Some(7));
    assert_eq!(parse_user_id("-2147483648"), Some(i32::MIN));
    assert_eq!(parse_user_id("2147483647"), Some(i32::MAX));
}

#[test]
fn parse_refuses_other_text() {
    assert_eq!(parse_user_id(""), None);
    assert_eq!(parse_user_id("-"), None);
    assert_eq!(parse_user_id("+"), None);
    assert_eq!(parse_user_id("12a"), None);
    assert_eq!(parse_user_id(" 1"), None);
    assert_eq!(parse_user_id("1 "), None);
    assert_eq!(parse_user_id("--1"), None);
    assert_eq!(parse_user_id("pending"), None);
    assert_eq!(parse_user_id("2147483648"), None);
    assert_eq!(parse_user_id("-2147483649"), None);
    assert_eq!(parse_user_id("99999999999999999999"), None);
}

#[test]
fn parse_agrees_with_std() {
    for s in ["0", "12", "+12", "-12", "", "x", "1_000", "٣", "+-1", "00000000000000000001"] {
        assert_eq!(parse_user_id(s), s.parse::<i32>().ok(), "{}", s);
    }
}

#[test]
fn cookie_round_trip_on_values() {
    for n in [i32::MIN, -5, 0, 5, 31, i32::MAX] {
        assert_eq!(parse_user_id(&to_decimal(n)), Some(n));
    }
}

