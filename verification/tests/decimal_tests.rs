use modem_fota::decimal::{parse_decimal, parse_digits, push_decimal, push_natural};

fn format_decimal(n: i64) -> String {
    let mut text = String::new();
    push_decimal(&mut text, n);
    text
}

#[test]
fn parse_decimal_reads_plain_digits() {
    assert_eq!(parse_decimal("0"), Some(0));
    assert_eq!(parse_decimal("1"), Some(1));
    assert_eq!(parse_decimal("10"), Some(10));
    assert_eq!(parse_decimal("99"), Some(99));
    assert_eq!(parse_decimal("506"), Some(506));
    assert_eq!(parse_decimal("007"), Some(7));
    assert_eq!(parse_decimal("0000000000000000000012"), Some(12));
}

#[test]
fn parse_decimal_stops_at_the_largest_i32() {
    assert_eq!(parse_decimal("2147483647"), Some(i32::MAX));
    assert_eq!(parse_decimal("2147483648"), None);
    assert_eq!(parse_decimal("2147483650"), None);
    assert_eq!(parse_decimal("3000000000"), None);
    assert_eq!(parse_decimal("99999999999999999999999999"), None);
    assert_eq!(parse_decimal("21474836470"), None);
}

#[test]
fn parse_decimal_refuses_what_is_not_all_digits() {
    assert_eq!(parse_decimal(""), None);
    assert_eq!(parse_decimal("-1"), None);
    assert_eq!(parse_decimal("+1"), None);
    assert_eq!(parse_decimal(" 1"), None);
    assert_eq!(parse_decimal("1 "), None);
    assert_eq!(parse_decimal("12a"), None);
    assert_eq!(parse_decimal("a12"), None);
    assert_eq!(parse_decimal("1.5"), None);
    assert_eq!(parse_decimal("٣"), None);
    assert_eq!(parse_decimal("１２"), None);
}

#[test]
fn parse_decimal_agrees_with_std_on_digit_strings() {
    for s in ["0", "5", "42", "0042", "2147483647", "2147483648", "4294967296", "123456789"] {
        assert_eq!(parse_decimal(s), s.parse::<i32>().ok(), "{}", s);
    }
}

#[test]
fn parse_digits_reads_a_range() {
    let v: Vec<char> = "+CSQ: 20,99".chars().collect();
    assert_eq!(parse_digits(&v, 6, 8), Some(20));
    assert_eq!(parse_digits(&v, 9, 11), Some(99));
    assert_eq!(parse_digits(&v, 5, 8), None);
    assert_eq!(parse_digits(&v, 6, 9), None);
    assert_eq!(parse_digits(&v, 6, 6), None);
}

#[test]
fn format_decimal_writes_base_ten() {
    assert_eq!(format_decimal(0), "0");
    assert_eq!(format_decimal(7), "7");
    assert_eq!(format_decimal(10), "10");
    assert_eq!(format_decimal(50), "50");
    assert_eq!(format_decimal(506), "506");
    assert_eq!(format_decimal(-1), "-1");
    assert_eq!(format_decimal(-93), "-93");
    assert_eq!(format_decimal(1000000), "1000000");
}

#[test]
fn format_decimal_reaches_both_ends_of_i64() {
    assert_eq!(format_decimal(i64::MAX), "9223372036854775807");
    assert_eq!(format_decimal(i64::MIN), "-9223372036854775808");
    assert_eq!(format_decimal(i32::MAX as i64), "2147483647");
    assert_eq!(format_decimal(i32::MIN as i64), "-2147483648");
}

#[test]
fn format_decimal_agrees_with_std() {
    for n in [0i64, 1, 9, 10, 11, 99, 100, 101, -1, -9, -10, -100, 4611686018427387904] {
        assert_eq!(format_decimal(n), n.to_string());
    }
}

#[test]
fn push_decimal_appends_to_what_is_there() {
    let mut s = String::from("RSSI=");
    push_decimal(&mut s, 10);
    s.push_str(" (");
    push_decimal(&mut s, -93);
    assert_eq!(s, "RSSI=10 (-93");
    let mut t = String::from("x");
    push_natural(&mut t, 0);
    push_natural(&mut t, u64::MAX);
    assert_eq!(t, "x018446744073709551615");
}

#[test]
fn what_was_written_reads_back() {
    for n in [0i32, 1, 9, 10, 99, 100, 506, 65535, 2147483647] {
        assert_eq!(parse_decimal(&format_decimal(n as i64)), Some(n));
    }
}
