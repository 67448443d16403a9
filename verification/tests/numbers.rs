use conference_planner::numbers::{decimal_text, parse_i32, parse_u64, push_decimal};

const SAMPLES: [&str; 24] = [
    "0", "42", "+42", "-42", "007", "-0", "+0", "", "+", "-", "+-1", "-+1", " 1", "1 ", "1a",
    "2147483647", "2147483648", "-2147483648", "-2147483649", "18446744073709551615",
    "18446744073709551616", "99999999999999999999999", "१२", "12\n",
];

#[test]
fn parse_i32_agrees_with_std() {
    for s in SAMPLES.iter() {
        assert_eq!(parse_i32(s), s.parse::<i32>().ok(), "input {:?}", s);
    }
}

#[test]
fn parse_u64_agrees_with_std() {
    for s in SAMPLES.iter() {
        assert_eq!(parse_u64(s), s.parse::<u64>().ok(), "input {:?}", s);
    }
}

#[test]
fn parse_i32_values() {
    assert_eq!(parse_i32("50"), Some(50));
    assert_eq!(parse_i32("-17"), Some(-17));
    assert_eq!(parse_i32("-2147483648"), Some(i32::MIN));
    assert_eq!(parse_i32("2147483648"), None);
    assert_eq!(parse_i32("ten"), None);
    assert_eq!(parse_i32(""), None);
}

#[test]
fn parse_u64_values() {
    assert_eq!(parse_u64("1"), Some(1));
    assert_eq!(parse_u64("+250"), Some(250));
    assert_eq!(parse_u64("-1"), None);
    assert_eq!(parse_u64("18446744073709551615"), Some(u64::MAX));
    assert_eq!(parse_u64("18446744073709551616"), None);
}

#[test]
fn decimal_text_values() {
    assert_eq!(decimal_text(0), "0");
    assert_eq!(decimal_text(7), "7");
    assert_eq!(decimal_text(10), "10");
    assert_eq!(decimal_text(4096), "4096");
    assert_eq!(decimal_text(u64::MAX), "18446744073709551615");
}

#[test]
fn push_decimal_appends() {
    let mut s = String::from("id=");
    push_decimal(&mut s, 305);
    assert_eq!(s, "id=305");
}

#[test]
fn decimal_round_trip() {
    for n in [0u64, 1, 9, 10, 99, 100, 12345, 4294967295, u64::MAX] {
        assert_eq!(parse_u64(&decimal_text(n)), Some(n));
        assert_eq!(decimal_text(n), n.to_string());
    }
}
