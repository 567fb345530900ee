use dps_config::decimal::{parse_unsigned, push_decimal};

#[test]
fn parse_unsigned_values() {
    assert_eq!(parse_unsigned("0", 10), Some(0));
    assert_eq!(parse_unsigned("10", 10), Some(10));
    assert_eq!(parse_unsigned("11", 10), None);
    assert_eq!(parse_unsigned("+42", 100), Some(42));
    assert_eq!(parse_unsigned("00042", 100), Some(42));
    assert_eq!(parse_unsigned("", 100), None);
    assert_eq!(parse_unsigned("+", 100), None);
    assert_eq!(parse_unsigned("-0", 100), None);
    assert_eq!(parse_unsigned("4a", 100), None);
    assert_eq!(parse_unsigned("999999999999999999999", u64::MAX), None);
    assert_eq!(parse_unsigned("18446744073709551615", u64::MAX), Some(u64::MAX));
}

#[test]
fn push_decimal_values() {
    let mut s = String::from("port:");
    push_decimal(&mut s, 0);
    assert_eq!(s, "port:0");
    let mut t = String::new();
    push_decimal(&mut t, 1209600);
    assert_eq!(t, "1209600");
    let mut u = String::new();
    push_decimal(&mut u, u64::MAX);
    assert_eq!(u, "18446744073709551615");
}
