use fatcat::decimal::{format_i64, format_u64, parse_i64, IntErrorKind};

fn std_kind(s: &str) -> Option<IntErrorKind> {
    match s.parse::<i64>() {
        Ok(_) => None,
        Err(e) => Some(match e.kind() {
            std::num::IntErrorKind::Empty => IntErrorKind::Empty,
            std::num::IntErrorKind::InvalidDigit => IntErrorKind::InvalidDigit,
            std::num::IntErrorKind::PosOverflow => IntErrorKind::PosOverflow,
            std::num::IntErrorKind::NegOverflow => IntErrorKind::NegOverflow,
            _ => panic!("unexpected error kind"),
        }),
    }
}

#[test]
fn parse_plain_values() {
    assert_eq!(parse_i64("42"), Ok(42));
    assert_eq!(parse_i64("-17"), Ok(-17));
    assert_eq!(parse_i64("+5"), Ok(5));
    assert_eq!(parse_i64("0"), Ok(0));
    assert_eq!(parse_i64("-0"), Ok(0));
    assert_eq!(parse_i64("007"), Ok(7));
}

#[test]
fn parse_limits() {
    assert_eq!(parse_i64("9223372036854775807"), Ok(i64::MAX));
    assert_eq!(parse_i64("-9223372036854775808"), Ok(i64::MIN));
    assert_eq!(parse_i64("9223372036854775808"), Err(IntErrorKind::PosOverflow));
    assert_eq!(parse_i64("-9223372036854775809"), Err(IntErrorKind::NegOverflow));
}

#[test]
fn parse_errors() {
    assert_eq!(parse_i64(""), Err(IntErrorKind::Empty));
    assert_eq!(parse_i64("-"), Err(IntErrorKind::InvalidDigit));
    assert_eq!(parse_i64("+"), Err(IntErrorKind::InvalidDigit));
    assert_eq!(parse_i64("12a"), Err(IntErrorKind::InvalidDigit));
    assert_eq!(parse_i64(" 1"), Err(IntErrorKind::InvalidDigit));
    assert_eq!(parse_i64("+-1"), Err(IntErrorKind::InvalidDigit));
    assert_eq!(parse_i64("١٢"), Err(IntErrorKind::InvalidDigit));
    // The first failing step decides: the overflow comes before the letter.
    assert_eq!(parse_i64("99999999999999999999x"), Err(IntErrorKind::PosOverflow));
    assert_eq!(parse_i64("1x99999999999999999999"), Err(IntErrorKind::InvalidDigit));
}

#[test]
fn parse_agrees_with_std() {
    let cases = [
        "", "+", "-", "0", "1", "-1", "+1", "12", "a", "1a", "a1", "--1", "++1", "1-", " 7", "7 ",
        "9223372036854775806", "9223372036854775807", "9223372036854775808",
        "92233720368547758070", "-9223372036854775807", "-9223372036854775808",
        "-9223372036854775809", "-92233720368547758080", "123456789012345678901234x",
        "-123456789012345678901234x", "0000000000000000000000000001", "١", "٣4",
    ];
    for c in cases.iter() {
        match parse_i64(c) {
            Ok(v) => assert_eq!(Ok(v), c.parse::<i64>(), "{}", c),
            Err(k) => {
                assert_eq!(Some(k), std_kind(c), "{}", c);
                assert_eq!(k.message(), c.parse::<i64>().unwrap_err().to_string(), "{}", c);
            }
        }
    }
}

#[test]
fn error_messages() {
    assert_eq!(IntErrorKind::Empty.message(), "cannot parse integer from empty string");
    assert_eq!(IntErrorKind::InvalidDigit.message(), "invalid digit found in string");
    assert_eq!(IntErrorKind::PosOverflow.message(), "number too large to fit in target type");
    assert_eq!(IntErrorKind::NegOverflow.message(), "number too small to fit in target type");
}

#[test]
fn format_values() {
    assert_eq!(format_i64(0), "0");
    assert_eq!(format_i64(7), "7");
    assert_eq!(format_i64(-1), "-1");
    assert_eq!(format_i64(1234567890), "1234567890");
    assert_eq!(format_i64(i64::MAX), "9223372036854775807");
    assert_eq!(format_i64(i64::MIN), "-9223372036854775808");
    assert_eq!(format_u64(0), "0");
    assert_eq!(format_u64(u64::MAX), "18446744073709551615");
    assert_eq!(format_u64(8080), "8080");
}

#[test]
fn format_then_parse_gives_the_value_back() {
    let values = [0i64, 1, -1, 9, 10, -10, 99, 100, 65535, -65536, i64::MAX, i64::MIN, i64::MAX - 1, i64::MIN + 1, 1234567890123];
    for v in values.iter() {
        let text = format_i64(*v);
        assert_eq!(text, v.to_string());
        assert_eq!(parse_i64(&text), Ok(*v));
    }
}
