use coin_core::decimal::{i32_to_decimal, parse_u64, u64_to_decimal, IntErrorKind};

fn std_parse(s: &str) -> Result<u64, IntErrorKind> {
    s.parse::<u64>().map_err(|e| match e.kind() {
        std::num::IntErrorKind::Empty => IntErrorKind::Empty,
        std::num::IntErrorKind::InvalidDigit => IntErrorKind::InvalidDigit,
        std::num::IntErrorKind::PosOverflow => IntErrorKind::PosOverflow,
        other => panic!("unexpected error kind {:?}", other),
    })
}

#[test]
fn parse_agrees_with_std() {
    for s in [
        "", "+", "-", "0", "7", "+42", "-5", "00012", "3600", "18446744073709551615",
        "18446744073709551616", "99999999999999999999x", "1844674407370955162x", "12a", " 1",
        "1 ", "\u{663}", "++1", "+-1",
    ] {
        assert_eq!(parse_u64(s), std_parse(s), "input {:?}", s);
    }
}

#[test]
fn parse_errors() {
    assert_eq!(parse_u64(""), Err(IntErrorKind::Empty));
    assert_eq!(parse_u64("+"), Err(IntErrorKind::InvalidDigit));
    assert_eq!(parse_u64("12a"), Err(IntErrorKind::InvalidDigit));
    assert_eq!(parse_u64("18446744073709551616"), Err(IntErrorKind::PosOverflow));
    assert_eq!(parse_u64("99999999999999999999x"), Err(IntErrorKind::PosOverflow));
}

#[test]
fn parse_values() {
    assert_eq!(parse_u64("3599"), Ok(3599));
    assert_eq!(parse_u64("+3599"), Ok(3599));
    assert_eq!(parse_u64("18446744073709551615"), Ok(u64::MAX));
}

#[test]
fn error_messages_agree_with_std() {
    for s in ["", "x", "99999999999999999999"] {
        let ours = parse_u64(s).unwrap_err();
        let theirs = s.parse::<u64>().unwrap_err().to_string();
        assert_eq!(ours.message(), theirs);
    }
}

#[test]
fn decimal_notation_agrees_with_std() {
    for n in [0u64, 7, 10, 99, 100, 1_234_567_890, u64::MAX] {
        assert_eq!(u64_to_decimal(n), n.to_string());
    }
    for n in [0i32, -1, 5, -5, 2_147_483_647, i32::MIN] {
        assert_eq!(i32_to_decimal(n), n.to_string());
    }
}

#[test]
fn decimal_roundtrip() {
    for n in [0u64, 1, 9, 10, 3_600, 1_700_000_000, u64::MAX] {
        assert_eq!(parse_u64(&u64_to_decimal(n)), Ok(n));
    }
}
