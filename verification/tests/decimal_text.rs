use iobench::decimal::{format_usize, parse_usize, IntErrorKind};
use iobench::text::{same_text, trim};

#[test]
fn parses_plain_and_signed_digits() {
    assert_eq!(parse_usize("0"), Ok(0));
    assert_eq!(parse_usize("1024"), Ok(1024));
    assert_eq!(parse_usize("+7"), Ok(7));
    assert_eq!(parse_usize("007"), Ok(7));
    assert_eq!(parse_usize("18446744073709551615"), Ok(usize::MAX));
}

#[test]
fn parse_errors_match_std() {
    for text in ["", "+", "-", "-5", "12a", " 1", "1 ", "++1", "1_000", "99999999999999999999x", "18446744073709551616", "１"] {
        let ours = parse_usize(text);
        let theirs = text.parse::<usize>();
        match (ours, theirs) {
            (Ok(a), Ok(b)) => assert_eq!(a, b, "{:?}", text),
            (Err(kind), Err(e)) => {
                let expected = match e.kind() {
                    std::num::IntErrorKind::Empty => IntErrorKind::Empty,
                    std::num::IntErrorKind::InvalidDigit => IntErrorKind::InvalidDigit,
                    std::num::IntErrorKind::PosOverflow => IntErrorKind::PosOverflow,
                    other => panic!("unexpected kind {:?}", other),
                };
                assert_eq!(kind, expected, "{:?}", text);
            }
            (a, b) => panic!("{:?}: {:?} vs {:?}", text, a, b),
        }
    }
    assert_eq!(parse_usize(""), Err(IntErrorKind::Empty));
    assert_eq!(parse_usize("+"), Err(IntErrorKind::InvalidDigit));
    assert_eq!(parse_usize("12a"), Err(IntErrorKind::InvalidDigit));
    assert_eq!(parse_usize("18446744073709551616"), Err(IntErrorKind::PosOverflow));
    assert_eq!(parse_usize("99999999999999999999x"), Err(IntErrorKind::PosOverflow));
}

#[test]
fn formats_like_display() {
    for n in [0usize, 7, 10, 99, 100, 4096, 123456789, usize::MAX] {
        assert_eq!(format_usize(n), n.to_string());
        assert_eq!(parse_usize(&format_usize(n)), Ok(n));
    }
}

#[test]
fn trims_like_std() {
    for text in ["", "   ", " 42\n", "\t\u{a0}x y\u{3000}", "abc", "\u{85}z\u{2028}"] {
        assert_eq!(trim(text), text.trim());
    }
    assert_eq!(trim("  1234\n"), "1234");
}

#[test]
fn compares_texts() {
    assert!(same_text("read", "read"));
    assert!(!same_text("read", "pread"));
    assert!(!same_text("read", "reae"));
    assert!(same_text("", ""));
}

#[test]
fn error_messages_match_std() {
    assert_eq!(IntErrorKind::Empty.message(), "".parse::<usize>().unwrap_err().to_string());
    assert_eq!(IntErrorKind::InvalidDigit.message(), "x".parse::<usize>().unwrap_err().to_string());
    assert_eq!(
        IntErrorKind::PosOverflow.message(),
        "99999999999999999999".parse::<usize>().unwrap_err().to_string()
    );
}
