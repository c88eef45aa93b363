use iobench::decimal::IntErrorKind;
use iobench::rss::{rss_bytes, rss_kib_from_ps_output, RssError};

#[test]
fn reads_padded_ps_output() {
    assert_eq!(rss_kib_from_ps_output(b"  12345\n"), Ok(12345));
    assert_eq!(rss_bytes(12345), 12345 * 1024);
}

#[test]
fn rejects_empty_and_garbage() {
    assert_eq!(rss_kib_from_ps_output(b"\n"), Err(RssError::NotANumber(IntErrorKind::Empty)));
    assert_eq!(rss_kib_from_ps_output(b" 12 kB\n"), Err(RssError::NotANumber(IntErrorKind::InvalidDigit)));
}

#[test]
fn rejects_invalid_utf8() {
    match rss_kib_from_ps_output(&[0x31, 0xff, 0x32]) {
        Err(RssError::NotUtf8(message)) => assert!(!message.is_empty()),
        other => panic!("unexpected {:?}", other),
    }
}

#[test]
fn decodes_multibyte_whitespace() {
    // U+3000 IDEOGRAPHIC SPACE around the number is trimmed.
    assert_eq!(rss_kib_from_ps_output("\u{3000}77\u{3000}".as_bytes()), Ok(77));
}

#[test]
fn invalid_utf8_reports_std_message() {
    assert_eq!(
        rss_kib_from_ps_output(b"\xff\n"),
        Err(RssError::NotUtf8(String::from("invalid utf-8 sequence of 1 bytes from index 0")))
    );
}
