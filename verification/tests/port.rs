use sayhello::port::parse_port;

#[test]
fn parses_ordinary_port() {
    assert_eq!(parse_port("8080"), Some(8080));
    assert_eq!(parse_port("50051"), Some(50051));
}

#[test]
fn parses_bounds() {
    assert_eq!(parse_port("0"), Some(0));
    assert_eq!(parse_port("65535"), Some(65535));
}

#[test]
fn parses_leading_zeros() {
    assert_eq!(parse_port("007"), Some(7));
    assert_eq!(parse_port("000000000000065535"), Some(65535));
}

#[test]
fn rejects_empty() {
    assert_eq!(parse_port(""), None);
}

#[test]
fn rejects_too_large() {
    assert_eq!(parse_port("65536"), None);
    assert_eq!(parse_port("99999999999999999999"), None);
}

#[test]
fn rejects_non_digits() {
    assert_eq!(parse_port("80a"), None);
    assert_eq!(parse_port("a80"), None);
    assert_eq!(parse_port("-1"), None);
    assert_eq!(parse_port("+80"), None);
    assert_eq!(parse_port(" 80"), None);
    assert_eq!(parse_port("8 0"), None);
    assert_eq!(parse_port("\u{0660}"), None);
}
