use db_downgrade::marker::{current_version, parse_version, version_text};
use db_downgrade::{Error, DOWNGRADE_VERSION};

#[test]
fn parses_plain_decimal() {
    assert_eq!(parse_version(b"14"), Some(14));
    assert_eq!(parse_version(b"13"), Some(13));
    assert_eq!(parse_version(b"0"), Some(0));
    assert_eq!(parse_version(b"0013"), Some(13));
}

#[test]
fn parses_leading_plus_sign() {
    assert_eq!(parse_version(b"+14"), Some(14));
    assert_eq!(parse_version(b"+"), None);
    assert_eq!(parse_version(b"++1"), None);
}

#[test]
fn rejects_non_decimal_text() {
    assert_eq!(parse_version(b""), None);
    assert_eq!(parse_version(b"abc"), None);
    assert_eq!(parse_version(b"-1"), None);
    assert_eq!(parse_version(b"1a"), None);
    assert_eq!(parse_version(b"0x0e"), None);
}

#[test]
fn rejects_surrounding_whitespace() {
    assert_eq!(parse_version(b"14\n"), None);
    assert_eq!(parse_version(b" 14"), None);
    assert_eq!(parse_version(b"14 "), None);
}

#[test]
fn parse_bounds_of_u32() {
    assert_eq!(parse_version(b"4294967295"), Some(u32::MAX));
    assert_eq!(parse_version(b"4294967296"), None);
    assert_eq!(parse_version(b"99999999999999999999"), None);
}

#[test]
fn version_text_is_bare_decimal() {
    assert_eq!(version_text(DOWNGRADE_VERSION), b"13".to_vec());
    assert_eq!(version_text(0), b"0".to_vec());
    assert_eq!(version_text(7), b"7".to_vec());
    assert_eq!(version_text(100), b"100".to_vec());
    assert_eq!(version_text(u32::MAX), b"4294967295".to_vec());
}

#[test]
fn version_text_reads_back() {
    for v in [0u32, 9, 10, 13, 14, 99, 1000, 65536, u32::MAX] {
        assert_eq!(parse_version(&version_text(v)), Some(v));
    }
}

#[test]
fn current_version_of_missing_marker_is_unknown() {
    assert!(matches!(current_version(None), Err(Error::UnknownDatabaseVersion)));
}

#[test]
fn current_version_of_unparsable_marker_is_unknown() {
    assert!(matches!(current_version(Some(b"x")), Err(Error::UnknownDatabaseVersion)));
    assert!(matches!(current_version(Some(b"")), Err(Error::UnknownDatabaseVersion)));
}

#[test]
fn current_version_reads_value() {
    assert!(matches!(current_version(Some(b"13")), Ok(13)));
    assert!(matches!(current_version(Some(b"15")), Ok(15)));
}

#[test]
fn unknown_version_message() {
    assert_eq!(
        Error::UnknownDatabaseVersion.message(),
        "Current database version cannot be read"
    );
}

#[test]
fn io_error_message_embeds_description() {
    let err = Error::from(std::io::Error::new(std::io::ErrorKind::Other, "disk gone"));
    assert_eq!(err.message(), "Unexpected io error on DB migration: disk gone.");
}

#[test]
fn io_error_converts_unchanged() {
    let err: Error = std::io::Error::new(std::io::ErrorKind::PermissionDenied, "no").into();
    match err {
        Error::Io(e) => assert_eq!(e.kind(), std::io::ErrorKind::PermissionDenied),
        _ => panic!("expected an I/O error"),
    }
}
