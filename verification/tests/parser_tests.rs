use pulsar_cat::error::PulsarCatError;
use pulsar_cat::parser::parse_line;

#[test]
fn no_delimiter_keeps_whole_line() {
    let r = parse_line("hello", None, false).unwrap();
    assert_eq!(r.key, None);
    assert_eq!(r.payload, b"hello".to_vec());
}

#[test]
fn no_delimiter_ignores_enforce_flag() {
    let r = parse_line("hello world", None, true).unwrap();
    assert_eq!(r.key, None);
    assert_eq!(r.payload, b"hello world".to_vec());
}

#[test]
fn no_delimiter_keeps_unicode_line_bytes() {
    let r = parse_line("caf\u{e9} \u{2764}", None, false).unwrap();
    assert_eq!(r.key, None);
    assert_eq!(r.payload, "caf\u{e9} \u{2764}".as_bytes().to_vec());
}

#[test]
fn splits_at_first_occurrence_only() {
    let r = parse_line("a=b=c", Some("="), false).unwrap();
    assert_eq!(r.key, Some("a".to_string()));
    assert_eq!(r.payload, b"b=c".to_vec());
}

#[test]
fn splits_with_multi_char_delimiter() {
    let r = parse_line("key::value::rest", Some("::"), true).unwrap();
    assert_eq!(r.key, Some("key".to_string()));
    assert_eq!(r.payload, b"value::rest".to_vec());
}

#[test]
fn delimiter_is_consumed() {
    let r = parse_line("k1=v1", Some("="), true).unwrap();
    assert_eq!(r.key, Some("k1".to_string()));
    assert_eq!(r.payload, b"v1".to_vec());
}

#[test]
fn empty_key_and_empty_payload() {
    let r = parse_line("=v", Some("="), false).unwrap();
    assert_eq!(r.key, Some(String::new()));
    assert_eq!(r.payload, b"v".to_vec());

    let r = parse_line("k=", Some("="), false).unwrap();
    assert_eq!(r.key, Some("k".to_string()));
    assert_eq!(r.payload, Vec::<u8>::new());
}

#[test]
fn empty_delimiter_matches_at_start() {
    let r = parse_line("abc", Some(""), false).unwrap();
    assert_eq!(r.key, Some(String::new()));
    assert_eq!(r.payload, b"abc".to_vec());
}

#[test]
fn missing_delimiter_without_enforcement_keeps_line() {
    let r = parse_line("novalue", Some("="), false).unwrap();
    assert_eq!(r.key, None);
    assert_eq!(r.payload, b"novalue".to_vec());
}

#[test]
fn missing_delimiter_with_enforcement_fails() {
    let e = parse_line("novalue", Some("="), true).unwrap_err();
    assert_eq!(
        e,
        PulsarCatError::Application(
            "Key is enforced but delimiter '=' not found in the message".to_string()
        )
    );
    assert!(e.is_application());
}

#[test]
fn unicode_delimiter_splits_at_char_boundary() {
    let r = parse_line("left\u{2764}right", Some("\u{2764}"), true).unwrap();
    assert_eq!(r.key, Some("left".to_string()));
    assert_eq!(r.payload, b"right".to_vec());
}
