use duo_hotp_export::error::ActivationError;
use duo_hotp_export::payload::{first_symbol, parse_payload};

fn rejected(text: &str) -> bool {
    matches!(parse_payload(text), Err(ActivationError::MalformedPayload))
}

#[test]
fn splits_code_from_authority() {
    let payload = parse_payload("XYZ-dGVzdC5leGFtcGxlLmNvbQ==").ok().unwrap();
    assert_eq!(payload.code(), "XYZ");
    assert_eq!(payload.authority(), "dGVzdC5leGFtcGxlLmNvbQ==");
}

#[test]
fn splits_shortest_payload() {
    let payload = parse_payload("a-b").ok().unwrap();
    assert_eq!(payload.code(), "a");
    assert_eq!(payload.authority(), "b");
}

#[test]
fn splits_by_characters_not_bytes() {
    let payload = parse_payload("c\u{f6}d\u{e9}-\u{e4}\u{20ac}\u{1f600}").ok().unwrap();
    assert_eq!(payload.code(), "c\u{f6}d\u{e9}");
    assert_eq!(payload.authority(), "\u{e4}\u{20ac}\u{1f600}");
}

#[test]
fn rejects_text_without_delimiter() {
    assert!(rejected("XYZdGVzdA=="));
    assert!(rejected("X"));
}

#[test]
fn rejects_empty_text() {
    assert!(rejected(""));
}

#[test]
fn rejects_two_or_more_delimiters() {
    assert!(rejected("a-b-c"));
    assert!(rejected("XYZ-dGVz-dA=="));
    assert!(rejected("a--b"));
    assert!(rejected("--"));
    assert!(rejected("a-b-c-d-e"));
}

#[test]
fn rejects_empty_code() {
    assert!(rejected("-dGVzdA=="));
}

#[test]
fn rejects_empty_authority() {
    assert!(rejected("XYZ-"));
}

#[test]
fn rejects_lone_delimiter() {
    assert!(rejected("-"));
}

#[test]
fn joined_fields_parse_back() {
    let codes = ["XYZ", "0", "abc123DEF", "c\u{f6}de"];
    let authorities = ["dGVzdA==", "YQ==", "x", "YXBpLmV4YW1wbGUuY29t"];
    for code in codes {
        for authority in authorities {
            let text = format!("{}-{}", code, authority);
            let payload = parse_payload(&text).ok().unwrap();
            assert_eq!(payload.code(), code);
            assert_eq!(payload.authority(), authority);
        }
    }
}

#[test]
fn first_symbol_of_one() {
    let symbols = vec![Some(String::from("XYZ-YQ=="))];
    assert_eq!(first_symbol(&symbols), Ok("XYZ-YQ=="));
}

#[test]
fn first_symbol_ignores_the_rest() {
    let symbols = vec![Some(String::from("first")), Some(String::from("second")), None];
    assert_eq!(first_symbol(&symbols), Ok("first"));
}

#[test]
fn first_symbol_of_empty_scan() {
    let symbols: Vec<Option<String>> = Vec::new();
    assert_eq!(first_symbol(&symbols), Err(ActivationError::MalformedPayload));
}

#[test]
fn first_symbol_unreadable() {
    let symbols = vec![None, Some(String::from("second"))];
    assert_eq!(first_symbol(&symbols), Err(ActivationError::MalformedPayload));
}
