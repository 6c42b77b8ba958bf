use mythologic::ids::{MythId, MythIdError};

#[test]
fn fresh_ids_are_distinct() {
    let a = MythId::new();
    let b = MythId::new();
    assert_ne!(a, b);
}

#[test]
fn id_renders_as_canonical_hyphenated_text() {
    let id = MythId::new();
    let text = id.to_string();
    assert_eq!(text.len(), 36);
    let bytes = text.as_bytes();
    assert_eq!(bytes[8], b'-');
    assert_eq!(bytes[13], b'-');
    assert_eq!(bytes[18], b'-');
    assert_eq!(bytes[23], b'-');
}

#[test]
fn id_round_trips_through_text() {
    let id = MythId::new();
    let text = id.to_string();
    let parsed = MythId::from_str(&text).unwrap();
    assert_eq!(id, parsed);
}

#[test]
fn known_id_text_parses_to_known_value() {
    let parsed = MythId::from_str("550e8400-e29b-41d4-a716-446655440000").unwrap();
    assert_eq!(parsed.to_string(), "550e8400-e29b-41d4-a716-446655440000");
}

#[test]
fn malformed_id_text_is_rejected() {
    let r = MythId::from_str("not-an-identifier");
    assert_eq!(r, Err(MythIdError::MalformedIdentifier));
    assert!(MythId::from_str("").is_err());
    assert!(MythId::from_str("550e8400-e29b-41d4-a716-44665544000g").is_err());
}
