use auth_core::database::id::Id;
use auth_core::error::ApplicationError;

#[test]
fn id_new_keeps_both_parts() {
    let id = Id::new(("account", "abc"));
    assert_eq!(id.table, "account");
    assert_eq!(id.id, "abc");
    assert_eq!(id.to_string(), "account:abc");
    assert_eq!(id.serialize(), "account:abc");
}

#[test]
fn id_new_does_not_check_the_table() {
    let id = Id::new(("account", "session:abc"));
    assert_eq!(id.table, "account");
    assert_eq!(id.id, "session:abc");
}

#[test]
fn try_from_reads_a_key_of_the_expected_table() {
    let id = Id::try_from(("session", "session:abc")).unwrap();
    assert_eq!(id, Id::new(("session", "abc")));
}

#[test]
fn try_from_refuses_another_table() {
    let r = Id::try_from(("account", "schematic:abc"));
    match r {
        Err(ApplicationError::BadRequest(message)) => assert_eq!(message, "invalid id"),
        other => panic!("unexpected: {:?}", other),
    }
}

#[test]
fn try_from_refuses_text_without_colon() {
    let r = Id::try_from(("session", "session"));
    match r {
        Err(ApplicationError::BadRequest(message)) => assert_eq!(message, "invalid id"),
        other => panic!("unexpected: {:?}", other),
    }
    assert!(Id::try_from(("session", "")).is_err());
}

#[test]
fn try_from_stops_at_the_second_colon() {
    let id = Id::try_from(("session", "session:abc:def")).unwrap();
    assert_eq!(id.id, "abc");
    let empty = Id::try_from(("session", "session:")).unwrap();
    assert_eq!(empty.id, "");
    let empty_table = Id::try_from(("", ":x")).unwrap();
    assert_eq!(empty_table, Id::new(("", "x")));
}

#[test]
fn try_from_counts_characters_not_bytes() {
    let id = Id::try_from(("t\u{e4}ble", "t\u{e4}ble:k\u{20ac}y:rest")).unwrap();
    assert_eq!(id.table, "t\u{e4}ble");
    assert_eq!(id.id, "k\u{20ac}y");
}

#[test]
fn deserialize_reads_any_table() {
    let id = Id::deserialize("news:42").unwrap();
    assert_eq!(id, Id::new(("news", "42")));
    let cut = Id::deserialize("a:b:c").unwrap();
    assert_eq!(cut, Id::new(("a", "b")));
    assert_eq!(Id::deserialize("nocolon").unwrap_err(), "Invalid id format");
}

#[test]
fn written_form_reads_back() {
    let id = Id::new(("permission", "news.create"));
    let text = id.to_string();
    assert_eq!(Id::try_from(("permission", text.as_str())).unwrap(), id);
    assert_eq!(Id::deserialize(text.as_str()).unwrap(), id);
}

#[test]
fn ids_compare_by_both_parts() {
    assert_eq!(Id::new(("a", "b")), Id::new(("a", "b")).clone());
    assert_ne!(Id::new(("a", "b")), Id::new(("a", "c")));
    assert_ne!(Id::new(("a", "b")), Id::new(("x", "b")));
}
