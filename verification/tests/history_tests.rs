use chat_core::{FieldValue, HistoryStore};

#[test]
fn write_then_read_returns_the_payload() {
    let mut h = HistoryStore::new();
    let payload = FieldValue::Json("{\"msgs\":[\"a\",\"b\"]}".to_string());
    h.write("alice".to_string(), payload.duplicate());
    assert_eq!(h.read(&"alice".to_string()), Some(payload));
}

#[test]
fn read_of_an_unknown_user_finds_nothing() {
    let h = HistoryStore::new();
    assert_eq!(h.read(&"alice".to_string()), None);
    let mut h2 = HistoryStore::new();
    h2.write("alice".to_string(), FieldValue::Text("x".to_string()));
    assert_eq!(h2.read(&"bob".to_string()), None);
}

#[test]
fn write_overwrites_the_whole_record() {
    let mut h = HistoryStore::new();
    h.write("alice".to_string(), FieldValue::Json("[1]".to_string()));
    h.write("alice".to_string(), FieldValue::Json("[1,2]".to_string()));
    assert_eq!(
        h.read(&"alice".to_string()),
        Some(FieldValue::Json("[1,2]".to_string()))
    );
}

#[test]
fn records_of_other_users_are_untouched() {
    let mut h = HistoryStore::new();
    h.write("alice".to_string(), FieldValue::Text("a".to_string()));
    h.write("bob".to_string(), FieldValue::Text("b".to_string()));
    h.write("alice".to_string(), FieldValue::Text("a2".to_string()));
    assert_eq!(
        h.read(&"bob".to_string()),
        Some(FieldValue::Text("b".to_string()))
    );
    assert_eq!(
        h.read(&"alice".to_string()),
        Some(FieldValue::Text("a2".to_string()))
    );
}

#[test]
fn every_payload_shape_round_trips() {
    let mut h = HistoryStore::new();
    let shapes = vec![
        FieldValue::Text("hello".to_string()),
        FieldValue::Flag(true),
        FieldValue::Num(42),
        FieldValue::Json("null".to_string()),
        FieldValue::Users(vec![("alice".to_string(), 2u64)]),
    ];
    for (i, p) in shapes.iter().enumerate() {
        let user = format!("user{}", i);
        h.write(user.clone(), p.duplicate());
        assert_eq!(h.read(&user), Some(p.duplicate()));
    }
}
