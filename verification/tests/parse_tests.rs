use chat_core::{event_frame, parse_inbound, AuthError, Event, FieldValue, Frame, Inbound};

fn text(s: &str) -> FieldValue {
    FieldValue::Text(s.to_string())
}

fn frame(fields: Vec<(&str, FieldValue)>) -> Frame {
    Frame { fields: fields.into_iter().map(|(k, v)| (k.to_string(), v)).collect() }
}

#[test]
fn add_user_frame_parses() {
    let f = frame(vec![("type", text("add_user")), ("username", text("alice"))]);
    assert_eq!(
        parse_inbound(&f),
        Some(Inbound::AddUser { username: "alice".to_string() })
    );
}

#[test]
fn private_message_frame_parses_with_all_fields() {
    let f = frame(vec![
        ("type", text("private_message")),
        ("to", text("bob")),
        ("from", text("alice")),
        ("message", text("hi")),
        ("timestamp", text("t1")),
    ]);
    assert_eq!(
        parse_inbound(&f),
        Some(Inbound::PrivateMessage {
            to: "bob".to_string(),
            from: Some("alice".to_string()),
            message: "hi".to_string(),
            timestamp: "t1".to_string(),
        })
    );
}

#[test]
fn missing_sender_and_timestamp_take_defaults() {
    let f = frame(vec![
        ("type", text("private_message")),
        ("to", text("bob")),
        ("message", text("hi")),
    ]);
    assert_eq!(
        parse_inbound(&f),
        Some(Inbound::PrivateMessage {
            to: "bob".to_string(),
            from: None,
            message: "hi".to_string(),
            timestamp: "".to_string(),
        })
    );
}

#[test]
fn missing_required_fields_drop_the_frame() {
    let f = frame(vec![("type", text("private_message")), ("message", text("hi"))]);
    assert_eq!(parse_inbound(&f), None);
    let g = frame(vec![("type", text("add_user"))]);
    assert_eq!(parse_inbound(&g), None);
    let h = frame(vec![("type", text("login")), ("username", text("alice"))]);
    assert_eq!(parse_inbound(&h), None);
}

#[test]
fn public_message_frame_parses() {
    let f = frame(vec![
        ("type", text("public_message")),
        ("from", text("alice")),
        ("message", text("hi all")),
        ("timestamp", text("t2")),
    ]);
    assert_eq!(
        parse_inbound(&f),
        Some(Inbound::PublicMessage {
            from: Some("alice".to_string()),
            message: "hi all".to_string(),
            timestamp: "t2".to_string(),
        })
    );
}

#[test]
fn logout_frame_carries_any_history_shape_verbatim() {
    let f = frame(vec![
        ("type", text("logout")),
        ("user", text("alice")),
        ("history", FieldValue::Json("[\"m1\"]".to_string())),
    ]);
    assert_eq!(
        parse_inbound(&f),
        Some(Inbound::Logout {
            user: "alice".to_string(),
            history: Some(FieldValue::Json("[\"m1\"]".to_string())),
        })
    );
    let g = frame(vec![("type", text("logout")), ("user", text("alice"))]);
    assert_eq!(
        parse_inbound(&g),
        Some(Inbound::Logout { user: "alice".to_string(), history: None })
    );
}

#[test]
fn login_and_register_frames_parse() {
    let f = frame(vec![
        ("type", text("login")),
        ("username", text("alice")),
        ("password", text("pw1")),
    ]);
    assert_eq!(
        parse_inbound(&f),
        Some(Inbound::Login {
            username: "alice".to_string(),
            password: "pw1".to_string(),
        })
    );
    let g = frame(vec![
        ("type", text("register")),
        ("username", text("bob")),
        ("password", text("pw2")),
    ]);
    assert_eq!(
        parse_inbound(&g),
        Some(Inbound::Register {
            username: "bob".to_string(),
            password: "pw2".to_string(),
        })
    );
}

#[test]
fn unknown_or_malformed_type_drops_the_frame() {
    let f = frame(vec![("type", text("dance")), ("username", text("alice"))]);
    assert_eq!(parse_inbound(&f), None);
    let g = frame(vec![("type", FieldValue::Flag(true)), ("username", text("alice"))]);
    assert_eq!(parse_inbound(&g), None);
    let h = frame(vec![("username", text("alice"))]);
    assert_eq!(parse_inbound(&h), None);
    let empty = frame(vec![]);
    assert_eq!(parse_inbound(&empty), None);
}

#[test]
fn a_non_string_required_field_does_not_count() {
    let f = frame(vec![
        ("type", text("add_user")),
        ("username", FieldValue::Num(7)),
    ]);
    assert_eq!(parse_inbound(&f), None);
}

#[test]
fn the_first_of_two_same_named_fields_wins() {
    let f = frame(vec![
        ("type", text("add_user")),
        ("username", text("alice")),
        ("username", text("bob")),
    ]);
    assert_eq!(
        parse_inbound(&f),
        Some(Inbound::AddUser { username: "alice".to_string() })
    );
}

#[test]
fn user_remove_event_lays_out_as_a_frame() {
    let e = Event::UserRemove { user: "alice".to_string() };
    assert_eq!(
        event_frame(&e),
        frame(vec![("type", text("user_remove")), ("user", text("alice"))])
    );
}

#[test]
fn roster_event_lays_out_with_the_user_list() {
    let e = Event::AddUser {
        users: vec![("Group".to_string(), 1u64), ("alice".to_string(), 2u64)],
    };
    assert_eq!(
        event_frame(&e),
        frame(vec![
            ("type", text("add_user")),
            (
                "users",
                FieldValue::Users(vec![
                    ("Group".to_string(), 1u64),
                    ("alice".to_string(), 2u64),
                ]),
            ),
        ])
    );
}

#[test]
fn message_events_serialize_an_absent_sender_as_null() {
    let e = Event::PublicMessage {
        from: None,
        message: "hi".to_string(),
        timestamp: "t".to_string(),
    };
    assert_eq!(
        event_frame(&e),
        frame(vec![
            ("type", text("public_message")),
            ("from", FieldValue::Json("null".to_string())),
            ("message", text("hi")),
            ("timestamp", text("t")),
        ])
    );
    let p = Event::PrivateMessage {
        from: Some("alice".to_string()),
        message: "psst".to_string(),
        timestamp: "t".to_string(),
    };
    assert_eq!(
        event_frame(&p),
        frame(vec![
            ("type", text("private_message")),
            ("from", text("alice")),
            ("message", text("psst")),
            ("timestamp", text("t")),
        ])
    );
}

#[test]
fn login_responses_lay_out_success_and_failure_differently() {
    let ok = Event::LoginResponse {
        success: true,
        username: Some("alice".to_string()),
        image_id: Some(2),
        error: None,
    };
    assert_eq!(
        event_frame(&ok),
        frame(vec![
            ("type", text("login_response")),
            ("success", FieldValue::Flag(true)),
            ("username", text("alice")),
            ("image_id", FieldValue::Num(2)),
        ])
    );
    let bad = Event::LoginResponse {
        success: false,
        username: None,
        image_id: None,
        error: Some(AuthError::WrongCredentials),
    };
    assert_eq!(
        event_frame(&bad),
        frame(vec![
            ("type", text("login_response")),
            ("success", FieldValue::Flag(false)),
            ("error", text("invalid username or password.")),
        ])
    );
}

#[test]
fn register_responses_lay_out_both_outcomes() {
    let ok = Event::RegisterResponse { success: true, error: None };
    assert_eq!(
        event_frame(&ok),
        frame(vec![
            ("type", text("register_response")),
            ("success", FieldValue::Flag(true)),
        ])
    );
    let bad = Event::RegisterResponse {
        success: false,
        error: Some(AuthError::DuplicateUsername),
    };
    assert_eq!(
        event_frame(&bad),
        frame(vec![
            ("type", text("register_response")),
            ("success", FieldValue::Flag(false)),
            ("error", text("username is already taken.")),
        ])
    );
}

#[test]
fn history_event_replays_the_record_verbatim() {
    let e = Event::History { history: FieldValue::Json("[\"m1\",2]".to_string()) };
    assert_eq!(
        event_frame(&e),
        frame(vec![
            ("type", text("history")),
            ("history", FieldValue::Json("[\"m1\",2]".to_string())),
        ])
    );
}
