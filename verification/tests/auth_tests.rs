use chat_core::{Action, AuthError, Event, Inbound, ServerState};

fn deliver(chan: u64, event: Event) -> Action {
    Action::Deliver { chan, event }
}

fn register(s: &mut ServerState, chan: u64, name: &str, pw: &str) -> Vec<Action> {
    s.route_auth(
        chan,
        Inbound::Register { username: name.to_string(), password: pw.to_string() },
    )
}

#[test]
fn register_succeeds_then_duplicate_fails_whatever_the_password() {
    let mut s = ServerState::new(0);
    let r1 = register(&mut s, 7, "alice", "pw1");
    assert_eq!(r1, vec![deliver(7, Event::RegisterResponse { success: true, error: None })]);
    let r2 = register(&mut s, 7, "alice", "pw2");
    assert_eq!(
        r2,
        vec![deliver(
            7,
            Event::RegisterResponse {
                success: false,
                error: Some(AuthError::DuplicateUsername),
            },
        )]
    );
    let r3 = register(&mut s, 8, "alice", "pw1");
    assert_eq!(
        r3,
        vec![deliver(
            8,
            Event::RegisterResponse {
                success: false,
                error: Some(AuthError::DuplicateUsername),
            },
        )]
    );
}

#[test]
fn identifiers_are_assigned_in_order_from_two() {
    let mut s = ServerState::new(0);
    register(&mut s, 1, "alice", "a");
    register(&mut s, 1, "bob", "b");
    let la = s.route_auth(
        2,
        Inbound::Login { username: "alice".to_string(), password: "a".to_string() },
    );
    assert_eq!(
        la,
        vec![deliver(
            2,
            Event::LoginResponse {
                success: true,
                username: Some("alice".to_string()),
                image_id: Some(2),
                error: None,
            },
        )]
    );
    let lb = s.route_auth(
        3,
        Inbound::Login { username: "bob".to_string(), password: "b".to_string() },
    );
    assert_eq!(
        lb,
        vec![deliver(
            3,
            Event::LoginResponse {
                success: true,
                username: Some("bob".to_string()),
                image_id: Some(3),
                error: None,
            },
        )]
    );
}

#[test]
fn verify_succeeds_iff_registered_with_password_and_absent() {
    let mut s = ServerState::new(0);
    register(&mut s, 1, "alice", "pw1");
    assert_eq!(
        s.verify(&"ghost".to_string(), &"x".to_string()),
        Err(AuthError::UnknownUser)
    );
    assert_eq!(
        s.verify(&"alice".to_string(), &"bad".to_string()),
        Err(AuthError::WrongCredentials)
    );
    assert_eq!(s.verify(&"alice".to_string(), &"pw1".to_string()), Ok(2));
    s.route_chat(9, Inbound::AddUser { username: "alice".to_string() });
    assert_eq!(
        s.verify(&"alice".to_string(), &"pw1".to_string()),
        Err(AuthError::AlreadyLoggedIn)
    );
    // the bootstrap identity is present from startup
    assert_eq!(
        s.verify(&"Group".to_string(), &"default_password".to_string()),
        Err(AuthError::AlreadyLoggedIn)
    );
}

#[test]
fn login_failure_reports_the_reason_to_the_asking_channel_only() {
    let mut s = ServerState::new(0);
    register(&mut s, 1, "alice", "pw1");
    let unknown = s.route_auth(
        4,
        Inbound::Login { username: "nobody".to_string(), password: "pw1".to_string() },
    );
    assert_eq!(
        unknown,
        vec![deliver(
            4,
            Event::LoginResponse {
                success: false,
                username: None,
                image_id: None,
                error: Some(AuthError::UnknownUser),
            },
        )]
    );
    let wrong = s.route_auth(
        5,
        Inbound::Login { username: "alice".to_string(), password: "nope".to_string() },
    );
    assert_eq!(
        wrong,
        vec![deliver(
            5,
            Event::LoginResponse {
                success: false,
                username: None,
                image_id: None,
                error: Some(AuthError::WrongCredentials),
            },
        )]
    );
}

#[test]
fn chat_messages_are_dropped_by_the_auth_endpoint() {
    let mut s = ServerState::new(0);
    let r = s.route_auth(
        3,
        Inbound::PublicMessage {
            from: Some("x".to_string()),
            message: "hi".to_string(),
            timestamp: "".to_string(),
        },
    );
    assert_eq!(r, Vec::new());
    let r2 = s.route_auth(3, Inbound::AddUser { username: "Group".to_string() });
    assert_eq!(r2, Vec::new());
}

#[test]
fn auth_messages_are_dropped_by_the_chat_endpoint() {
    let mut s = ServerState::new(0);
    let r = s.route_chat(
        3,
        Inbound::Login { username: "a".to_string(), password: "b".to_string() },
    );
    assert_eq!(r, Vec::new());
    let r2 = s.route_chat(
        3,
        Inbound::Register { username: "a".to_string(), password: "b".to_string() },
    );
    assert_eq!(r2, Vec::new());
    // nothing was registered by the chat endpoint
    assert_eq!(
        s.verify(&"a".to_string(), &"b".to_string()),
        Err(AuthError::UnknownUser)
    );
}

#[test]
fn error_messages_have_fixed_wire_text() {
    assert_eq!(
        AuthError::UnknownUser.message(),
        "invalid username or password.".to_string()
    );
    assert_eq!(
        AuthError::WrongCredentials.message(),
        "invalid username or password.".to_string()
    );
    assert_eq!(
        AuthError::AlreadyLoggedIn.message(),
        "user is already logged in.".to_string()
    );
    assert_eq!(
        AuthError::DuplicateUsername.message(),
        "username is already taken.".to_string()
    );
}
