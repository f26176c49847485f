use chat_core::{Action, Event, FieldValue, Inbound, ServerState};

fn deliver(chan: u64, event: Event) -> Action {
    Action::Deliver { chan, event }
}

fn join(s: &mut ServerState, name: &str, pw: &str, chan: u64) {
    s.route_auth(
        chan,
        Inbound::Register { username: name.to_string(), password: pw.to_string() },
    );
    let acts = s.route_chat(chan, Inbound::AddUser { username: name.to_string() });
    assert!(!acts.is_empty());
}

#[test]
fn add_user_broadcasts_the_roster_and_binds() {
    let mut s = ServerState::new(0);
    s.route_auth(
        1,
        Inbound::Register { username: "alice".to_string(), password: "pw1".to_string() },
    );
    let acts = s.route_chat(10, Inbound::AddUser { username: "alice".to_string() });
    let users = vec![("Group".to_string(), 1u64), ("alice".to_string(), 2u64)];
    assert_eq!(
        acts,
        vec![
            deliver(0, Event::AddUser { users: users.clone() }),
            deliver(10, Event::AddUser { users }),
        ]
    );
    assert_eq!(s.registry.lookup(&"alice".to_string()), Some(10));
}

#[test]
fn add_user_of_an_unregistered_name_is_refused() {
    let mut s = ServerState::new(0);
    let acts = s.route_chat(10, Inbound::AddUser { username: "intruder".to_string() });
    assert_eq!(acts, Vec::new());
    assert_eq!(s.registry.lookup(&"intruder".to_string()), None);
}

#[test]
fn add_user_of_a_present_name_is_refused() {
    let mut s = ServerState::new(0);
    join(&mut s, "alice", "pw1", 10);
    let acts = s.route_chat(11, Inbound::AddUser { username: "alice".to_string() });
    assert_eq!(acts, Vec::new());
    assert_eq!(s.registry.lookup(&"alice".to_string()), Some(10));
}

#[test]
fn public_message_reaches_every_present_channel_once() {
    let mut s = ServerState::new(0);
    join(&mut s, "alice", "a", 10);
    join(&mut s, "bob", "b", 11);
    join(&mut s, "carol", "c", 12);
    let acts = s.route_chat(
        11,
        Inbound::PublicMessage {
            from: Some("bob".to_string()),
            message: "hi all".to_string(),
            timestamp: "t1".to_string(),
        },
    );
    let event = || Event::PublicMessage {
        from: Some("bob".to_string()),
        message: "hi all".to_string(),
        timestamp: "t1".to_string(),
    };
    // four users present (the bootstrap entry included): exactly four
    // deliveries, the sender's channel among them
    assert_eq!(
        acts,
        vec![
            deliver(0, event()),
            deliver(10, event()),
            deliver(11, event()),
            deliver(12, event()),
        ]
    );
}

#[test]
fn private_message_reaches_only_the_recipient() {
    let mut s = ServerState::new(0);
    join(&mut s, "alice", "a", 10);
    join(&mut s, "bob", "b", 11);
    let acts = s.route_chat(
        10,
        Inbound::PrivateMessage {
            to: "bob".to_string(),
            from: Some("alice".to_string()),
            message: "psst".to_string(),
            timestamp: "t2".to_string(),
        },
    );
    assert_eq!(
        acts,
        vec![deliver(
            11,
            Event::PrivateMessage {
                from: Some("alice".to_string()),
                message: "psst".to_string(),
                timestamp: "t2".to_string(),
            },
        )]
    );
}

#[test]
fn private_message_to_an_absent_user_is_dropped() {
    let mut s = ServerState::new(0);
    join(&mut s, "alice", "a", 10);
    let acts = s.route_chat(
        10,
        Inbound::PrivateMessage {
            to: "carol".to_string(),
            from: Some("alice".to_string()),
            message: "psst".to_string(),
            timestamp: "".to_string(),
        },
    );
    assert_eq!(acts, Vec::new());
}

#[test]
fn logout_unbinds_persists_and_notifies_the_rest() {
    let mut s = ServerState::new(0);
    join(&mut s, "alice", "a", 10);
    join(&mut s, "bob", "b", 11);
    let payload = FieldValue::Json("[\"m1\",\"m2\"]".to_string());
    let acts = s.route_chat(
        10,
        Inbound::Logout { user: "alice".to_string(), history: Some(payload.duplicate()) },
    );
    assert_eq!(
        acts,
        vec![
            Action::Persist { user: "alice".to_string(), payload: payload.duplicate() },
            deliver(0, Event::UserRemove { user: "alice".to_string() }),
            deliver(11, Event::UserRemove { user: "alice".to_string() }),
        ]
    );
    assert_eq!(s.registry.lookup(&"alice".to_string()), None);
    // the stored history is replayed to the rejoining channel alone
    let rejoin = s.route_chat(20, Inbound::AddUser { username: "alice".to_string() });
    assert_eq!(rejoin.len(), 4);
    assert_eq!(rejoin[3], deliver(20, Event::History { history: payload }));
}

#[test]
fn logout_without_history_persists_nothing() {
    let mut s = ServerState::new(0);
    join(&mut s, "alice", "a", 10);
    let acts = s.route_chat(
        10,
        Inbound::Logout { user: "alice".to_string(), history: None },
    );
    assert_eq!(
        acts,
        vec![deliver(0, Event::UserRemove { user: "alice".to_string() })]
    );
    let rejoin = s.route_chat(20, Inbound::AddUser { username: "alice".to_string() });
    // roster broadcasts only, no history event
    assert_eq!(rejoin.len(), 2);
}

#[test]
fn logout_of_an_absent_user_changes_no_binding() {
    let mut s = ServerState::new(0);
    join(&mut s, "alice", "a", 10);
    let before = s.registry.snapshot();
    let acts = s.route_chat(
        99,
        Inbound::Logout { user: "nobody".to_string(), history: None },
    );
    // the remaining users are still told, but no binding changes
    assert_eq!(
        acts,
        vec![
            deliver(0, Event::UserRemove { user: "nobody".to_string() }),
            deliver(10, Event::UserRemove { user: "nobody".to_string() }),
        ]
    );
    assert_eq!(s.registry.snapshot(), before);
}

#[test]
fn disconnect_cleans_up_only_the_closed_channel() {
    let mut s = ServerState::new(0);
    join(&mut s, "alice", "a", 10);
    join(&mut s, "bob", "b", 11);
    // a stale channel that does not hold the binding changes nothing
    let stale = s.disconnect(&"alice".to_string(), 99);
    assert_eq!(stale, Vec::new());
    assert_eq!(s.registry.lookup(&"alice".to_string()), Some(10));
    // the owning channel drops the binding and the rest are told
    let acts = s.disconnect(&"alice".to_string(), 10);
    assert_eq!(
        acts,
        vec![
            deliver(0, Event::UserRemove { user: "alice".to_string() }),
            deliver(11, Event::UserRemove { user: "alice".to_string() }),
        ]
    );
    assert_eq!(s.registry.lookup(&"alice".to_string()), None);
}
