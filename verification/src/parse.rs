//! The frame grammar: which flat objects mean which typed messages.
//!
//! An inbound frame is recognized by its `type` field; a frame with no
//! string `type`, an unknown type, or a missing required field parses to
//! nothing and is dropped by the session without closing the connection.
//! Outbound events are laid out as frames here, one shape per event.

use vstd::prelude::*;
use crate::assoc::first_val;
use crate::fields::{copy_pairs, text_field, FieldValue, FieldView, Frame};
use crate::messages::{Event, Inbound, InboundView};

verus! {

/// A missing or non-string timestamp is carried as the empty string.
pub open spec fn or_empty(o: Option<Seq<char>>) -> Seq<char> {
    match o {
        Some(s) => s,
        None => ""@,
    }
}

/// An absent sender is serialized as a JSON `null`.
pub open spec fn opt_text_or_null(o: Option<String>) -> FieldView {
    match o {
        Some(s) => FieldView::Text(s@),
        None => FieldView::Json("null"@),
    }
}

/// `add_user` needs a string `username`.
pub open spec fn spec_parse_add_user(fs: Seq<(Seq<char>, FieldView)>) -> Option<InboundView> {
    match text_field(fs, "username"@) {
        Some(u) => Some(InboundView::AddUser { username: u }),
        None => None,
    }
}

/// `private_message` needs string `to` and `message`; `from` and
/// `timestamp` are optional.
pub open spec fn spec_parse_private(fs: Seq<(Seq<char>, FieldView)>) -> Option<InboundView> {
    match (text_field(fs, "to"@), text_field(fs, "message"@)) {
        (Some(to), Some(m)) => Some(InboundView::PrivateMessage {
            to,
            from: text_field(fs, "from"@),
            message: m,
            timestamp: or_empty(text_field(fs, "timestamp"@)),
        }),
        _ => None,
    }
}

/// `public_message` needs a string `message`; `from` and `timestamp` are
/// optional.
pub open spec fn spec_parse_public(fs: Seq<(Seq<char>, FieldView)>) -> Option<InboundView> {
    match text_field(fs, "message"@) {
        Some(m) => Some(InboundView::PublicMessage {
            from: text_field(fs, "from"@),
            message: m,
            timestamp: or_empty(text_field(fs, "timestamp"@)),
        }),
        None => None,
    }
}

/// `logout` needs a string `user`; the `history` field, of any shape, is
/// carried verbatim.
pub open spec fn spec_parse_logout(fs: Seq<(Seq<char>, FieldView)>) -> Option<InboundView> {
    match text_field(fs, "user"@) {
        Some(u) => Some(InboundView::Logout { user: u, history: first_val(fs, "history"@) }),
        None => None,
    }
}

/// `login` needs string `username` and `password`.
pub open spec fn spec_parse_login(fs: Seq<(Seq<char>, FieldView)>) -> Option<InboundView> {
    match (text_field(fs, "username"@), text_field(fs, "password"@)) {
        (Some(u), Some(p)) => Some(InboundView::Login { username: u, password: p }),
        _ => None,
    }
}

/// `register` needs string `username` and `password`.
pub open spec fn spec_parse_register(fs: Seq<(Seq<char>, FieldView)>) -> Option<InboundView> {
    match (text_field(fs, "username"@), text_field(fs, "password"@)) {
        (Some(u), Some(p)) => Some(InboundView::Register { username: u, password: p }),
        _ => None,
    }
}

/// The whole inbound grammar, keyed by the string `type` field.
pub open spec fn spec_parse(fs: Seq<(Seq<char>, FieldView)>) -> Option<InboundView> {
    match text_field(fs, "type"@) {
        Some(t) => if t == "add_user"@ {
            spec_parse_add_user(fs)
        } else if t == "private_message"@ {
            spec_parse_private(fs)
        } else if t == "public_message"@ {
            spec_parse_public(fs)
        } else if t == "logout"@ {
            spec_parse_logout(fs)
        } else if t == "login"@ {
            spec_parse_login(fs)
        } else if t == "register"@ {
            spec_parse_register(fs)
        } else {
            None
        },
        None => None,
    }
}

/// Parse one inbound frame, exactly as the grammar says.
pub fn parse_inbound(frame: &Frame) -> (r: Option<Inbound>)
    ensures
        match r {
            Some(m) => spec_parse(frame@) == Some(m@),
            None => spec_parse(frame@) is None,
        },
{
    let tkey = "type".to_owned();
    let t = match frame.text(&tkey) {
        Some(t) => t,
        None => {
            return None;
        },
    };
    if *t == "add_user".to_owned() {
        let ukey = "username".to_owned();
        match frame.text(&ukey) {
            Some(u) => Some(Inbound::AddUser { username: u.clone() }),
            None => None,
        }
    } else if *t == "private_message".to_owned() {
        let to_key = "to".to_owned();
        let msg_key = "message".to_owned();
        match (frame.text(&to_key), frame.text(&msg_key)) {
            (Some(to), Some(m)) => {
                let from_key = "from".to_owned();
                let ts_key = "timestamp".to_owned();
                let from = match frame.text(&from_key) {
                    Some(s) => Some(s.clone()),
                    None => None,
                };
                let timestamp = match frame.text(&ts_key) {
                    Some(s) => s.clone(),
                    None => "".to_owned(),
                };
                Some(Inbound::PrivateMessage { to: to.clone(), from, message: m.clone(), timestamp })
            },
            _ => None,
        }
    } else if *t == "public_message".to_owned() {
        let msg_key = "message".to_owned();
        match frame.text(&msg_key) {
            Some(m) => {
                let from_key = "from".to_owned();
                let ts_key = "timestamp".to_owned();
                let from = match frame.text(&from_key) {
                    Some(s) => Some(s.clone()),
                    None => None,
                };
                let timestamp = match frame.text(&ts_key) {
                    Some(s) => s.clone(),
                    None => "".to_owned(),
                };
                Some(Inbound::PublicMessage { from, message: m.clone(), timestamp })
            },
            None => None,
        }
    } else if *t == "logout".to_owned() {
        let user_key = "user".to_owned();
        match frame.text(&user_key) {
            Some(u) => {
                let hist_key = "history".to_owned();
                let history = match frame.field(&hist_key) {
                    Some(v) => Some(v.duplicate()),
                    None => None,
                };
                Some(Inbound::Logout { user: u.clone(), history })
            },
            None => None,
        }
    } else if *t == "login".to_owned() {
        let ukey = "username".to_owned();
        let pkey = "password".to_owned();
        match (frame.text(&ukey), frame.text(&pkey)) {
            (Some(u), Some(p)) => Some(Inbound::Login {
                username: u.clone(),
                password: p.clone(),
            }),
            _ => None,
        }
    } else if *t == "register".to_owned() {
        let ukey = "username".to_owned();
        let pkey = "password".to_owned();
        match (frame.text(&ukey), frame.text(&pkey)) {
            (Some(u), Some(p)) => Some(Inbound::Register {
                username: u.clone(),
                password: p.clone(),
            }),
            _ => None,
        }
    } else {
        None
    }
}

/// How each event is laid out as a frame.
pub open spec fn spec_event_frame(e: Event) -> Seq<(Seq<char>, FieldView)> {
    match e {
        Event::AddUser { users } => seq![
            ("type"@, FieldView::Text("add_user"@)),
            ("users"@, FieldView::Users(users@.map_values(|p: (String, u64)| (p.0@, p.1)))),
        ],
        Event::History { history } => seq![
            ("type"@, FieldView::Text("history"@)),
            ("history"@, history@),
        ],
        Event::PrivateMessage { from, message, timestamp } => seq![
            ("type"@, FieldView::Text("private_message"@)),
            ("from"@, opt_text_or_null(from)),
            ("message"@, FieldView::Text(message@)),
            ("timestamp"@, FieldView::Text(timestamp@)),
        ],
        Event::PublicMessage { from, message, timestamp } => seq![
            ("type"@, FieldView::Text("public_message"@)),
            ("from"@, opt_text_or_null(from)),
            ("message"@, FieldView::Text(message@)),
            ("timestamp"@, FieldView::Text(timestamp@)),
        ],
        Event::UserRemove { user } => seq![
            ("type"@, FieldView::Text("user_remove"@)),
            ("user"@, FieldView::Text(user@)),
        ],
        Event::LoginResponse { success, username, image_id, error } => seq![
            ("type"@, FieldView::Text("login_response"@)),
            ("success"@, FieldView::Flag(success)),
        ] + (match username {
            Some(u) => seq![("username"@, FieldView::Text(u@))],
            None => seq![],
        }) + (match image_id {
            Some(id) => seq![("image_id"@, FieldView::Num(id))],
            None => seq![],
        }) + (match error {
            Some(err) => seq![("error"@, FieldView::Text(err.spec_message()))],
            None => seq![],
        }),
        Event::RegisterResponse { success, error } => seq![
            ("type"@, FieldView::Text("register_response"@)),
            ("success"@, FieldView::Flag(success)),
        ] + (match error {
            Some(err) => seq![("error"@, FieldView::Text(err.spec_message()))],
            None => seq![],
        }),
    }
}

/// Lay one event out as a frame, exactly as `spec_event_frame` says.
pub fn event_frame(e: &Event) -> (r: Frame)
    ensures
        r@ == spec_event_frame(*e),
{
    let mut f = Frame::new();
    match e {
        Event::AddUser { users } => {
            f.push_field("type".to_owned(), FieldValue::Text("add_user".to_owned()));
            f.push_field("users".to_owned(), FieldValue::Users(copy_pairs(users)));
        },
        Event::History { history } => {
            f.push_field("type".to_owned(), FieldValue::Text("history".to_owned()));
            f.push_field("history".to_owned(), history.duplicate());
        },
        Event::PrivateMessage { from, message, timestamp } => {
            f.push_field("type".to_owned(), FieldValue::Text("private_message".to_owned()));
            match from {
                Some(s) => f.push_field("from".to_owned(), FieldValue::Text(s.clone())),
                None => f.push_field("from".to_owned(), FieldValue::Json("null".to_owned())),
            }
            f.push_field("message".to_owned(), FieldValue::Text(message.clone()));
            f.push_field("timestamp".to_owned(), FieldValue::Text(timestamp.clone()));
        },
        Event::PublicMessage { from, message, timestamp } => {
            f.push_field("type".to_owned(), FieldValue::Text("public_message".to_owned()));
            match from {
                Some(s) => f.push_field("from".to_owned(), FieldValue::Text(s.clone())),
                None => f.push_field("from".to_owned(), FieldValue::Json("null".to_owned())),
            }
            f.push_field("message".to_owned(), FieldValue::Text(message.clone()));
            f.push_field("timestamp".to_owned(), FieldValue::Text(timestamp.clone()));
        },
        Event::UserRemove { user } => {
            f.push_field("type".to_owned(), FieldValue::Text("user_remove".to_owned()));
            f.push_field("user".to_owned(), FieldValue::Text(user.clone()));
        },
        Event::LoginResponse { success, username, image_id, error } => {
            f.push_field("type".to_owned(), FieldValue::Text("login_response".to_owned()));
            f.push_field("success".to_owned(), FieldValue::Flag(*success));
            match username {
                Some(u) => f.push_field("username".to_owned(), FieldValue::Text(u.clone())),
                None => {},
            }
            match image_id {
                Some(id) => f.push_field("image_id".to_owned(), FieldValue::Num(*id)),
                None => {},
            }
            match error {
                Some(err) => f.push_field("error".to_owned(), FieldValue::Text(err.message())),
                None => {},
            }
        },
        Event::RegisterResponse { success, error } => {
            f.push_field("type".to_owned(), FieldValue::Text("register_response".to_owned()));
            f.push_field("success".to_owned(), FieldValue::Flag(*success));
            match error {
                Some(err) => f.push_field("error".to_owned(), FieldValue::Text(err.message())),
                None => {},
            }
        },
    }
    proof {
        assert(f@ =~= spec_event_frame(*e));
    }
    f
}

} // verus!
