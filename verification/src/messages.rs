//! The typed messages of the protocol: inbound requests, server-originated
//! events, and the actions the router asks the transport layer to perform.

use vstd::prelude::*;
use crate::fields::{FieldValue, FieldView};

verus! {

/// A parsed inbound message.
#[derive(Debug, PartialEq)]
pub enum Inbound {
    /// Bind the sending chat connection to `username` and replay history.
    AddUser { username: String },
    /// Deliver a message to one present user.
    PrivateMessage { to: String, from: Option<String>, message: String, timestamp: String },
    /// Deliver a message to every present user, the sender included.
    PublicMessage { from: Option<String>, message: String, timestamp: String },
    /// Leave: drop presence, persist the supplied history, tell the others.
    Logout { user: String, history: Option<FieldValue> },
    /// Check credentials on the auth connection.
    Login { username: String, password: String },
    /// Create an account on the auth connection.
    Register { username: String, password: String },
}

/// The abstract value of an inbound message.
pub enum InboundView {
    AddUser { username: Seq<char> },
    PrivateMessage {
        to: Seq<char>,
        from: Option<Seq<char>>,
        message: Seq<char>,
        timestamp: Seq<char>,
    },
    PublicMessage { from: Option<Seq<char>>, message: Seq<char>, timestamp: Seq<char> },
    Logout { user: Seq<char>, history: Option<FieldView> },
    Login { username: Seq<char>, password: Seq<char> },
    Register { username: Seq<char>, password: Seq<char> },
}

/// The abstract value of an optional string.
pub open spec fn opt_view(o: Option<String>) -> Option<Seq<char>> {
    match o {
        Some(s) => Some(s@),
        None => None,
    }
}

impl View for Inbound {
    type V = InboundView;

    open spec fn view(&self) -> InboundView {
        match self {
            Inbound::AddUser { username } => (InboundView::AddUser { username: username@ }),
            Inbound::PrivateMessage { to, from, message, timestamp } => (InboundView::PrivateMessage {
                to: to@,
                from: opt_view(*from),
                message: message@,
                timestamp: timestamp@,
            }),
            Inbound::PublicMessage { from, message, timestamp } => (InboundView::PublicMessage {
                from: opt_view(*from),
                message: message@,
                timestamp: timestamp@,
            }),
            Inbound::Logout { user, history } => (InboundView::Logout {
                user: user@,
                history: match history {
                    Some(p) => Some(p@),
                    None => None,
                },
            }),
            Inbound::Login { username, password } => (InboundView::Login {
                username: username@,
                password: password@,
            }),
            Inbound::Register { username, password } => (InboundView::Register {
                username: username@,
                password: password@,
            }),
        }
    }
}

/// Why an auth request was refused.
#[derive(Debug, PartialEq, Eq, Clone, Copy)]
pub enum AuthError {
    /// The username has no registration.
    UnknownUser,
    /// The username is registered under a different password.
    WrongCredentials,
    /// The username currently has a presence entry.
    AlreadyLoggedIn,
    /// The username is already registered.
    DuplicateUsername,
}

impl AuthError {
    /// The text surfaced to the requesting client.  Unknown usernames and
    /// wrong passwords are deliberately not distinguished on the wire.
    pub open spec fn spec_message(&self) -> Seq<char> {
        match self {
            AuthError::UnknownUser => "invalid username or password."@,
            AuthError::WrongCredentials => "invalid username or password."@,
            AuthError::AlreadyLoggedIn => "user is already logged in."@,
            AuthError::DuplicateUsername => "username is already taken."@,
        }
    }

    /// The wire text of this failure.
    pub fn message(&self) -> (r: String)
        ensures
            r@ == self.spec_message(),
    {
        match self {
            AuthError::UnknownUser => "invalid username or password.".to_owned(),
            AuthError::WrongCredentials => "invalid username or password.".to_owned(),
            AuthError::AlreadyLoggedIn => "user is already logged in.".to_owned(),
            AuthError::DuplicateUsername => "username is already taken.".to_owned(),
        }
    }
}

/// A server-originated event, to be serialized and enqueued on one
/// connection's outbound channel.
#[derive(Debug, PartialEq)]
pub enum Event {
    /// A user joined; carries the full present roster.
    AddUser { users: Vec<(String, u64)> },
    /// The stored history of the user who just joined, replayed verbatim.
    History { history: FieldValue },
    /// A message for one recipient.
    PrivateMessage { from: Option<String>, message: String, timestamp: String },
    /// A message for everyone present.
    PublicMessage { from: Option<String>, message: String, timestamp: String },
    /// A user left.
    UserRemove { user: String },
    /// Answer to a `login` request.
    LoginResponse {
        success: bool,
        username: Option<String>,
        image_id: Option<u64>,
        error: Option<AuthError>,
    },
    /// Answer to a `register` request.
    RegisterResponse { success: bool, error: Option<AuthError> },
}

/// One step the transport layer is asked to carry out.
#[derive(Debug, PartialEq)]
pub enum Action {
    /// Enqueue `event` on outbound channel `chan`; never blocks the router.
    Deliver { chan: u64, event: Event },
    /// Write `payload` as the durable history record of `user`.
    Persist { user: String, payload: FieldValue },
}

/// A copy of an optional string with the same value.
pub fn copy_opt_text(o: &Option<String>) -> (r: Option<String>)
    ensures
        r == *o,
{
    match o {
        Some(s) => Some(s.clone()),
        None => None,
    }
}

} // verus!
