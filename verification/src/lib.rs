//! Core of a multi-user chat service: connection registry, credential store,
//! per-user history, and the message router that ties them together.
//!
//! The service around this core accepts duplex text-frame connections, parses
//! each inbound frame into an [`Inbound`] message, and feeds it to the router
//! on a shared [`ServerState`].  The router answers with a list of [`Action`]s
//! (deliver an [`Event`] to a channel, persist a history record) that the
//! transport layer carries out.

pub mod assoc;
pub mod credentials;
pub mod fields;
pub mod history;
pub mod messages;
pub mod parse;
pub mod registry;
pub mod server;

pub use credentials::CredentialStore;
pub use fields::{copy_pairs, FieldValue, FieldView, Frame};
pub use history::HistoryStore;
pub use messages::{copy_opt_text, Action, AuthError, Event, Inbound, InboundView};
pub use parse::{event_frame, parse_inbound};
pub use registry::Registry;
pub use server::ServerState;
