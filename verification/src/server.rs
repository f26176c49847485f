//! The server's shared state and the message router.
//!
//! The router is the only writer of the three stores.  Each operation takes
//! the shared state and one parsed message, updates the state, and returns
//! the list of [`Action`]s the transport layer must carry out: deliveries
//! to outbound channels and durable history writes.  Delivery itself —
//! and any failure of it — is the transport's business and never alters
//! the state.

use vstd::prelude::*;
use crate::assoc::{has_key, key_index, value_of};
use crate::credentials::CredentialStore;
use crate::fields::{copy_pairs, FieldValue, FieldView};
use crate::history::{spec_write, HistoryStore};
use crate::messages::{copy_opt_text, Action, AuthError, Event, Inbound};
use crate::registry::Registry;

verus! {

/// The shared state: presence, registrations, histories.
pub struct ServerState {
    pub registry: Registry,
    pub credentials: CredentialStore,
    pub history: HistoryStore,
}

/// The `(username, id)` roster of every present user, in binding order.
pub open spec fn roster(
    reg: Seq<(Seq<char>, u64)>,
    creds: Seq<(Seq<char>, (Seq<char>, u64))>,
) -> Seq<(Seq<char>, u64)> {
    Seq::new(reg.len(), |i: int| (reg[i].0, value_of(creds, reg[i].0).1))
}

/// `a` delivers to `ch` an `add_user` event carrying the roster of `reg`.
pub open spec fn roster_delivery(
    a: Action,
    ch: u64,
    reg: Seq<(Seq<char>, u64)>,
    creds: Seq<(Seq<char>, (Seq<char>, u64))>,
) -> bool {
    match a {
        Action::Deliver { chan, event } => chan == ch && match event {
            Event::AddUser { users } => users@.map_values(|p: (String, u64)| (p.0@, p.1))
                == roster(reg, creds),
            _ => false,
        },
        _ => false,
    }
}

/// `a` delivers to `ch` a `history` event whose payload is `payload`.
pub open spec fn history_delivery(a: Action, ch: u64, payload: FieldView) -> bool {
    match a {
        Action::Deliver { chan, event } => chan == ch && match event {
            Event::History { history } => history@ == payload,
            _ => false,
        },
        _ => false,
    }
}

/// What joining does.  Joining succeeds exactly when the username is
/// registered and not already present.  On success the username is bound to
/// the joining channel, every present user (the new one included) is sent
/// the fresh roster, and the stored history of the username, if any, is
/// replayed to the joining channel alone.  Otherwise nothing happens: a
/// join may never displace a live binding.
pub open spec fn add_user_post(
    pre: ServerState,
    post: ServerState,
    chan: u64,
    username: Seq<char>,
    out: Seq<Action>,
) -> bool {
    let ok = has_key(pre.credentials@, username) && !has_key(pre.registry@, username);
    let reg2 = pre.registry@.push((username, chan));
    let replay: int = if has_key(pre.history@, username) {
        1
    } else {
        0
    };
    &&& (!ok ==> post == pre && out.len() == 0)
    &&& (ok ==> {
        &&& post.registry@ == reg2
        &&& post.credentials == pre.credentials
        &&& post.history == pre.history
        &&& out.len() == reg2.len() + replay
        &&& (forall|i: int|
            0 <= i < reg2.len() ==> roster_delivery(out[i], reg2[i].1, reg2, pre.credentials@))
        &&& (has_key(pre.history@, username) ==> history_delivery(
            out[reg2.len() as int],
            chan,
            value_of(pre.history@, username),
        ))
    })
}

/// What a private message does: one delivery to the channel of the present
/// recipient, none to anyone else; a message to an absent recipient is
/// dropped without a trace.
pub open spec fn private_post(
    pre: ServerState,
    to: Seq<char>,
    from: Option<String>,
    message: String,
    timestamp: String,
    out: Seq<Action>,
) -> bool {
    &&& (has_key(pre.registry@, to) ==> out.len() == 1 && out[0] == (Action::Deliver {
        chan: value_of(pre.registry@, to),
        event: (Event::PrivateMessage { from, message, timestamp }),
    }))
    &&& (!has_key(pre.registry@, to) ==> out.len() == 0)
}

/// What a public message does: with `N` users present, exactly `N`
/// deliveries of the same event, one to each present channel — the
/// sender's included.
pub open spec fn public_post(
    pre: ServerState,
    from: Option<String>,
    message: String,
    timestamp: String,
    out: Seq<Action>,
) -> bool {
    &&& out.len() == pre.registry@.len()
    &&& forall|i: int|
        0 <= i < out.len() ==> out[i] == (Action::Deliver {
            chan: pre.registry@[i].1,
            event: (Event::PublicMessage { from, message, timestamp }),
        })
}

/// What leaving does: the username's binding is dropped if it exists, the
/// supplied history (if any) replaces the stored record and is handed to
/// the transport for durable storage, and every remaining user is told of
/// the removal.
pub open spec fn logout_post(
    pre: ServerState,
    post: ServerState,
    user: String,
    history: Option<FieldValue>,
    out: Seq<Action>,
) -> bool {
    let reg2 = if has_key(pre.registry@, user@) {
        pre.registry@.remove(key_index(pre.registry@, user@))
    } else {
        pre.registry@
    };
    let persist: int = if history is Some {
        1
    } else {
        0
    };
    &&& post.registry@ == reg2
    &&& post.credentials == pre.credentials
    &&& post.history@ == (match history {
        Some(p) => spec_write(pre.history@, user@, p@),
        None => pre.history@,
    })
    &&& out.len() == persist + reg2.len()
    &&& (match history {
        Some(p) => out[0] == (Action::Persist { user, payload: p }),
        None => true,
    })
    &&& forall|i: int|
        0 <= i < reg2.len() ==> out[persist + i] == (Action::Deliver {
            chan: reg2[i].1,
            event: (Event::UserRemove { user }),
        })
}

/// What connection teardown does: if `username` is still bound to the
/// closed channel, the binding is dropped and the remaining users are told;
/// a binding won meanwhile by another channel is left alone.
pub open spec fn disconnect_post(
    pre: ServerState,
    post: ServerState,
    username: String,
    chan: u64,
    out: Seq<Action>,
) -> bool {
    let bound = has_key(pre.registry@, username@) && value_of(pre.registry@, username@) == chan;
    let reg2 = pre.registry@.remove(key_index(pre.registry@, username@));
    &&& (!bound ==> post == pre && out.len() == 0)
    &&& (bound ==> {
        &&& post.registry@ == reg2
        &&& post.credentials == pre.credentials
        &&& post.history == pre.history
        &&& out.len() == reg2.len()
        &&& forall|i: int|
            0 <= i < reg2.len() ==> out[i] == (Action::Deliver {
                chan: reg2[i].1,
                event: (Event::UserRemove { user: username }),
            })
    })
}

/// The outcome of a login attempt: refused while the username is present,
/// then decided by the registration; the identifier comes back on success.
pub open spec fn spec_login_outcome(
    reg: Seq<(Seq<char>, u64)>,
    creds: Seq<(Seq<char>, (Seq<char>, u64))>,
    u: Seq<char>,
    p: Seq<char>,
) -> Result<u64, AuthError> {
    if has_key(reg, u) {
        Err(AuthError::AlreadyLoggedIn)
    } else if !has_key(creds, u) {
        Err(AuthError::UnknownUser)
    } else if value_of(creds, u).0 != p {
        Err(AuthError::WrongCredentials)
    } else {
        Ok(value_of(creds, u).1)
    }
}

/// What a login request answers: one response to the asking channel,
/// reporting the outcome; no state changes.
pub open spec fn login_post(
    pre: ServerState,
    chan: u64,
    username: String,
    password: String,
    out: Seq<Action>,
) -> bool {
    let ev = match spec_login_outcome(pre.registry@, pre.credentials@, username@, password@) {
        Ok(id) => (Event::LoginResponse {
            success: true,
            username: Some(username),
            image_id: Some(id),
            error: None,
        }),
        Err(e) => (Event::LoginResponse {
            success: false,
            username: None,
            image_id: None,
            error: Some(e),
        }),
    };
    out.len() == 1 && out[0] == (Action::Deliver { chan, event: ev })
}

/// What a register request does: a fresh username is recorded under the
/// counter's identifier and acknowledged; a taken username is refused and
/// nothing changes.  Presence and history are untouched either way.
pub open spec fn register_post(
    pre: ServerState,
    post: ServerState,
    chan: u64,
    username: Seq<char>,
    password: Seq<char>,
    out: Seq<Action>,
) -> bool {
    &&& post.registry == pre.registry
    &&& post.history == pre.history
    &&& (has_key(pre.credentials@, username) ==> {
        &&& post.credentials == pre.credentials
        &&& out.len() == 1
        &&& out[0] == (Action::Deliver {
            chan,
            event: (Event::RegisterResponse {
                success: false,
                error: Some(AuthError::DuplicateUsername),
            }),
        })
    })
    &&& (!has_key(pre.credentials@, username) ==> {
        &&& post.credentials@ == pre.credentials@.push(
            (username, (password, pre.credentials.spec_next_id())),
        )
        &&& post.credentials.spec_next_id() == pre.credentials.spec_next_id() + 1
        &&& out.len() == 1
        &&& out[0] == (Action::Deliver {
            chan,
            event: (Event::RegisterResponse { success: true, error: None }),
        })
    })
}

impl ServerState {
    /// Every store is well-formed and every present username is registered.
    pub open spec fn wf(&self) -> bool {
        &&& self.registry.wf()
        &&& self.credentials.wf()
        &&& self.history.wf()
        &&& forall|i: int|
            0 <= i < self.registry@.len() ==> has_key(
                self.credentials@,
                (#[trigger] self.registry@[i]).0,
            )
    }

    /// The startup state: the bootstrap identity "Group" registered under
    /// identifier 1 and bound to `group_chan` as the always-present
    /// broadcast anchor; no one else, no history.
    pub fn new(group_chan: u64) -> (r: ServerState)
        ensures
            r.wf(),
            r.registry@ == seq![("Group"@, group_chan)],
            r.credentials@ == seq![("Group"@, ("default_password"@, 1u64))],
            r.credentials.spec_next_id() == 2,
            r.history@ == Seq::<(Seq<char>, FieldView)>::empty(),
    {
        let mut credentials = CredentialStore::new();
        let _ = credentials.register("Group".to_owned(), "default_password".to_owned());
        let mut registry = Registry::new();
        let _ = registry.bind("Group".to_owned(), group_chan);
        let history = HistoryStore::new();
        let r = ServerState { registry, credentials, history };
        proof {
            assert(r.registry@ =~= seq![("Group"@, group_chan)]);
            assert(r.credentials@ =~= seq![("Group"@, ("default_password"@, 1u64))]);
            CredentialStore::lemma_register_once(
                Seq::<(Seq<char>, (Seq<char>, u64))>::empty(),
                "Group"@,
                "default_password"@,
                1u64,
            );
        }
        r
    }

    /// Login-time verification: the credentials must match **and** the
    /// username must not currently be present.  Succeeds — returning the
    /// numeric identifier — if and only if `username` was registered with
    /// exactly `password` and no presence entry exists for it.
    pub fn verify(&self, username: &String, password: &String) -> (r: Result<u64, AuthError>)
        requires
            self.wf(),
        ensures
            r == spec_login_outcome(self.registry@, self.credentials@, username@, password@),
            (r is Ok) <==> (!has_key(self.registry@, username@) && has_key(
                self.credentials@,
                username@,
            ) && value_of(self.credentials@, username@).0 == password@),
    {
        match self.registry.lookup(username) {
            Some(_) => Err(AuthError::AlreadyLoggedIn),
            None => self.credentials.verify(username, password),
        }
    }

    /// The present roster, in binding order, with each user's identifier.
    fn build_roster(&self) -> (r: Vec<(String, u64)>)
        requires
            self.wf(),
        ensures
            r@.map_values(|p: (String, u64)| (p.0@, p.1)) == roster(
                self.registry@,
                self.credentials@,
            ),
    {
        let mut r: Vec<(String, u64)> = Vec::new();
        let n = self.registry.len();
        let mut i: usize = 0;
        while i < n
            invariant
                self.wf(),
                i <= n,
                n == self.registry@.len(),
                r@.len() == i,
                forall|j: int|
                    0 <= j < i ==> ((#[trigger] r@[j]).0@, r@[j].1) == roster(
                        self.registry@,
                        self.credentials@,
                    )[j],
            decreases n - i,
        {
            let name = self.registry.name_at(i);
            let id = self.credentials.id_of(&name).unwrap();
            r.push((name, id));
            i += 1;
        }
        proof {
            assert(r@.map_values(|p: (String, u64)| (p.0@, p.1)) =~= roster(
                self.registry@,
                self.credentials@,
            ));
        }
        r
    }

    /// Join: bind `username` to the chat connection's channel `chan`,
    /// announce the new roster to everyone present, and replay the stored
    /// history, if any, to the joining channel alone.
    pub fn add_user(&mut self, username: String, chan: u64) -> (r: Vec<Action>)
        requires
            old(self).wf(),
        ensures
            final(self).wf(),
            add_user_post(*old(self), *final(self), chan, username@, r@),
    {
        let ghost uname = username@;
        if !self.credentials.contains(&username) {
            return Vec::new();
        }
        if self.registry.lookup(&username).is_some() {
            return Vec::new();
        }
        let hist = self.history.read(&username);
        let bound = self.registry.bind(username, chan);
        proof {
            assert(bound);
            assert forall|i: int| 0 <= i < self.registry@.len() implies has_key(
                self.credentials@,
                (#[trigger] self.registry@[i]).0,
            ) by {
                if i < old(self).registry@.len() {
                    assert(self.registry@[i] == old(self).registry@[i]);
                } else {
                    assert(self.registry@[i] == (uname, chan));
                }
            }
        }
        let users = self.build_roster();
        let mut out: Vec<Action> = Vec::new();
        let n = self.registry.len();
        let mut i: usize = 0;
        while i < n
            invariant
                i <= n,
                n == self.registry@.len(),
                out@.len() == i,
                users@.map_values(|p: (String, u64)| (p.0@, p.1)) == roster(
                    self.registry@,
                    self.credentials@,
                ),
                forall|j: int|
                    0 <= j < i ==> roster_delivery(
                        #[trigger] out@[j],
                        self.registry@[j].1,
                        self.registry@,
                        self.credentials@,
                    ),
            decreases n - i,
        {
            let c = self.registry.chan_at(i);
            out.push(Action::Deliver { chan: c, event: Event::AddUser { users: copy_pairs(&users) } });
            i += 1;
        }
        match hist {
            Some(p) => {
                proof {
                    assert(p@ == value_of(old(self).history@, uname));
                }
                out.push(Action::Deliver { chan, event: Event::History { history: p } });
            },
            None => {},
        }
        out
    }

    /// Route a private message to the present recipient `to`, or drop it
    /// silently if `to` is absent.
    pub fn private_message(
        &self,
        to: &String,
        from: Option<String>,
        message: String,
        timestamp: String,
    ) -> (r: Vec<Action>)
        requires
            self.wf(),
        ensures
            private_post(*self, to@, from, message, timestamp, r@),
    {
        let mut out: Vec<Action> = Vec::new();
        match self.registry.lookup(to) {
            Some(c) => {
                out.push(Action::Deliver {
                    chan: c,
                    event: Event::PrivateMessage { from, message, timestamp },
                });
            },
            None => {},
        }
        out
    }

    /// Broadcast a public message to every present user, the sender
    /// included.
    pub fn public_message(
        &self,
        from: Option<String>,
        message: String,
        timestamp: String,
    ) -> (r: Vec<Action>)
        requires
            self.wf(),
        ensures
            public_post(*self, from, message, timestamp, r@),
    {
        let mut out: Vec<Action> = Vec::new();
        let n = self.registry.len();
        let mut i: usize = 0;
        while i < n
            invariant
                i <= n,
                n == self.registry@.len(),
                out@.len() == i,
                forall|j: int|
                    0 <= j < i ==> out@[j] == (Action::Deliver {
                        chan: self.registry@[j].1,
                        event: (Event::PublicMessage { from, message, timestamp }),
                    }),
            decreases n - i,
        {
            let c = self.registry.chan_at(i);
            out.push(Action::Deliver {
                chan: c,
                event: Event::PublicMessage {
                    from: copy_opt_text(&from),
                    message: message.clone(),
                    timestamp: timestamp.clone(),
                },
            });
            i += 1;
        }
        out
    }

    /// Leave: unbind `user` (a no-op if absent), store and persist the
    /// supplied history, and tell every remaining user.
    pub fn logout(&mut self, user: String, history: Option<FieldValue>) -> (r: Vec<Action>)
        requires
            old(self).wf(),
        ensures
            final(self).wf(),
            logout_post(*old(self), *final(self), user, history, r@),
    {
        let ghost uname = user@;
        let _was_present = self.registry.unbind(&user);
        proof {
            assert forall|i: int| 0 <= i < self.registry@.len() implies has_key(
                self.credentials@,
                (#[trigger] self.registry@[i]).0,
            ) by {
                if has_key(old(self).registry@, uname) {
                    let d = key_index(old(self).registry@, uname);
                    if i < d {
                        assert(self.registry@[i] == old(self).registry@[i]);
                    } else {
                        assert(self.registry@[i] == old(self).registry@[i + 1]);
                    }
                }
            }
        }
        let mut out: Vec<Action> = Vec::new();
        match history {
            Some(p) => {
                let payload = p.duplicate();
                self.history.write(user.clone(), payload);
                out.push(Action::Persist { user: user.clone(), payload: p });
            },
            None => {},
        }
        let ghost persist: int = out@.len() as int;
        let n = self.registry.len();
        let mut i: usize = 0;
        while i < n
            invariant
                i <= n,
                n == self.registry@.len(),
                out@.len() == persist + i,
                (match history {
                    Some(p) => persist == 1 && out@[0] == (Action::Persist { user, payload: p }),
                    None => persist == 0,
                }),
                forall|j: int|
                    0 <= j < i ==> out@[persist + j] == (Action::Deliver {
                        chan: self.registry@[j].1,
                        event: (Event::UserRemove { user }),
                    }),
            decreases n - i,
        {
            let c = self.registry.chan_at(i);
            out.push(Action::Deliver { chan: c, event: Event::UserRemove { user: user.clone() } });
            i += 1;
        }
        out
    }

    /// Teardown cleanup for a chat connection that closed without a
    /// `logout`: drop the binding of `username` if it still points at the
    /// closed channel, and tell every remaining user.
    pub fn disconnect(&mut self, username: &String, chan: u64) -> (r: Vec<Action>)
        requires
            old(self).wf(),
        ensures
            final(self).wf(),
            disconnect_post(*old(self), *final(self), *username, chan, r@),
    {
        let ghost uname = username@;
        let still_bound = match self.registry.lookup(username) {
            Some(c) => c == chan,
            None => false,
        };
        if !still_bound {
            return Vec::new();
        }
        let _ = self.registry.unbind(username);
        proof {
            assert forall|i: int| 0 <= i < self.registry@.len() implies has_key(
                self.credentials@,
                (#[trigger] self.registry@[i]).0,
            ) by {
                let d = key_index(old(self).registry@, uname);
                if i < d {
                    assert(self.registry@[i] == old(self).registry@[i]);
                } else {
                    assert(self.registry@[i] == old(self).registry@[i + 1]);
                }
            }
        }
        let mut out: Vec<Action> = Vec::new();
        let n = self.registry.len();
        let mut i: usize = 0;
        while i < n
            invariant
                i <= n,
                n == self.registry@.len(),
                out@.len() == i,
                forall|j: int|
                    0 <= j < i ==> out@[j] == (Action::Deliver {
                        chan: self.registry@[j].1,
                        event: (Event::UserRemove { user: *username }),
                    }),
            decreases n - i,
        {
            let c = self.registry.chan_at(i);
            out.push(Action::Deliver {
                chan: c,
                event: Event::UserRemove { user: username.clone() },
            });
            i += 1;
        }
        out
    }

    /// Route one message of the chat endpoint.  `chan` is the sending
    /// connection's outbound channel.  Auth messages are not this
    /// endpoint's business and are dropped.
    pub fn route_chat(&mut self, chan: u64, msg: Inbound) -> (r: Vec<Action>)
        requires
            old(self).wf(),
        ensures
            final(self).wf(),
            match msg {
                Inbound::AddUser { username } => add_user_post(
                    *old(self),
                    *final(self),
                    chan,
                    username@,
                    r@,
                ),
                Inbound::PrivateMessage { to, from, message, timestamp } => *final(self) == *old(
                    self,
                ) && private_post(*old(self), to@, from, message, timestamp, r@),
                Inbound::PublicMessage { from, message, timestamp } => *final(self) == *old(self)
                    && public_post(*old(self), from, message, timestamp, r@),
                Inbound::Logout { user, history } => logout_post(
                    *old(self),
                    *final(self),
                    user,
                    history,
                    r@,
                ),
                Inbound::Login { .. } => *final(self) == *old(self) && r@.len() == 0,
                Inbound::Register { .. } => *final(self) == *old(self) && r@.len() == 0,
            },
    {
        match msg {
            Inbound::AddUser { username } => self.add_user(username, chan),
            Inbound::PrivateMessage { to, from, message, timestamp } => self.private_message(
                &to,
                from,
                message,
                timestamp,
            ),
            Inbound::PublicMessage { from, message, timestamp } => self.public_message(
                from,
                message,
                timestamp,
            ),
            Inbound::Logout { user, history } => self.logout(user, history),
            Inbound::Login { .. } => Vec::new(),
            Inbound::Register { .. } => Vec::new(),
        }
    }

    /// Route one message of the auth endpoint.  `chan` is the requesting
    /// connection's outbound channel; the response goes there and nowhere
    /// else.  Chat messages are not this endpoint's business and are
    /// dropped.
    pub fn route_auth(&mut self, chan: u64, msg: Inbound) -> (r: Vec<Action>)
        requires
            old(self).wf(),
            old(self).credentials@.len() + 2 <= u64::MAX,
        ensures
            final(self).wf(),
            match msg {
                Inbound::Login { username, password } => *final(self) == *old(self) && login_post(
                    *old(self),
                    chan,
                    username,
                    password,
                    r@,
                ),
                Inbound::Register { username, password } => register_post(
                    *old(self),
                    *final(self),
                    chan,
                    username@,
                    password@,
                    r@,
                ),
                _ => *final(self) == *old(self) && r@.len() == 0,
            },
    {
        match msg {
            Inbound::Login { username, password } => {
                let event = match self.verify(&username, &password) {
                    Ok(id) => Event::LoginResponse {
                        success: true,
                        username: Some(username),
                        image_id: Some(id),
                        error: None,
                    },
                    Err(e) => Event::LoginResponse {
                        success: false,
                        username: None,
                        image_id: None,
                        error: Some(e),
                    },
                };
                let mut out: Vec<Action> = Vec::new();
                out.push(Action::Deliver { chan, event });
                out
            },
            Inbound::Register { username, password } => {
                let ghost uname = username@;
                let ghost pw = password@;
                let ghost nid = self.credentials.spec_next_id();
                let event = match self.credentials.register(username, password) {
                    Ok(_) => Event::RegisterResponse { success: true, error: None },
                    Err(e) => Event::RegisterResponse { success: false, error: Some(e) },
                };
                let mut out: Vec<Action> = Vec::new();
                out.push(Action::Deliver { chan, event });
                proof {
                    assert forall|i: int| 0 <= i < self.registry@.len() implies has_key(
                        self.credentials@,
                        #[trigger] self.registry@[i].0,
                    ) by {
                        if !has_key(old(self).credentials@, uname) {
                            crate::assoc::lemma_has_key_push(
                                old(self).credentials@,
                                (uname, (pw, nid)),
                                self.registry@[i].0,
                            );
                        }
                    }
                }
                out
            },
            _ => Vec::new(),
        }
    }
}

} // verus!
