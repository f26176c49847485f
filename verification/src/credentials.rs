//! The credential store: registrations of username, password and numeric
//! identifier.  Registration is permanent for the life of the process and
//! independent of presence: a registered user may or may not be connected.
//!
//! Identifiers come from a monotonically increasing counter seeded at 1,
//! which advances exactly once per successful registration; the bootstrap
//! entry made at startup therefore takes identifier 1, and the first
//! client registration takes 2.

use vstd::prelude::*;
use crate::assoc::{
    has_key, lemma_has_key_push, lemma_key_index_is, lemma_push_fresh, uniq_keys, value_of,
};
use crate::messages::AuthError;

verus! {

/// Registered users: username to `(password, id)`, plus the id counter.
pub struct CredentialStore {
    entries: Vec<(String, (String, u64))>,
    next_id: u64,
}

impl CredentialStore {
    /// The abstract contents: `(username, (password, id))` in registration
    /// order.
    pub closed spec fn view(&self) -> Seq<(Seq<char>, (Seq<char>, u64))> {
        self.entries@.map_values(|e: (String, (String, u64))| (e.0@, (e.1.0@, e.1.1)))
    }

    /// The identifier the next successful registration will take.
    pub closed spec fn spec_next_id(&self) -> u64 {
        self.next_id
    }

    /// Usernames are unique, and identifiers are dense from 1 in
    /// registration order, with the counter one past the last.
    pub closed spec fn wf(&self) -> bool {
        &&& uniq_keys(self@)
        &&& self.next_id as int == self@.len() + 1
        &&& forall|i: int| 0 <= i < self@.len() ==> #[trigger] self@[i].1.1 as int == i + 1
    }

    /// An empty store; the counter starts at 1.
    pub fn new() -> (r: CredentialStore)
        ensures
            r.wf(),
            r@ == Seq::<(Seq<char>, (Seq<char>, u64))>::empty(),
            r.spec_next_id() == 1,
    {
        let r = CredentialStore { entries: Vec::new(), next_id: 1 };
        proof {
            assert(r@ =~= Seq::<(Seq<char>, (Seq<char>, u64))>::empty());
        }
        r
    }

    /// The index at which `username` is registered, if it is.
    fn index_of(&self, username: &String) -> (r: Option<usize>)
        requires
            self.wf(),
        ensures
            match r {
                Some(i) => {
                    &&& i < self@.len()
                    &&& self@[i as int].0 == username@
                    &&& has_key(self@, username@)
                    &&& value_of(self@, username@) == self@[i as int].1
                },
                None => !has_key(self@, username@),
            },
    {
        let mut i: usize = 0;
        while i < self.entries.len()
            invariant
                self.wf(),
                i <= self@.len(),
                self@.len() == self.entries@.len(),
                forall|j: int| 0 <= j < i ==> self@[j].0 != username@,
            decreases self@.len() - i,
        {
            if self.entries[i].0 == *username {
                proof {
                    lemma_key_index_is(self@, username@, i as int);
                }
                return Some(i);
            }
            i += 1;
        }
        None
    }

    /// Whether `username` is registered.
    pub fn contains(&self, username: &String) -> (r: bool)
        requires
            self.wf(),
        ensures
            r == has_key(self@, username@),
    {
        self.index_of(username).is_some()
    }

    /// The identifier of `username`, if registered.
    pub fn id_of(&self, username: &String) -> (r: Option<u64>)
        requires
            self.wf(),
        ensures
            r == if has_key(self@, username@) {
                Some(value_of(self@, username@).1)
            } else {
                None::<u64>
            },
    {
        match self.index_of(username) {
            Some(i) => Some(self.entries[i].1.1),
            None => None,
        }
    }

    /// Whether another identifier can still be drawn from the counter.
    /// This is a machine limit, not a policy: `register` asks for it.
    pub fn has_id_capacity(&self) -> (r: bool)
        requires
            self.wf(),
        ensures
            r == (self@.len() + 2 <= u64::MAX),
    {
        self.next_id < u64::MAX
    }

    /// Register `username` under `password`.  Succeeds exactly when the
    /// username is free; the new entry takes the counter's value as its
    /// identifier and the counter advances.  A duplicate username changes
    /// nothing.
    pub fn register(&mut self, username: String, password: String) -> (r: Result<u64, AuthError>)
        requires
            old(self).wf(),
            old(self)@.len() + 2 <= u64::MAX,
        ensures
            final(self).wf(),
            has_key(old(self)@, username@) ==> {
                &&& r == Err::<u64, AuthError>(AuthError::DuplicateUsername)
                &&& *final(self) == *old(self)
            },
            !has_key(old(self)@, username@) ==> {
                &&& r == Ok::<u64, AuthError>(old(self).spec_next_id())
                &&& final(self)@ == old(self)@.push(
                    (username@, (password@, old(self).spec_next_id())),
                )
                &&& final(self).spec_next_id() == old(self).spec_next_id() + 1
            },
    {
        let ghost uname = username@;
        let ghost pw = password@;
        match self.index_of(&username) {
            Some(_) => Err(AuthError::DuplicateUsername),
            None => {
                let id = self.next_id;
                proof {
                    lemma_push_fresh(self@, (uname, (pw, id)), uname);
                }
                self.entries.push((username, (password, id)));
                self.next_id = id + 1;
                proof {
                    assert(self@ =~= old(self)@.push((uname, (pw, id))));
                }
                Ok(id)
            },
        }
    }

    /// Check `password` against the registration of `username`.  This is
    /// the credentials half of login; presence is the server's concern.
    pub fn verify(&self, username: &String, password: &String) -> (r: Result<u64, AuthError>)
        requires
            self.wf(),
        ensures
            !has_key(self@, username@) ==> r == Err::<u64, AuthError>(AuthError::UnknownUser),
            has_key(self@, username@) && value_of(self@, username@).0 != password@ ==> r == Err::<
                u64,
                AuthError,
            >(AuthError::WrongCredentials),
            has_key(self@, username@) && value_of(self@, username@).0 == password@ ==> r == Ok::<
                u64,
                AuthError,
            >(value_of(self@, username@).1),
    {
        match self.index_of(username) {
            Some(i) => {
                if self.entries[i].1.0 == *password {
                    Ok(self.entries[i].1.1)
                } else {
                    Err(AuthError::WrongCredentials)
                }
            },
            None => Err(AuthError::UnknownUser),
        }
    }

    /// Once `register(u, _)` has succeeded — which appends an entry keyed
    /// `u` — the store has the key `u`, so a second `register(u, p2)` is
    /// refused as a duplicate, whatever `p2` is.
    pub proof fn lemma_register_once(
        creds: Seq<(Seq<char>, (Seq<char>, u64))>,
        u: Seq<char>,
        p: Seq<char>,
        id: u64,
    )
        ensures
            has_key(creds.push((u, (p, id))), u),
    {
        lemma_has_key_push(creds, (u, (p, id)), u);
    }

    /// Registration is permanent: an entry keyed `u` survives every later
    /// successful registration, so `register(u, _)` keeps being refused no
    /// matter how many other users register in between.
    pub proof fn lemma_registered_is_permanent(
        creds: Seq<(Seq<char>, (Seq<char>, u64))>,
        e: (Seq<char>, (Seq<char>, u64)),
        u: Seq<char>,
    )
        requires
            has_key(creds, u),
        ensures
            has_key(creds.push(e), u),
    {
        lemma_has_key_push(creds, e, u);
    }
}

} // verus!
