//! The connection registry: the single source of truth for which users are
//! currently reachable, as a binding from username to the identifier of that
//! connection's outbound channel.
//!
//! At most one binding exists per username; a `bind` for an already-present
//! username is refused rather than silently overwriting, so a stale
//! connection can never be orphaned by a newer one.

use vstd::prelude::*;
use crate::assoc::{
    has_key, key_index, lemma_has_key_push, lemma_key_index_is, lemma_push_fresh,
    lemma_remove_key, uniq_keys, value_of,
};

verus! {

/// Live bindings from username to outbound-channel identifier.
pub struct Registry {
    entries: Vec<(String, u64)>,
}

impl Registry {
    /// The abstract contents: the bound `(username, channel)` pairs, in
    /// binding order.
    pub closed spec fn view(&self) -> Seq<(Seq<char>, u64)> {
        self.entries@.map_values(|e: (String, u64)| (e.0@, e.1))
    }

    /// Usernames are bound at most once.
    pub closed spec fn wf(&self) -> bool {
        uniq_keys(self@)
    }

    /// An empty registry.
    pub fn new() -> (r: Registry)
        ensures
            r.wf(),
            r@ == Seq::<(Seq<char>, u64)>::empty(),
    {
        let r = Registry { entries: Vec::new() };
        proof {
            assert(r@ =~= Seq::<(Seq<char>, u64)>::empty());
        }
        r
    }

    /// The index at which `username` is bound, if it is.
    fn index_of(&self, username: &String) -> (r: Option<usize>)
        requires
            self.wf(),
        ensures
            match r {
                Some(i) => {
                    &&& i < self@.len()
                    &&& self@[i as int].0 == username@
                    &&& has_key(self@, username@)
                    &&& key_index(self@, username@) == i
                },
                None => !has_key(self@, username@),
            },
    {
        let mut i: usize = 0;
        while i < self.entries.len()
            invariant
                self.wf(),
                i <= self@.len(),
                self@.len() == self.entries@.len(),
                forall|j: int| 0 <= j < i ==> self@[j].0 != username@,
            decreases self@.len() - i,
        {
            if self.entries[i].0 == *username {
                proof {
                    lemma_key_index_is(self@, username@, i as int);
                }
                return Some(i);
            }
            i += 1;
        }
        None
    }

    /// Bind `username` to channel `chan`.  Succeeds exactly when the
    /// username is not already present; on success the binding is appended,
    /// and nothing else changes.
    pub fn bind(&mut self, username: String, chan: u64) -> (r: bool)
        requires
            old(self).wf(),
        ensures
            final(self).wf(),
            r == !has_key(old(self)@, username@),
            r ==> final(self)@ == old(self)@.push((username@, chan)),
            !r ==> final(self)@ == old(self)@,
    {
        let ghost uname = username@;
        match self.index_of(&username) {
            Some(_) => false,
            None => {
                proof {
                    lemma_push_fresh(self@, (uname, chan), uname);
                }
                self.entries.push((username, chan));
                proof {
                    assert(self@ =~= old(self)@.push((uname, chan)));
                }
                true
            },
        }
    }

    /// Remove the binding for `username`, if any.  Returns whether one was
    /// removed; when the username is not present this is a no-op.
    pub fn unbind(&mut self, username: &String) -> (r: bool)
        requires
            old(self).wf(),
        ensures
            final(self).wf(),
            r == has_key(old(self)@, username@),
            !r ==> final(self)@ == old(self)@,
            r ==> final(self)@ == old(self)@.remove(key_index(old(self)@, username@)),
            !has_key(final(self)@, username@),
            forall|k: Seq<char>| k != username@ ==>
                has_key(final(self)@, k) == has_key(old(self)@, k),
            forall|k: Seq<char>| k != username@ && has_key(old(self)@, k) ==>
                value_of(final(self)@, k) == value_of(old(self)@, k),
    {
        match self.index_of(username) {
            Some(i) => {
                self.entries.remove(i);
                proof {
                    assert(self@ =~= old(self)@.remove(i as int));
                    assert forall|k: Seq<char>| k != username@ implies
                        has_key(self@, k) == has_key(old(self)@, k) by {
                        lemma_remove_key(old(self)@, i as int, k);
                    }
                    assert forall|k: Seq<char>| k != username@ && has_key(old(self)@, k) implies
                        value_of(self@, k) == value_of(old(self)@, k) by {
                        lemma_remove_key(old(self)@, i as int, k);
                    }
                    lemma_remove_key(old(self)@, i as int, username@);
                }
                true
            },
            None => false,
        }
    }

    /// The channel `username` is bound to, if present.
    pub fn lookup(&self, username: &String) -> (r: Option<u64>)
        requires
            self.wf(),
        ensures
            r == if has_key(self@, username@) {
                Some(value_of(self@, username@))
            } else {
                None::<u64>
            },
    {
        match self.index_of(username) {
            Some(i) => Some(self.entries[i].1),
            None => None,
        }
    }

    /// How many users are present.
    pub fn len(&self) -> (r: usize)
        ensures
            r == self@.len(),
    {
        self.entries.len()
    }

    /// The username of the `i`-th binding.
    pub fn name_at(&self, i: usize) -> (r: String)
        requires
            i < self@.len(),
        ensures
            r@ == self@[i as int].0,
    {
        self.entries[i].0.clone()
    }

    /// The channel of the `i`-th binding.
    pub fn chan_at(&self, i: usize) -> (r: u64)
        requires
            i < self@.len(),
        ensures
            r == self@[i as int].1,
    {
        self.entries[i].1
    }

    /// A copy of every current binding, in binding order, for broadcast.
    pub fn snapshot(&self) -> (r: Vec<(String, u64)>)
        ensures
            r@.map_values(|e: (String, u64)| (e.0@, e.1)) == self@,
    {
        let mut r: Vec<(String, u64)> = Vec::new();
        let mut i: usize = 0;
        while i < self.entries.len()
            invariant
                i <= self@.len(),
                self@.len() == self.entries@.len(),
                r@.len() == i,
                forall|j: int| 0 <= j < i ==> r@.map_values(
                    |e: (String, u64)| (e.0@, e.1),
                )[j] == self@[j],
            decreases self@.len() - i,
        {
            r.push((self.entries[i].0.clone(), self.entries[i].1));
            i += 1;
        }
        proof {
            assert(r@.map_values(|e: (String, u64)| (e.0@, e.1)) =~= self@);
        }
        r
    }

    /// Once `bind(u, _)` has succeeded, the registry has an entry for `u`,
    /// so a second `bind(u, _)` — from any other connection — is refused
    /// until `u` is unbound: at most one presence per username can ever be
    /// won from the same starting state.
    pub proof fn lemma_bind_excludes_second(reg: Seq<(Seq<char>, u64)>, u: Seq<char>, chan: u64)
        ensures
            has_key(reg.push((u, chan)), u),
    {
        lemma_has_key_push(reg, (u, chan), u);
    }
}

} // verus!
