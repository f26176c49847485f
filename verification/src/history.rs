//! The history store: one record per username, holding that user's past
//! conversation verbatim.  A write replaces the whole record; a read hands
//! back a copy for replay.  The payload is content-opaque to the router.

use vstd::prelude::*;
use crate::assoc::{
    has_key, key_index, lemma_key_index_is, lemma_push_fresh, lemma_update_value, uniq_keys,
    value_of,
};
use crate::fields::{FieldValue, FieldView};

verus! {

/// What a read of `u` yields on contents `m`: the record, if one exists.
pub open spec fn spec_read(m: Seq<(Seq<char>, FieldView)>, u: Seq<char>) -> Option<FieldView> {
    if has_key(m, u) {
        Some(value_of(m, u))
    } else {
        None
    }
}

/// What a write of `p` under `u` does to contents `m`: overwrite the
/// record of `u` if one exists, else append one.
pub open spec fn spec_write(
    m: Seq<(Seq<char>, FieldView)>,
    u: Seq<char>,
    p: FieldView,
) -> Seq<(Seq<char>, FieldView)> {
    if has_key(m, u) {
        m.update(key_index(m, u), (u, p))
    } else {
        m.push((u, p))
    }
}

/// Per-user history records.
pub struct HistoryStore {
    records: Vec<(String, FieldValue)>,
}

impl HistoryStore {
    /// The abstract contents: `(username, record)` pairs.
    pub closed spec fn view(&self) -> Seq<(Seq<char>, FieldView)> {
        self.records@.map_values(|e: (String, FieldValue)| (e.0@, e.1@))
    }

    /// At most one record per username.
    pub closed spec fn wf(&self) -> bool {
        uniq_keys(self@)
    }

    /// An empty store.
    pub fn new() -> (r: HistoryStore)
        ensures
            r.wf(),
            r@ == Seq::<(Seq<char>, FieldView)>::empty(),
    {
        let r = HistoryStore { records: Vec::new() };
        proof {
            assert(r@ =~= Seq::<(Seq<char>, FieldView)>::empty());
        }
        r
    }

    /// The index of the record of `username`, if one exists.
    fn index_of(&self, username: &String) -> (r: Option<usize>)
        requires
            self.wf(),
        ensures
            match r {
                Some(i) => {
                    &&& i < self@.len()
                    &&& self@[i as int].0 == username@
                    &&& has_key(self@, username@)
                    &&& key_index(self@, username@) == i
                },
                None => !has_key(self@, username@),
            },
    {
        let mut i: usize = 0;
        while i < self.records.len()
            invariant
                self.wf(),
                i <= self@.len(),
                self@.len() == self.records@.len(),
                forall|j: int| 0 <= j < i ==> self@[j].0 != username@,
            decreases self@.len() - i,
        {
            if self.records[i].0 == *username {
                proof {
                    lemma_key_index_is(self@, username@, i as int);
                }
                return Some(i);
            }
            i += 1;
        }
        None
    }

    /// Replace or create the record of `username` with `payload`.
    pub fn write(&mut self, username: String, payload: FieldValue)
        requires
            old(self).wf(),
        ensures
            final(self).wf(),
            final(self)@ == spec_write(old(self)@, username@, payload@),
            spec_read(final(self)@, username@) == Some(payload@),
            forall|k: Seq<char>| k != username@ ==> spec_read(final(self)@, k) == spec_read(
                old(self)@,
                k,
            ),
    {
        let ghost uname = username@;
        let ghost pv = payload@;
        match self.index_of(&username) {
            Some(i) => {
                proof {
                    assert(old(self)@[i as int] == (uname, old(self)@[i as int].1));
                }
                self.records[i] = (username, payload);
                proof {
                    assert(self@ =~= old(self)@.update(i as int, (uname, pv)));
                    lemma_update_value(old(self)@, i as int, pv, uname);
                    assert forall|k: Seq<char>| k != uname implies spec_read(self@, k)
                        == spec_read(old(self)@, k) by {
                        lemma_update_value(old(self)@, i as int, pv, k);
                    }
                }
            },
            None => {
                proof {
                    lemma_push_fresh(self@, (uname, pv), uname);
                }
                self.records.push((username, payload));
                proof {
                    assert(self@ =~= old(self)@.push((uname, pv)));
                    assert forall|k: Seq<char>| k != uname implies spec_read(self@, k)
                        == spec_read(old(self)@, k) by {
                        lemma_push_fresh(old(self)@, (uname, pv), k);
                    }
                }
            },
        }
    }

    /// A copy of the record of `username`, if one exists.
    pub fn read(&self, username: &String) -> (r: Option<FieldValue>)
        requires
            self.wf(),
        ensures
            match r {
                Some(p) => spec_read(self@, username@) == Some(p@),
                None => spec_read(self@, username@) is None,
            },
    {
        match self.index_of(username) {
            Some(i) => Some(self.records[i].1.duplicate()),
            None => None,
        }
    }

    /// History round-trip: writing `p` under `u` and then reading `u`
    /// yields exactly `p`, and reading any other username yields what it
    /// would have yielded before the write.
    pub proof fn lemma_history_round_trip(
        m: Seq<(Seq<char>, FieldView)>,
        u: Seq<char>,
        p: FieldView,
    )
        requires
            uniq_keys(m),
        ensures
            spec_read(spec_write(m, u, p), u) == Some(p),
            forall|k: Seq<char>| k != u ==> spec_read(spec_write(m, u, p), k) == spec_read(m, k),
    {
        if has_key(m, u) {
            let i = key_index(m, u);
            assert(m[i] == (u, m[i].1));
            lemma_update_value(m, i, p, u);
            assert forall|k: Seq<char>| k != u implies spec_read(spec_write(m, u, p), k)
                == spec_read(m, k) by {
                lemma_update_value(m, i, p, k);
            }
        } else {
            lemma_push_fresh(m, (u, p), u);
            assert forall|k: Seq<char>| k != u implies spec_read(spec_write(m, u, p), k)
                == spec_read(m, k) by {
                lemma_push_fresh(m, (u, p), k);
            }
        }
    }
}

} // verus!
