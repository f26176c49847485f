//! Specification helpers for association sequences: sequences of
//! `(key, value)` pairs keyed by character sequences.
//!
//! The registry, the credential store and the history store are all backed by
//! vectors of pairs whose abstract contents are such sequences, with unique
//! keys.  Message frames use the same shape without the uniqueness guarantee,
//! so a first-match lookup is defined for them as well.

use vstd::prelude::*;

verus! {

/// Whether some pair of `s` has key `k`.
pub open spec fn has_key<V>(s: Seq<(Seq<char>, V)>, k: Seq<char>) -> bool {
    exists|i: int| 0 <= i < s.len() && s[i].0 == k
}

/// An index of `s` whose pair has key `k` (meaningful when `has_key` holds;
/// unique when `uniq_keys` holds).
pub open spec fn key_index<V>(s: Seq<(Seq<char>, V)>, k: Seq<char>) -> int {
    choose|i: int| 0 <= i < s.len() && s[i].0 == k
}

/// The value bound to key `k` in `s`.
pub open spec fn value_of<V>(s: Seq<(Seq<char>, V)>, k: Seq<char>) -> V
    recommends
        has_key(s, k),
{
    s[key_index(s, k)].1
}

/// All keys of `s` are distinct.
pub open spec fn uniq_keys<V>(s: Seq<(Seq<char>, V)>) -> bool {
    forall|i: int, j: int| 0 <= i < j < s.len() ==> s[i].0 != s[j].0
}

/// The value of the first pair of `s` whose key is `k`, if any.
pub open spec fn first_val<V>(s: Seq<(Seq<char>, V)>, k: Seq<char>) -> Option<V>
    decreases s.len(),
{
    if s.len() == 0 {
        None
    } else if s[0].0 == k {
        Some(s[0].1)
    } else {
        first_val(s.subrange(1, s.len() as int), k)
    }
}

/// Under unique keys, a pair found at any index gives the key's value.
pub proof fn lemma_key_index_is<V>(s: Seq<(Seq<char>, V)>, k: Seq<char>, i: int)
    requires
        uniq_keys(s),
        0 <= i < s.len(),
        s[i].0 == k,
    ensures
        has_key(s, k),
        key_index(s, k) == i,
        value_of(s, k) == s[i].1,
{
    assert(has_key(s, k));
    let j = key_index::<V>(s, k);
    assert(0 <= j < s.len() && s[j].0 == k);
    if i < j {
        assert(s[i].0 != s[j].0);
    } else if j < i {
        assert(s[j].0 != s[i].0);
    }
}

/// How `has_key` behaves across a push.
pub proof fn lemma_has_key_push<V>(s: Seq<(Seq<char>, V)>, e: (Seq<char>, V), k: Seq<char>)
    ensures
        has_key(s.push(e), k) <==> (has_key(s, k) || e.0 == k),
{
    if has_key(s.push(e), k) {
        let i = key_index::<V>(s.push(e), k);
        if i < s.len() {
            assert(s.push(e)[i] == s[i]);
            assert(has_key(s, k));
        } else {
            assert(s.push(e)[i] == e);
        }
    }
    if has_key(s, k) {
        let i = key_index::<V>(s, k);
        assert(s.push(e)[i] == s[i]);
        assert(has_key(s.push(e), k));
    }
    if e.0 == k {
        assert(s.push(e)[s.len() as int] == e);
        assert(has_key(s.push(e), k));
    }
}

/// How `uniq_keys` and `value_of` behave across a push of a fresh key.
pub proof fn lemma_push_fresh<V>(s: Seq<(Seq<char>, V)>, e: (Seq<char>, V), k: Seq<char>)
    requires
        uniq_keys(s),
        !has_key(s, e.0),
    ensures
        uniq_keys(s.push(e)),
        has_key(s.push(e), e.0),
        value_of(s.push(e), e.0) == e.1,
        k != e.0 ==> has_key(s.push(e), k) == has_key(s, k),
        k != e.0 && has_key(s, k) ==> value_of(s.push(e), k) == value_of(s, k),
{
    let t = s.push(e);
    assert forall|i: int, j: int| 0 <= i < j < t.len() implies t[i].0 != t[j].0 by {
        if j < s.len() {
            assert(t[i] == s[i] && t[j] == s[j]);
        } else {
            assert(t[j] == e);
            assert(t[i] == s[i]);
            if s[i].0 == e.0 {
                assert(has_key(s, e.0));
            }
        }
    }
    assert(t[s.len() as int] == e);
    lemma_key_index_is(t, e.0, s.len() as int);
    lemma_has_key_push(s, e, k);
    if k != e.0 && has_key(s, k) {
        let i = key_index::<V>(s, k);
        assert(t[i] == s[i]);
        lemma_key_index_is(t, k, i);
    }
}

/// How `uniq_keys`, `has_key` and `value_of` behave across removing the pair
/// at index `i`.
pub proof fn lemma_remove_key<V>(s: Seq<(Seq<char>, V)>, i: int, k: Seq<char>)
    requires
        uniq_keys(s),
        0 <= i < s.len(),
    ensures
        uniq_keys(s.remove(i)),
        !has_key(s.remove(i), s[i].0),
        k != s[i].0 ==> has_key(s.remove(i), k) == has_key(s, k),
        k != s[i].0 && has_key(s, k) ==> value_of(s.remove(i), k) == value_of(s, k),
{
    let t = s.remove(i);
    assert forall|a: int, b: int| 0 <= a < b < t.len() implies t[a].0 != t[b].0 by {
        let a0: int = if a < i { a } else { a + 1 };
        let b0: int = if b < i { b } else { b + 1 };
        assert(t[a] == s[a0] && t[b] == s[b0]);
    }
    if has_key(t, s[i].0) {
        let a = key_index::<V>(t, s[i].0);
        let a0: int = if a < i { a } else { a + 1 };
        assert(t[a] == s[a0]);
        assert(s[a0].0 == s[i].0);
        if a0 < i {
            assert(s[a0].0 != s[i].0);
        } else {
            assert(s[i].0 != s[a0].0);
        }
    }
    if k != s[i].0 {
        if has_key(t, k) {
            let a = key_index::<V>(t, k);
            let a0: int = if a < i { a } else { a + 1 };
            assert(t[a] == s[a0]);
            assert(has_key(s, k));
        }
        if has_key(s, k) {
            let a0 = key_index::<V>(s, k);
            let a: int = if a0 < i { a0 } else { a0 - 1 };
            assert(a0 != i);
            assert(t[a] == s[a0]);
            assert(has_key(t, k));
            lemma_key_index_is(t, k, a);
            lemma_key_index_is(s, k, a0);
        }
    }
}

/// How `uniq_keys`, `has_key` and `value_of` behave across overwriting the
/// value at index `i` while keeping its key.
pub proof fn lemma_update_value<V>(s: Seq<(Seq<char>, V)>, i: int, v: V, k: Seq<char>)
    requires
        uniq_keys(s),
        0 <= i < s.len(),
    ensures
        uniq_keys(s.update(i, (s[i].0, v))),
        has_key(s.update(i, (s[i].0, v)), k) == has_key(s, k),
        has_key(s, k) && k == s[i].0 ==> value_of(s.update(i, (s[i].0, v)), k) == v,
        has_key(s, k) && k != s[i].0 ==> value_of(s.update(i, (s[i].0, v)), k) == value_of(s, k),
{
    let t = s.update(i, (s[i].0, v));
    assert(forall|a: int| 0 <= a < s.len() ==> t[a].0 == s[a].0);
    assert forall|a: int, b: int| 0 <= a < b < t.len() implies t[a].0 != t[b].0 by {
        assert(s[a].0 != s[b].0);
    }
    if has_key(s, k) {
        let a = key_index::<V>(s, k);
        assert(t[a].0 == k);
        assert(has_key(t, k));
        if k == s[i].0 {
            lemma_key_index_is(s, k, i);
            assert(t[i] == (s[i].0, v));
            lemma_key_index_is(t, k, i);
        } else {
            assert(a != i);
            assert(t[a] == s[a]);
            lemma_key_index_is(t, k, a);
        }
    }
    if has_key(t, k) {
        let a = key_index::<V>(t, k);
        assert(s[a].0 == k);
        assert(has_key(s, k));
    }
}

/// Advancing a first-match scan past non-matching pairs keeps the result.
pub proof fn lemma_first_val_skip<V>(s: Seq<(Seq<char>, V)>, k: Seq<char>, i: int)
    requires
        0 <= i <= s.len(),
        forall|j: int| 0 <= j < i ==> s[j].0 != k,
    ensures
        first_val(s, k) == first_val(s.subrange(i, s.len() as int), k),
    decreases i,
{
    if i == 0 {
        assert(s.subrange(0, s.len() as int) =~= s);
    } else {
        lemma_first_val_skip(s, k, i - 1);
        let t = s.subrange(i - 1, s.len() as int);
        assert(t[0] == s[i - 1]);
        assert(t[0].0 != k);
        assert(t.subrange(1, t.len() as int) =~= s.subrange(i, s.len() as int));
    }
}

/// A first-match scan that finds `k` at index `i`, having seen no earlier
/// match, yields the value at `i`.
pub proof fn lemma_first_val_found<V>(s: Seq<(Seq<char>, V)>, k: Seq<char>, i: int)
    requires
        0 <= i < s.len(),
        forall|j: int| 0 <= j < i ==> s[j].0 != k,
        s[i].0 == k,
    ensures
        first_val(s, k) == Some(s[i].1),
{
    lemma_first_val_skip(s, k, i);
    let t = s.subrange(i, s.len() as int);
    assert(t[0] == s[i]);
}

/// A first-match scan that finds no match yields `None`.
pub proof fn lemma_first_val_none<V>(s: Seq<(Seq<char>, V)>, k: Seq<char>)
    requires
        forall|j: int| 0 <= j < s.len() ==> s[j].0 != k,
    ensures
        first_val(s, k) == None::<V>,
{
    lemma_first_val_skip(s, k, s.len() as int);
    assert(s.subrange(s.len() as int, s.len() as int) =~= Seq::<(Seq<char>, V)>::empty());
}

} // verus!
