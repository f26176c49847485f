//! Message frames: the flat named-field objects that travel over a
//! connection, reduced to the plain values the router reads and writes.
//!
//! The transport layer turns each inbound text frame into a [`Frame`] and
//! each outbound [`Frame`] back into text; everything between those two
//! edges is verified against the abstract field sequences defined here.

use vstd::prelude::*;
use crate::assoc::{first_val, lemma_first_val_found, lemma_first_val_none};

verus! {

/// The value of one field of a frame, as the router reads it.
#[derive(Debug, PartialEq)]
pub enum FieldValue {
    /// A string.
    Text(String),
    /// A boolean.
    Flag(bool),
    /// A non-negative integer.
    Num(u64),
    /// Any other value, carried verbatim as its serialized text.
    Json(String),
    /// A roster: the `(username, id)` pairs of the currently present users.
    Users(Vec<(String, u64)>),
}

/// The abstract value of a field.
pub enum FieldView {
    Text(Seq<char>),
    Flag(bool),
    Num(u64),
    Json(Seq<char>),
    Users(Seq<(Seq<char>, u64)>),
}

impl View for FieldValue {
    type V = FieldView;

    open spec fn view(&self) -> FieldView {
        match self {
            FieldValue::Text(s) => FieldView::Text(s@),
            FieldValue::Flag(b) => FieldView::Flag(*b),
            FieldValue::Num(n) => FieldView::Num(*n),
            FieldValue::Json(s) => FieldView::Json(s@),
            FieldValue::Users(v) => FieldView::Users(
                v@.map_values(|p: (String, u64)| (p.0@, p.1)),
            ),
        }
    }
}

/// A copy of a `(username, id)` roster with the same entries.
pub fn copy_pairs(v: &Vec<(String, u64)>) -> (r: Vec<(String, u64)>)
    ensures
        r@ == v@,
{
    let mut r: Vec<(String, u64)> = Vec::new();
    let mut i: usize = 0;
    while i < v.len()
        invariant
            i <= v@.len(),
            r@.len() == i,
            forall|j: int| 0 <= j < i ==> r@[j] == v@[j],
        decreases v@.len() - i,
    {
        r.push((v[i].0.clone(), v[i].1));
        i += 1;
    }
    proof {
        assert(r@ =~= v@);
    }
    r
}

impl FieldValue {
    /// A copy with the same abstract value.
    pub fn duplicate(&self) -> (r: FieldValue)
        ensures
            r@ == self@,
    {
        match self {
            FieldValue::Text(s) => FieldValue::Text(s.clone()),
            FieldValue::Flag(b) => FieldValue::Flag(*b),
            FieldValue::Num(n) => FieldValue::Num(*n),
            FieldValue::Json(s) => FieldValue::Json(s.clone()),
            FieldValue::Users(v) => FieldValue::Users(copy_pairs(v)),
        }
    }
}

/// One message, as a flat object: named fields in order.  Field names are
/// not required to be distinct; a lookup takes the first match, as a reader
/// of the serialized object would.
#[derive(Debug, PartialEq)]
pub struct Frame {
    pub fields: Vec<(String, FieldValue)>,
}

impl View for Frame {
    type V = Seq<(Seq<char>, FieldView)>;

    open spec fn view(&self) -> Seq<(Seq<char>, FieldView)> {
        self.fields@.map_values(|e: (String, FieldValue)| (e.0@, e.1@))
    }
}

/// The abstract value of the first field named `k`, when it is a string.
pub open spec fn text_field(fs: Seq<(Seq<char>, FieldView)>, k: Seq<char>) -> Option<Seq<char>> {
    match first_val(fs, k) {
        Some(FieldView::Text(s)) => Some(s),
        _ => None,
    }
}

impl Frame {
    /// An empty frame.
    pub fn new() -> (r: Frame)
        ensures
            r@ == Seq::<(Seq<char>, FieldView)>::empty(),
    {
        let r = Frame { fields: Vec::new() };
        proof {
            assert(r@ =~= Seq::<(Seq<char>, FieldView)>::empty());
        }
        r
    }

    /// Append a field named `name` holding `value`.
    pub fn push_field(&mut self, name: String, value: FieldValue)
        ensures
            final(self)@ == old(self)@.push((name@, value@)),
    {
        let ghost n = name@;
        let ghost v = value@;
        self.fields.push((name, value));
        proof {
            assert(self@ =~= old(self)@.push((n, v)));
        }
    }

    /// The first field named `name`, if any.
    pub fn field(&self, name: &String) -> (r: Option<&FieldValue>)
        ensures
            match r {
                Some(v) => first_val(self@, name@) == Some(v@),
                None => first_val(self@, name@) is None,
            },
    {
        let mut i: usize = 0;
        while i < self.fields.len()
            invariant
                i <= self@.len(),
                self@.len() == self.fields@.len(),
                forall|j: int| 0 <= j < i ==> self@[j].0 != name@,
            decreases self@.len() - i,
        {
            if self.fields[i].0 == *name {
                proof {
                    lemma_first_val_found(self@, name@, i as int);
                }
                return Some(&self.fields[i].1);
            }
            i += 1;
        }
        proof {
            lemma_first_val_none(self@, name@);
        }
        None
    }

    /// The first field named `name`, if it exists and is a string.
    pub fn text(&self, name: &String) -> (r: Option<&String>)
        ensures
            match r {
                Some(s) => text_field(self@, name@) == Some(s@),
                None => text_field(self@, name@) is None,
            },
    {
        match self.field(name) {
            Some(FieldValue::Text(s)) => Some(s),
            _ => None,
        }
    }
}

} // verus!
