//! Scalar values and key-value pairs.

use vstd::prelude::*;
use vstd::std_specs::cmp::PartialEqSpecImpl;
use vstd::std_specs::convert::FromSpecImpl;

verus! {

/// What a [`Value`] stands for in contracts.
pub ghost enum ValueView {
    Empty,
    Integer(i64),
    Float(u64),
    Text(Seq<char>),
    Binary(Seq<u8>),
}

/// What a [`Kvpair`] stands for in contracts: its key and its value.
pub type PairView = (Seq<char>, ValueView);

/// A scalar stored under a key. Exactly one variant is active.
///
/// A floating-point number is held as the 64 bits of its IEEE 754 encoding.
#[derive(Debug, Eq, PartialOrd, Ord, Hash)]
pub enum Value {
    Empty,
    Integer(i64),
    Float(u64),
    Text(String),
    Binary(Vec<u8>),
}

impl View for Value {
    type V = ValueView;

    open spec fn view(&self) -> ValueView {
        match self {
            Value::Empty => ValueView::Empty,
            Value::Integer(n) => ValueView::Integer(*n),
            Value::Float(bits) => ValueView::Float(*bits),
            Value::Text(s) => ValueView::Text(s@),
            Value::Binary(b) => ValueView::Binary(b@),
        }
    }
}

impl Clone for Value {
    fn clone(&self) -> (copy: Value)
        ensures
            copy@ == self@,
    {
        match self {
            Value::Empty => Value::Empty,
            Value::Integer(n) => Value::Integer(*n),
            Value::Float(bits) => Value::Float(*bits),
            Value::Text(s) => Value::Text(s.clone()),
            Value::Binary(b) => {
                let mut bytes: Vec<u8> = Vec::new();
                let mut i: usize = 0;
                while i < b.len()
                    invariant
                        i <= b.len(),
                        bytes@ == b@.subrange(0, i as int),
                    decreases b.len() - i,
                {
                    bytes.push(b[i]);
                    i += 1;
                    assert(bytes@ =~= b@.subrange(0, i as int));
                }
                assert(bytes@ =~= b@);
                Value::Binary(bytes)
            }
        }
    }
}

/// Whether two byte strings hold the same bytes in the same order.
fn same_bytes(a: &Vec<u8>, b: &Vec<u8>) -> (same: bool)
    ensures
        same == (a@ == b@),
{
    if a.len() != b.len() {
        return false;
    }
    let mut i: usize = 0;
    while i < a.len()
        invariant
            a.len() == b.len(),
            i <= a.len(),
            a@.subrange(0, i as int) == b@.subrange(0, i as int),
        decreases a.len() - i,
    {
        if a[i] != b[i] {
            return false;
        }
        i += 1;
        assert(a@.subrange(0, i as int) =~= a@.subrange(0, i - 1).push(a@[i - 1]));
        assert(b@.subrange(0, i as int) =~= b@.subrange(0, i - 1).push(b@[i - 1]));
    }
    assert(a@ =~= a@.subrange(0, i as int));
    assert(b@ =~= b@.subrange(0, i as int));
    true
}

impl PartialEq for Value {
    fn eq(&self, other: &Value) -> (same: bool) {
        match (self, other) {
            (Value::Empty, Value::Empty) => true,
            (Value::Integer(a), Value::Integer(b)) => *a == *b,
            (Value::Float(a), Value::Float(b)) => *a == *b,
            (Value::Text(a), Value::Text(b)) => *a == *b,
            (Value::Binary(a), Value::Binary(b)) => same_bytes(a, b),
            _ => false,
        }
    }
}

impl PartialEqSpecImpl for Value {
    open spec fn obeys_eq_spec() -> bool {
        true
    }

    open spec fn eq_spec(&self, other: &Value) -> bool {
        self@ == other@
    }
}

impl Default for Value {
    fn default() -> (value: Value)
        ensures
            value@ == ValueView::Empty,
    {
        Value::Empty
    }
}

impl Value {
    /// The string value that holds the characters of `s`.
    pub fn text(s: &str) -> (value: Value)
        ensures
            value@ == ValueView::Text(s@),
    {
        Value::Text(s.to_owned())
    }

    /// The integer value `n`.
    pub fn integer(n: i64) -> (value: Value)
        ensures
            value@ == ValueView::Integer(n),
    {
        Value::Integer(n)
    }
}

impl From<i64> for Value {
    fn from(n: i64) -> (value: Value) {
        Value::Integer(n)
    }
}

impl FromSpecImpl<i64> for Value {
    open spec fn obeys_from_spec() -> bool {
        true
    }

    open spec fn from_spec(n: i64) -> Value {
        Value::Integer(n)
    }
}

impl<'a> From<&'a str> for Value {
    /// The string value that holds the characters of `s`.
    fn from(s: &'a str) -> (value: Value)
        ensures
            value@ == ValueView::Text(s@),
    {
        Value::text(s)
    }
}

impl<'a> FromSpecImpl<&'a str> for Value {
    open spec fn obeys_from_spec() -> bool {
        false
    }

    open spec fn from_spec(s: &'a str) -> Value {
        arbitrary()
    }
}

impl From<String> for Value {
    fn from(s: String) -> (value: Value) {
        Value::Text(s)
    }
}

impl FromSpecImpl<String> for Value {
    open spec fn obeys_from_spec() -> bool {
        true
    }

    open spec fn from_spec(s: String) -> Value {
        Value::Text(s)
    }
}

/// A key together with the value stored under it.
#[derive(Debug, Eq, PartialOrd, Ord, Hash)]
pub struct Kvpair {
    pub key: String,
    pub value: Value,
}

impl View for Kvpair {
    type V = PairView;

    open spec fn view(&self) -> PairView {
        (self.key@, self.value@)
    }
}

impl Clone for Kvpair {
    fn clone(&self) -> (copy: Kvpair)
        ensures
            copy@ == self@,
    {
        Kvpair { key: self.key.clone(), value: self.value.clone() }
    }
}

impl PartialEq for Kvpair {
    fn eq(&self, other: &Kvpair) -> (same: bool) {
        self.key == other.key && self.value == other.value
    }
}

impl PartialEqSpecImpl for Kvpair {
    open spec fn obeys_eq_spec() -> bool {
        true
    }

    open spec fn eq_spec(&self, other: &Kvpair) -> bool {
        self@ == other@
    }
}

impl Kvpair {
    /// The pair of `key` and `value`.
    pub fn new(key: &str, value: Value) -> (pair: Kvpair)
        ensures
            pair@ == (key@, value@),
    {
        Kvpair { key: key.to_owned(), value }
    }
}

/// The views of a sequence of values, in order.
pub open spec fn values_view(values: Seq<Value>) -> Seq<ValueView> {
    Seq::new(values.len(), |i: int| values[i]@)
}

/// The views of a sequence of pairs, in order.
pub open spec fn pairs_view(pairs: Seq<Kvpair>) -> Seq<PairView> {
    Seq::new(pairs.len(), |i: int| pairs[i]@)
}

} // verus!
