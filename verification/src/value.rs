//! The runtime values of the language.

use crate::kind::{Kind, ValueKind};
use vstd::prelude::*;

verus! {

/// A runtime value. A float is held by its bit pattern and a timestamp by
/// its distance from the epoch in nanoseconds.
#[derive(Debug, PartialEq, Eq)]
pub enum Value {
    Bytes(Vec<u8>),
    Integer(i64),
    Float(u64),
    Boolean(bool),
    Timestamp(i64),
    Regex(String),
    Null,
    Array(Vec<Value>),
    Object(Vec<(String, Value)>),
}

/// What a [`Value`] stands for.
pub enum ValueModel {
    Bytes(Seq<u8>),
    Integer(i64),
    Float(u64),
    Boolean(bool),
    Timestamp(i64),
    Regex(Seq<char>),
    Null,
    Array(Seq<ValueModel>),
    Object(Seq<(Seq<char>, ValueModel)>),
}

impl ValueModel {
    pub open spec fn kind(self) -> ValueKind {
        match self {
            ValueModel::Bytes(_) => ValueKind::Bytes,
            ValueModel::Integer(_) => ValueKind::Integer,
            ValueModel::Float(_) => ValueKind::Float,
            ValueModel::Boolean(_) => ValueKind::Boolean,
            ValueModel::Timestamp(_) => ValueKind::Timestamp,
            ValueModel::Regex(_) => ValueKind::Regex,
            ValueModel::Null => ValueKind::Null,
            ValueModel::Array(_) => ValueKind::Array,
            ValueModel::Object(_) => ValueKind::Object,
        }
    }
}

/// A value was not of the kind that an accessor asked for.
#[derive(Clone, Copy, Debug, PartialEq, Eq, Structural)]
pub struct ValueError {
    pub expected: Kind,
    pub got: Kind,
}

impl ValueError {
    /// The error of asking for `expected` where the value is of kind `got`.
    pub open spec fn mismatch(expected: ValueKind, got: ValueKind) -> ValueError {
        ValueError { expected: Kind { bits: expected.mask() }, got: Kind { bits: got.mask() } }
    }
}

impl View for Value {
    type V = ValueModel;

    open spec fn view(&self) -> ValueModel
        decreases self,
    {
        match self {
            Value::Bytes(b) => ValueModel::Bytes(b@),
            Value::Integer(i) => ValueModel::Integer(*i),
            Value::Float(f) => ValueModel::Float(*f),
            Value::Boolean(b) => ValueModel::Boolean(*b),
            Value::Timestamp(t) => ValueModel::Timestamp(*t),
            Value::Regex(r) => ValueModel::Regex(r@),
            Value::Null => ValueModel::Null,
            Value::Array(items) => ValueModel::Array(
                Seq::new(
                    items@.len(),
                    |i: int|
                        if 0 <= i < items@.len() {
                            items@[i].view()
                        } else {
                            ValueModel::Null
                        },
                ),
            ),
            Value::Object(fields) => ValueModel::Object(
                Seq::new(
                    fields@.len(),
                    |i: int|
                        if 0 <= i < fields@.len() {
                            (fields@[i].0@, fields@[i].1.view())
                        } else {
                            (Seq::empty(), ValueModel::Null)
                        },
                ),
            ),
        }
    }
}

impl Clone for Value {
    /// A deep copy: the result stands for the same value.
    fn clone(&self) -> (r: Value)
        ensures
            r@ == self@,
        decreases self,
    {
        match self {
            Value::Bytes(b) => {
                Value::Bytes(b.clone())
            },
            Value::Integer(i) => Value::Integer(*i),
            Value::Float(f) => Value::Float(*f),
            Value::Boolean(b) => Value::Boolean(*b),
            Value::Timestamp(t) => Value::Timestamp(*t),
            Value::Regex(r) => Value::Regex(r.clone()),
            Value::Null => Value::Null,
            Value::Array(items) => {
                let mut out: Vec<Value> = Vec::new();
                let mut i: usize = 0;
                while i < items.len()
                    invariant
                        *self is Array && self->Array_0 == *items,
                        i <= items.len(),
                        out.len() == i,
                        forall|j: int| 0 <= j < i ==> out@[j]@ == items@[j]@,
                    decreases items.len() - i,
                {
                    let item = items[i].clone();
                    out.push(item);
                    i += 1;
                }
                let r = Value::Array(out);
                proof {
                    assert(r@->Array_0 =~= self@->Array_0);
                }
                r
            },
            Value::Object(fields) => {
                let mut out: Vec<(String, Value)> = Vec::new();
                let mut i: usize = 0;
                while i < fields.len()
                    invariant
                        *self is Object && self->Object_0 == *fields,
                        i <= fields.len(),
                        out.len() == i,
                        forall|j: int|
                            0 <= j < i ==> out@[j].0@ == fields@[j].0@ && out@[j].1@
                                == fields@[j].1@,
                    decreases fields.len() - i,
                {
                    let key = fields[i].0.clone();
                    let item = fields[i].1.clone();
                    out.push((key, item));
                    i += 1;
                }
                let r = Value::Object(out);
                proof {
                    assert(r@->Object_0 =~= self@->Object_0);
                }
                r
            },
        }
    }
}

impl Value {
    /// The variant of this value.
    pub fn kind(&self) -> (k: ValueKind)
        ensures
            k == self@.kind(),
    {
        match self {
            Value::Bytes(_) => ValueKind::Bytes,
            Value::Integer(_) => ValueKind::Integer,
            Value::Float(_) => ValueKind::Float,
            Value::Boolean(_) => ValueKind::Boolean,
            Value::Timestamp(_) => ValueKind::Timestamp,
            Value::Regex(_) => ValueKind::Regex,
            Value::Null => ValueKind::Null,
            Value::Array(_) => ValueKind::Array,
            Value::Object(_) => ValueKind::Object,
        }
    }

    /// The bytes of a `Bytes` value; of any other, the mismatch.
    pub fn try_bytes(self) -> (r: Result<Vec<u8>, ValueError>)
        ensures
            match r {
                Ok(b) => self@ == ValueModel::Bytes(b@),
                Err(e) => self@.kind() != ValueKind::Bytes && e == ValueError::mismatch(
                    ValueKind::Bytes,
                    self@.kind(),
                ),
            },
    {
        match self {
            Value::Bytes(b) => Ok(b),
            other => Err(
                ValueError { expected: Kind::of(ValueKind::Bytes), got: Kind::of(other.kind()) },
            ),
        }
    }

    /// The number of an `Integer` value; of any other, the mismatch.
    pub fn try_integer(self) -> (r: Result<i64, ValueError>)
        ensures
            match r {
                Ok(i) => self@ == ValueModel::Integer(i),
                Err(e) => self@.kind() != ValueKind::Integer && e == ValueError::mismatch(
                    ValueKind::Integer,
                    self@.kind(),
                ),
            },
    {
        match self {
            Value::Integer(i) => Ok(i),
            other => Err(
                ValueError { expected: Kind::of(ValueKind::Integer), got: Kind::of(other.kind()) },
            ),
        }
    }

    /// The truth value of a `Boolean` value; of any other, the mismatch.
    pub fn try_boolean(self) -> (r: Result<bool, ValueError>)
        ensures
            match r {
                Ok(b) => self@ == ValueModel::Boolean(b),
                Err(e) => self@.kind() != ValueKind::Boolean && e == ValueError::mismatch(
                    ValueKind::Boolean,
                    self@.kind(),
                ),
            },
    {
        match self {
            Value::Boolean(b) => Ok(b),
            other => Err(
                ValueError { expected: Kind::of(ValueKind::Boolean), got: Kind::of(other.kind()) },
            ),
        }
    }
}

} // verus!
