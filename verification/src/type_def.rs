//! What is known of an expression before it runs.

use crate::kind::{Kind, ValueKind};
use vstd::prelude::*;

verus! {

/// The kinds of value that an expression may yield, and whether resolving it
/// may end in an error instead.
#[derive(Clone, Copy, Debug, PartialEq, Eq, Structural)]
pub struct TypeDef {
    pub kind: Kind,
    pub fallible: bool,
}

/// The facts that compilation has gathered so far: the kinds of value that
/// the event handed to the program may be of.
#[derive(Clone, Copy, Debug, PartialEq, Eq, Structural)]
pub struct TypeState {
    pub target: Kind,
}

impl TypeDef {
    /// The infallible definition over exactly the kind `k`.
    pub open spec fn exactly(k: ValueKind) -> TypeDef {
        TypeDef { kind: Kind { bits: k.mask() }, fallible: false }
    }

    /// An infallible definition over the given kinds.
    pub fn new(kind: Kind) -> (r: TypeDef)
        ensures
            r == (TypeDef { kind, fallible: false }),
    {
        TypeDef { kind, fallible: false }
    }

    pub fn bytes() -> (r: TypeDef)
        ensures
            r == TypeDef::exactly(ValueKind::Bytes),
            r.kind@ == set![ValueKind::Bytes],
    {
        TypeDef { kind: Kind::bytes(), fallible: false }
    }

    pub fn integer() -> (r: TypeDef)
        ensures
            r == TypeDef::exactly(ValueKind::Integer),
            r.kind@ == set![ValueKind::Integer],
    {
        TypeDef { kind: Kind::integer(), fallible: false }
    }

    pub fn boolean() -> (r: TypeDef)
        ensures
            r == TypeDef::exactly(ValueKind::Boolean),
            r.kind@ == set![ValueKind::Boolean],
    {
        TypeDef { kind: Kind::boolean(), fallible: false }
    }

    /// Any kind of value, infallibly.
    pub fn any() -> (r: TypeDef)
        ensures
            r.kind@ == Set::<ValueKind>::full(),
            !r.fallible,
    {
        TypeDef { kind: Kind::any(), fallible: false }
    }

    /// The same kinds, with the promise that resolution does not fail.
    pub fn infallible(self) -> (r: TypeDef)
        ensures
            r == (TypeDef { kind: self.kind, fallible: false }),
    {
        TypeDef { kind: self.kind, fallible: false }
    }

    /// The same kinds, without the promise that resolution does not fail.
    pub fn fallible(self) -> (r: TypeDef)
        ensures
            r == (TypeDef { kind: self.kind, fallible: true }),
    {
        TypeDef { kind: self.kind, fallible: true }
    }

    pub fn is_fallible(self) -> (r: bool)
        ensures
            r == self.fallible,
    {
        self.fallible
    }

    /// What is known of an expression that yields what either of two
    /// expressions yields: the kinds of both, fallible if either is.
    pub fn union(self, other: TypeDef) -> (r: TypeDef)
        ensures
            r.kind@ == self.kind@.union(other.kind@),
            r.fallible == (self.fallible || other.fallible),
    {
        TypeDef { kind: self.kind.union(other.kind), fallible: self.fallible || other.fallible }
    }

    /// What is known of an operation that yields `self` once its argument,
    /// described by `argument`, has resolved: failure of the argument is
    /// failure of the whole.
    pub fn after(self, argument: TypeDef) -> (r: TypeDef)
        ensures
            r == (TypeDef { kind: self.kind, fallible: self.fallible || argument.fallible }),
    {
        TypeDef { kind: self.kind, fallible: self.fallible || argument.fallible }
    }
}

} // verus!
