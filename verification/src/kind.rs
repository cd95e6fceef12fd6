//! Kinds of value, and sets of kinds held in one machine word.

use vstd::prelude::*;

verus! {

/// The variant that a runtime value belongs to.
#[derive(Clone, Copy, Debug, PartialEq, Eq, Structural)]
pub enum ValueKind {
    Bytes,
    Integer,
    Float,
    Boolean,
    Timestamp,
    Regex,
    Null,
    Array,
    Object,
}

impl ValueKind {
    /// The single bit that stands for this variant in a [`Kind`].
    pub open spec fn mask(self) -> u16 {
        match self {
            ValueKind::Bytes => 0x001,
            ValueKind::Integer => 0x002,
            ValueKind::Float => 0x004,
            ValueKind::Boolean => 0x008,
            ValueKind::Timestamp => 0x010,
            ValueKind::Regex => 0x020,
            ValueKind::Null => 0x040,
            ValueKind::Array => 0x080,
            ValueKind::Object => 0x100,
        }
    }

    /// True of the nine masks and of nothing else.
    pub open spec fn is_mask(m: u16) -> bool {
        m == 0x001 || m == 0x002 || m == 0x004 || m == 0x008 || m == 0x010 || m == 0x020
            || m == 0x040 || m == 0x080 || m == 0x100
    }

    pub fn bit(self) -> (m: u16)
        ensures
            m == self.mask(),
            Self::is_mask(m),
    {
        match self {
            ValueKind::Bytes => 0x001,
            ValueKind::Integer => 0x002,
            ValueKind::Float => 0x004,
            ValueKind::Boolean => 0x008,
            ValueKind::Timestamp => 0x010,
            ValueKind::Regex => 0x020,
            ValueKind::Null => 0x040,
            ValueKind::Array => 0x080,
            ValueKind::Object => 0x100,
        }
    }
}

/// A set of value kinds. Only the nine low bits carry meaning.
#[derive(Clone, Copy, Debug, PartialEq, Eq, Structural)]
pub struct Kind {
    pub bits: u16,
}

pub const ALL_KINDS: u16 = 0x1FF;

impl View for Kind {
    type V = Set<ValueKind>;

    open spec fn view(&self) -> Set<ValueKind> {
        Set::new(|k: ValueKind| self.bits & k.mask() != 0)
    }
}

impl Kind {
    /// The set that holds `k` and nothing else.
    pub fn of(k: ValueKind) -> (r: Kind)
        ensures
            r@ == set![k],
            r.bits == k.mask(),
    {
        let m: u16 = k.bit();
        proof {
            Self::lemma_mask_is_singleton(k);
        }
        Kind { bits: m }
    }

    /// The word that holds the mask of `k` alone stands for the set of `k`
    /// alone.
    pub proof fn lemma_mask_is_singleton(k: ValueKind)
        ensures
            (Kind { bits: k.mask() })@ == set![k],
    {
        let r = Kind { bits: k.mask() };
        let m: u16 = k.mask();
        assert forall|j: ValueKind| r@.contains(j) == (j == k) by {
            let n: u16 = j.mask();
            assert(ValueKind::is_mask(m) && ValueKind::is_mask(n) ==> ((m & n != 0) == (m == n)))
                by (bit_vector);
        }
        assert(r@ =~= set![k]);
    }

    pub fn bytes() -> (r: Kind)
        ensures
            r@ == set![ValueKind::Bytes],
            r.bits == ValueKind::Bytes.mask(),
    {
        Kind::of(ValueKind::Bytes)
    }

    pub fn integer() -> (r: Kind)
        ensures
            r@ == set![ValueKind::Integer],
            r.bits == ValueKind::Integer.mask(),
    {
        Kind::of(ValueKind::Integer)
    }

    pub fn boolean() -> (r: Kind)
        ensures
            r@ == set![ValueKind::Boolean],
            r.bits == ValueKind::Boolean.mask(),
    {
        Kind::of(ValueKind::Boolean)
    }

    /// The set of all nine kinds.
    pub fn any() -> (r: Kind)
        ensures
            r@ == Set::<ValueKind>::full(),
            r.bits == ALL_KINDS,
    {
        let r = Kind { bits: ALL_KINDS };
        proof {
            assert forall|j: ValueKind| r@.contains(j) by {
                let n: u16 = j.mask();
                assert(ValueKind::is_mask(n) ==> 0x1FFu16 & n != 0) by (bit_vector);
            }
            assert(r@ =~= Set::<ValueKind>::full());
        }
        r
    }

    /// The empty set: the kind of an expression that yields no value.
    pub fn never() -> (r: Kind)
        ensures
            r@ == Set::<ValueKind>::empty(),
            r.bits == 0,
    {
        let r = Kind { bits: 0 };
        proof {
            assert forall|j: ValueKind| !r@.contains(j) by {
                let n: u16 = j.mask();
                assert(0u16 & n == 0) by (bit_vector);
            }
            assert(r@ =~= Set::<ValueKind>::empty());
        }
        r
    }

    pub fn contains(self, k: ValueKind) -> (r: bool)
        ensures
            r == self@.contains(k),
    {
        self.bits & k.bit() != 0
    }

    pub fn is_empty(self) -> (r: bool)
        ensures
            r == (self@ == Set::<ValueKind>::empty()),
    {
        let a: u16 = self.bits;
        let r = a & ALL_KINDS == 0;
        proof {
            if r {
                assert forall|j: ValueKind| !self@.contains(j) by {
                    let n: u16 = j.mask();
                    assert(a & 0x1FFu16 == 0 && ValueKind::is_mask(n) ==> a & n == 0)
                        by (bit_vector);
                }
                assert(self@ =~= Set::<ValueKind>::empty());
            } else {
                Self::lemma_some_member(self);
            }
        }
        r
    }

    /// A set with one of the nine low bits set has a member.
    proof fn lemma_some_member(s: Kind)
        requires
            s.bits & ALL_KINDS != 0,
        ensures
            exists|k: ValueKind| s@.contains(k),
            s@ != Set::<ValueKind>::empty(),
    {
        let a: u16 = s.bits;
        assert(a & 0x1FFu16 != 0 ==> a & 0x001 != 0 || a & 0x002 != 0 || a & 0x004 != 0 || a
            & 0x008 != 0 || a & 0x010 != 0 || a & 0x020 != 0 || a & 0x040 != 0 || a & 0x080 != 0
            || a & 0x100 != 0) by (bit_vector);
        let k = if a & 0x001 != 0 {
            ValueKind::Bytes
        } else if a & 0x002 != 0 {
            ValueKind::Integer
        } else if a & 0x004 != 0 {
            ValueKind::Float
        } else if a & 0x008 != 0 {
            ValueKind::Boolean
        } else if a & 0x010 != 0 {
            ValueKind::Timestamp
        } else if a & 0x020 != 0 {
            ValueKind::Regex
        } else if a & 0x040 != 0 {
            ValueKind::Null
        } else if a & 0x080 != 0 {
            ValueKind::Array
        } else {
            ValueKind::Object
        };
        assert(s@.contains(k));
    }

    pub fn union(self, other: Kind) -> (r: Kind)
        ensures
            r@ == self@.union(other@),
            r.bits == self.bits | other.bits,
    {
        let a: u16 = self.bits;
        let b: u16 = other.bits;
        let r = Kind { bits: a | b };
        proof {
            assert forall|j: ValueKind|
                r@.contains(j) == (self@.contains(j) || other@.contains(j)) by {
                let n: u16 = j.mask();
                assert(((a | b) & n != 0) == (a & n != 0 || b & n != 0)) by (bit_vector);
            }
            assert(r@ =~= self@.union(other@));
        }
        r
    }

    pub fn intersection(self, other: Kind) -> (r: Kind)
        ensures
            r@ == self@.intersect(other@),
            r.bits == self.bits & other.bits,
    {
        let a: u16 = self.bits;
        let b: u16 = other.bits;
        let r = Kind { bits: a & b };
        proof {
            assert forall|j: ValueKind|
                r@.contains(j) == (self@.contains(j) && other@.contains(j)) by {
                let n: u16 = j.mask();
                assert(ValueKind::is_mask(n) ==> (((a & b) & n != 0) == (a & n != 0 && b & n
                    != 0))) by (bit_vector);
            }
            assert(r@ =~= self@.intersect(other@));
        }
        r
    }

    /// Whether every kind of `self` is a kind of `other`.
    pub fn is_subset(self, other: Kind) -> (r: bool)
        ensures
            r == self@.subset_of(other@),
    {
        let a: u16 = self.bits;
        let b: u16 = other.bits;
        let r = (a & !b) & ALL_KINDS == 0;
        proof {
            if r {
                assert forall|j: ValueKind| self@.contains(j) implies other@.contains(j) by {
                    let n: u16 = j.mask();
                    assert((a & !b) & 0x1FFu16 == 0 && ValueKind::is_mask(n) && a & n != 0 ==> b
                        & n != 0) by (bit_vector);
                }
            } else {
                let d = Kind { bits: a & !b };
                Self::lemma_some_member(d);
                let k = choose|k: ValueKind| d@.contains(k);
                let n: u16 = k.mask();
                assert(ValueKind::is_mask(n) && (a & !b) & n != 0 ==> a & n != 0 && b & n == 0)
                    by (bit_vector);
                assert(self@.contains(k) && !other@.contains(k));
            }
        }
        r
    }
}

} // verus!
