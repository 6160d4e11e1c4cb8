//! Strongly typed, range-bounded identities and the keyed vector they
//! address.

pub mod vec;

use vstd::prelude::*;

verus! {

/// An integer-like identity type with a compile-known upper bound.
///
/// A value of an implementing type always stands for a number strictly
/// below the type's limit, and converting such a number to the identity
/// and back is exact. Distinct marker types keep the identities of
/// logically distinct collections apart.
pub trait Key: Sized + Copy {
    /// The number of distinct identities the type can represent.
    spec fn spec_limit() -> nat;

    /// The number this identity stands for.
    spec fn as_nat(self) -> nat;

    /// The limit is positive — a type with no representable identity could
    /// key nothing — and fits the machine word, so raw positions are plain
    /// `usize` values.
    proof fn limit_bounds()
        ensures
            0 < Self::spec_limit() <= usize::MAX,
    ;

    /// The upper bound, as a machine integer.
    fn limit() -> (l: usize)
        ensures
            l == Self::spec_limit(),
    ;

    /// Converts a raw position strictly below the limit into an identity.
    fn from_usize(i: usize) -> (k: Self)
        requires
            i < Self::spec_limit(),
        ensures
            k.as_nat() == i,
    ;

    /// Recovers the raw position; exact for every representable identity.
    fn to_usize(self) -> (i: usize)
        ensures
            i == self.as_nat(),
            i < Self::spec_limit(),
    ;
}

/// An identity backed by one byte; its limit is 256, so every byte value
/// is a representable identity.
#[derive(Clone, Copy, PartialEq, Eq, PartialOrd, Ord, Debug, Hash)]
pub struct Key8 {
    pub raw: u8,
}

impl Key for Key8 {
    open spec fn spec_limit() -> nat {
        256
    }

    open spec fn as_nat(self) -> nat {
        self.raw as nat
    }

    proof fn limit_bounds() {
    }

    fn limit() -> usize {
        256
    }

    fn from_usize(i: usize) -> Self {
        Key8 { raw: i as u8 }
    }

    fn to_usize(self) -> usize {
        self.raw as usize
    }
}

/// An identity backed by two bytes; its limit is 65536.
#[derive(Clone, Copy, PartialEq, Eq, PartialOrd, Ord, Debug, Hash)]
pub struct Key16 {
    pub raw: u16,
}

impl Key for Key16 {
    open spec fn spec_limit() -> nat {
        65536
    }

    open spec fn as_nat(self) -> nat {
        self.raw as nat
    }

    proof fn limit_bounds() {
    }

    fn limit() -> usize {
        65536
    }

    fn from_usize(i: usize) -> Self {
        Key16 { raw: i as u16 }
    }

    fn to_usize(self) -> usize {
        self.raw as usize
    }
}

/// A half-open interval `[begin, end)` of identities, used to report the
/// span of a batch of newly inserted elements.
pub struct KRange<K: Key> {
    begin: K,
    end: K,
}

impl<K: Key> KRange<K> {
    /// The lower bound, as the number it stands for.
    pub closed spec fn spec_begin(&self) -> nat {
        self.begin.as_nat()
    }

    /// The bound one past the last identity, as the number it stands for.
    pub closed spec fn spec_end(&self) -> nat {
        self.end.as_nat()
    }

    /// A range never runs backwards.
    pub open spec fn wf(&self) -> bool {
        self.spec_begin() <= self.spec_end()
    }

    /// How many identities the range spans.
    pub open spec fn spec_len(&self) -> nat {
        (self.spec_end() - self.spec_begin()) as nat
    }

    /// Whether the position `i` falls inside the half-open interval.
    pub open spec fn spec_contains(&self, i: nat) -> bool {
        self.spec_begin() <= i < self.spec_end()
    }

    /// Constructs the interval `[begin, end)`.
    pub fn new(begin: K, end: K) -> (r: Self)
        requires
            begin.as_nat() <= end.as_nat(),
        ensures
            r.spec_begin() == begin.as_nat(),
            r.spec_end() == end.as_nat(),
            r.wf(),
    {
        KRange { begin, end }
    }

    /// The lower bound.
    pub fn begin(&self) -> (k: K)
        ensures
            k.as_nat() == self.spec_begin(),
    {
        self.begin
    }

    /// The bound one past the last identity.
    pub fn end(&self) -> (k: K)
        ensures
            k.as_nat() == self.spec_end(),
    {
        self.end
    }

    /// How many identities the range spans.
    pub fn len(&self) -> (n: usize)
        requires
            self.wf(),
        ensures
            n == self.spec_len(),
    {
        self.end.to_usize() - self.begin.to_usize()
    }

    /// Whether the range spans no identity at all.
    pub fn is_empty(&self) -> (b: bool)
        requires
            self.wf(),
        ensures
            b <==> self.spec_len() == 0,
    {
        self.begin.to_usize() == self.end.to_usize()
    }

    /// Whether `k` falls inside the range.
    pub fn contains(&self, k: K) -> (b: bool)
        ensures
            b <==> self.spec_contains(k.as_nat()),
    {
        let i = k.to_usize();
        self.begin.to_usize() <= i && i < self.end.to_usize()
    }
}

} // verus!
