//! A growable sequence addressed by a bounded identity.

use vstd::prelude::*;

use crate::keyed::KRange;
use crate::keyed::Key;

verus! {

/// A growable sequence whose positions are exposed only as identities of
/// `K`. Its length stays strictly below `K`'s limit, so every occupied
/// position — and the position the next append would fill — is
/// representable as an identity.
pub struct KVec<K: Key, V> {
    inner: Vec<V>,
    phantom: core::marker::PhantomData<K>,
}

impl<K: Key, V> View for KVec<K, V> {
    type V = Seq<V>;

    closed spec fn view(&self) -> Seq<V> {
        self.inner@
    }
}

impl<K: Key, V> KVec<K, V> {
    /// The length invariant: every position, including the next free one,
    /// lies below the identity limit.
    pub open spec fn wf(&self) -> bool {
        self@.len() < K::spec_limit()
    }

    /// Constructs an empty keyed vector.
    pub fn new() -> (v: Self)
        ensures
            v@ == Seq::<V>::empty(),
            v.wf(),
    {
        let v = KVec { inner: Vec::new(), phantom: core::marker::PhantomData };
        proof {
            K::limit_bounds();
        }
        v
    }

    /// Current element count.
    pub fn len(&self) -> (n: usize)
        ensures
            n == self@.len(),
    {
        self.inner.len()
    }

    /// Constructs an empty keyed vector with storage reserved for `cap`
    /// elements.
    pub fn with_cap(cap: usize) -> (v: Self)
        ensures
            v@ == Seq::<V>::empty(),
            v.wf(),
    {
        let v = KVec { inner: Vec::with_capacity(cap), phantom: core::marker::PhantomData };
        proof {
            K::limit_bounds();
        }
        v
    }

    /// Read access to the backing storage.
    pub fn inner(&self) -> (r: &Vec<V>)
        ensures
            r@ == self@,
    {
        &self.inner
    }

    /// Consumes the keyed vector and hands its backing storage back.
    pub fn into_inner(self) -> (r: Vec<V>)
        ensures
            r@ == self@,
    {
        self.inner
    }

    /// The identity range `[0, len)` covering every occupied position.
    pub fn range(&self) -> (r: KRange<K>)
        requires
            self.wf(),
        ensures
            r.spec_begin() == 0,
            r.spec_end() == self@.len(),
            r.wf(),
    {
        proof {
            K::limit_bounds();
        }
        KRange::new(K::from_usize(0), K::from_usize(self.inner.len()))
    }

    /// The identity the next successful append will receive: the current
    /// length, representable because the length stays below the limit.
    pub fn next_key(&self) -> (k: K)
        requires
            self.wf(),
        ensures
            k.as_nat() == self@.len(),
    {
        K::from_usize(self.inner.len())
    }

    /// Appends `value` if a position for one more element — beyond the one
    /// being filled — remains below the identity limit; the returned
    /// identity is the length just before the call. On a full vector
    /// nothing changes and the capacity error is returned.
    pub fn try_push(&mut self, value: V) -> (r: Result<K, ()>)
        requires
            old(self).wf(),
        ensures
            final(self).wf(),
            old(self)@.len() + 1 < K::spec_limit() ==> {
                &&& r is Ok
                &&& r->Ok_0.as_nat() == old(self)@.len()
                &&& final(self)@ == old(self)@.push(value)
            },
            old(self)@.len() + 1 >= K::spec_limit() ==> r is Err && final(self)@ == old(self)@,
    {
        proof {
            K::limit_bounds();
        }
        if self.inner.len() + 1 < K::limit() {
            let key = K::from_usize(self.inner.len());
            self.inner.push(value);
            Ok(key)
        } else {
            Err(())
        }
    }

    /// Appends `value` and returns its identity. Exhausting the identity
    /// limit is a programmer error here — this entry point is for callers
    /// whose limit is statically known to be ample — so full vectors are
    /// ruled out up front.
    pub fn push(&mut self, value: V) -> (k: K)
        requires
            old(self).wf(),
            old(self)@.len() + 1 < K::spec_limit(),
        ensures
            final(self).wf(),
            k.as_nat() == old(self)@.len(),
            final(self)@ == old(self)@.push(value),
    {
        let r = self.try_push(value);
        r.unwrap()
    }

    /// Read access to the element at identity `k`, or `None` when `k` is
    /// at or past the current length.
    pub fn get(&self, k: K) -> (r: Option<&V>)
        ensures
            k.as_nat() < self@.len() ==> r is Some && *r->0 == self@[k.as_nat() as int],
            k.as_nat() >= self@.len() ==> r is None,
    {
        let i = k.to_usize();
        if i < self.inner.len() {
            Some(&self.inner[i])
        } else {
            None
        }
    }

    /// Overwrites the element at identity `k`, which must name an occupied
    /// position.
    pub fn set(&mut self, k: K, value: V)
        requires
            k.as_nat() < old(self)@.len(),
        ensures
            final(self)@ == old(self)@.update(k.as_nat() as int, value),
    {
        let i = k.to_usize();
        self.inner[i] = value;
    }

    /// Runs a caller-supplied batch of appends against the vector and
    /// returns the identity range spanning exactly the positions the batch
    /// added: `[len_before, len_after)`. The batch must keep the vector
    /// well formed and must not shrink it — appending through the public
    /// operations does both.
    pub fn push_f<F: FnOnce(&mut Self)>(&mut self, f: F) -> (r: KRange<K>)
        requires
            old(self).wf(),
            forall|s: &mut Self| *s == *old(self) ==> call_requires(f, (s,)),
            forall|s: &mut Self, t: ()|
                call_ensures(f, (s,), t) ==> (*final(s)).wf() && (*s)@.len() <= (*final(s))@.len(),
        ensures
            final(self).wf(),
            r.wf(),
            r.spec_begin() == old(self)@.len(),
            r.spec_end() == final(self)@.len(),
            r.spec_len() == final(self)@.len() - old(self)@.len(),
            exists|s: &mut Self|
                #[trigger] call_ensures(f, (s,), ()) && *s == *old(self) && *final(s)
                    == *final(self),
    {
        let begin = K::from_usize(self.inner.len());
        f(self);
        let end = K::from_usize(self.inner.len());
        KRange::new(begin, end)
    }

    /// Law: indexing by an identity the vector itself returned from a push
    /// yields the exact element passed to that push. A successful push on
    /// contents `pre` hands out the identity standing for `pre.len()` and
    /// leaves contents `pre.push(value)`; as long as the vector has only
    /// grown since — its contents `later` extend `pre.push(value)` — that
    /// identity names exactly `value`.
    pub proof fn lemma_push_round_trip(pre: Seq<V>, value: V, later: Seq<V>, k: K)
        requires
            k.as_nat() == pre.len(),
            pre.push(value).is_prefix_of(later),
        ensures
            k.as_nat() < later.len(),
            later[k.as_nat() as int] == value,
    {
        assert(later[k.as_nat() as int] == later.subrange(0, pre.len() as int + 1)[pre.len() as int]);
    }

    /// A zero-copy read view of the whole storage.
    pub fn as_slice(&self) -> (r: &[V])
        ensures
            r@ == self@,
    {
        self.inner.as_slice()
    }

    /// A zero-copy read-write view of the whole storage. Writes through
    /// the view land in the vector; its length cannot change, so the
    /// length invariant is untouched.
    pub fn as_slice_mut(&mut self) -> (r: &mut [V])
        ensures
            r@ == old(self)@,
            final(self)@ == final(r)@,
    {
        self.inner.as_mut_slice()
    }
}

} // verus!
