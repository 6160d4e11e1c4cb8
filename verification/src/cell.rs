//! A single-owner container with runtime-checked interior access: the
//! payload is reachable only through leases granted by the cell, and the
//! tri-state borrow counter of [`crate::borrow`] decides which requests
//! succeed.

use vstd::prelude::*;

use crate::borrow::BorrowFlag;
use crate::borrow::BorrowOp;
use crate::borrow::BorrowState;
use crate::borrow::ExclusiveLease;
use crate::borrow::SharedLease;
use crate::borrow::max_shared;
use crate::borrow::op_allowed;
use crate::borrow::shared_count;
use crate::borrow::step;

verus! {

/// A cell owning one payload plus its borrow state. Access to the payload
/// goes through leases: any number of live [`crate::borrow::SharedLease`]s
/// grant read access, one live [`crate::borrow::ExclusiveLease`] grants
/// read-write access, and the two modes exclude each other at run time.
pub struct RefCell<T> {
    flag: BorrowFlag,
    value: T,
}

impl<T> RefCell<T> {
    /// The current borrow state.
    pub closed spec fn state(&self) -> BorrowState {
        self.flag@
    }

    /// The payload the cell owns.
    pub closed spec fn payload(&self) -> T {
        self.value
    }

    /// Every state a cell can hold is well formed, so the guard accounting
    /// laws of [`crate::borrow`] apply to it.
    pub proof fn lemma_state_wf(&self)
        ensures
            crate::borrow::state_wf(self.state()),
    {
        self.flag.lemma_state_wf();
    }

    /// Constructs a cell around `value` with nothing borrowed.
    pub fn new(value: T) -> (cell: Self)
        ensures
            cell.state() == BorrowState::Unused,
            cell.payload() == value,
    {
        RefCell { flag: BorrowFlag::new(), value }
    }

    /// Attempts to open a shared (read) lease. Succeeds unless an
    /// exclusive lease is live or the counter is saturated; a failure
    /// leaves the cell exactly as it was.
    pub fn try_borrow(&mut self) -> (r: Option<SharedLease>)
        ensures
            final(self).payload() == old(self).payload(),
            r is Some <==> (op_allowed(old(self).state(), BorrowOp::AcquireShared)
                && shared_count(old(self).state()) < max_shared()),
            r is Some ==> final(self).state() == step(
                old(self).state(),
                BorrowOp::AcquireShared,
            ),
            r is None ==> final(self).state() == old(self).state(),
    {
        if self.flag.try_acquire_shared() {
            Some(SharedLease::grant())
        } else {
            None
        }
    }

    /// Opens a shared lease where the caller has already established that
    /// no exclusive lease is live ("already mutably borrowed" is a
    /// programmer error here, so that state is ruled out up front).
    pub fn borrow(&mut self) -> (r: SharedLease)
        requires
            op_allowed(old(self).state(), BorrowOp::AcquireShared),
            shared_count(old(self).state()) < max_shared(),
        ensures
            final(self).payload() == old(self).payload(),
            final(self).state() == step(old(self).state(), BorrowOp::AcquireShared),
    {
        let r = self.try_borrow();
        r.expect("already mutably borrowed")
    }

    /// Attempts to open the exclusive (read-write) lease. Succeeds exactly
    /// when no lease of either kind is live; a failure leaves the cell
    /// exactly as it was.
    pub fn try_borrow_mut(&mut self) -> (r: Option<ExclusiveLease>)
        ensures
            final(self).payload() == old(self).payload(),
            r is Some <==> op_allowed(old(self).state(), BorrowOp::AcquireExclusive),
            r is Some ==> final(self).state() == step(
                old(self).state(),
                BorrowOp::AcquireExclusive,
            ),
            r is None ==> final(self).state() == old(self).state(),
    {
        if self.flag.try_acquire_exclusive() {
            Some(ExclusiveLease::grant())
        } else {
            None
        }
    }

    /// Opens the exclusive lease where the caller has already established
    /// that nothing is borrowed ("already borrowed" is a programmer error
    /// here, so every borrowed state is ruled out up front).
    pub fn borrow_mut(&mut self) -> (r: ExclusiveLease)
        requires
            op_allowed(old(self).state(), BorrowOp::AcquireExclusive),
        ensures
            final(self).payload() == old(self).payload(),
            final(self).state() == step(old(self).state(), BorrowOp::AcquireExclusive),
    {
        let r = self.try_borrow_mut();
        r.expect("already borrowed")
    }

    /// Duplicates a live shared lease into a second, independent one over
    /// the same cell; the payload is not touched. Duplication always
    /// succeeds: holding `lease` already proves the state is shared.
    pub fn duplicate(&mut self, lease: &SharedLease) -> (r: SharedLease)
        requires
            old(self).state() is Shared,
            shared_count(old(self).state()) < max_shared(),
        ensures
            final(self).payload() == old(self).payload(),
            final(self).state() == step(old(self).state(), BorrowOp::Duplicate),
    {
        let _ = lease;
        self.flag.duplicate_shared();
        SharedLease::grant()
    }

    /// Ends one shared lease; `Shared(1)` collapses back to `Unused`.
    pub fn release(&mut self, lease: SharedLease)
        requires
            old(self).state() is Shared,
        ensures
            final(self).payload() == old(self).payload(),
            final(self).state() == step(old(self).state(), BorrowOp::ReleaseShared),
    {
        let _ = lease;
        self.flag.release_shared();
    }

    /// Ends the exclusive lease; the cell returns to `Unused`.
    pub fn release_mut(&mut self, lease: ExclusiveLease)
        requires
            old(self).state() is Exclusive,
        ensures
            final(self).payload() == old(self).payload(),
            final(self).state() == step(old(self).state(), BorrowOp::ReleaseExclusive),
    {
        let _ = lease;
        self.flag.release_exclusive();
    }

    /// Read access to the payload under a shared lease.
    pub fn get(&self, lease: &SharedLease) -> (r: &T)
        requires
            self.state() is Shared,
        ensures
            *r == self.payload(),
    {
        let _ = lease;
        &self.value
    }

    /// Read-write access to the payload under the exclusive lease. The
    /// cell's payload tracks every write made through the returned
    /// reference; the borrow state is not touched.
    pub fn get_mut(&mut self, lease: &ExclusiveLease) -> (r: &mut T)
        requires
            old(self).state() is Exclusive,
        ensures
            *r == old(self).payload(),
            final(self).payload() == *final(r),
            final(self).state() == old(self).state(),
    {
        let _ = lease;
        &mut self.value
    }
}

} // verus!
