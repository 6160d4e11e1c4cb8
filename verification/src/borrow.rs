//! The borrow state machine: a tri-state counter that records whether a
//! payload is currently unused, read by `n` shared leases, or held by one
//! exclusive lease, together with the guard tokens that witness a granted
//! lease.

use vstd::prelude::*;

verus! {

/// Abstract state of a borrow counter: either nobody holds the payload,
/// `n >= 1` shared (read-only) leases are live, or a single exclusive
/// (read-write) lease is live. Shared and exclusive are never held at once.
pub enum BorrowState {
    Unused,
    Shared { n: nat },
    Exclusive,
}

/// The operations a cell can perform on its borrow state.
pub enum BorrowOp {
    AcquireShared,
    Duplicate,
    ReleaseShared,
    AcquireExclusive,
    ReleaseExclusive,
}

/// Which `BorrowState` values actually occur: `Shared` records at least
/// one live lease (a shared count of zero is written `Unused`).
pub open spec fn state_wf(s: BorrowState) -> bool {
    s is Shared ==> s->n >= 1
}

/// How many shared leases the state records (zero unless `Shared`).
pub open spec fn shared_count(s: BorrowState) -> nat {
    match s {
        BorrowState::Shared { n } => n,
        _ => 0,
    }
}

/// Whether one live exclusive lease is recorded.
pub open spec fn exclusive_live(s: BorrowState) -> bool {
    s is Exclusive
}

/// Whether `op` succeeds in state `s`. Acquisitions fail exactly when the
/// requested mode conflicts with the current holders; releases and
/// duplication are only ever performed by a live guard, so they are
/// enabled exactly in the states such a guard witnesses.
pub open spec fn op_allowed(s: BorrowState, op: BorrowOp) -> bool {
    match op {
        BorrowOp::AcquireShared => !(s is Exclusive),
        BorrowOp::Duplicate => s is Shared,
        BorrowOp::ReleaseShared => s is Shared,
        BorrowOp::AcquireExclusive => s is Unused,
        BorrowOp::ReleaseExclusive => s is Exclusive,
    }
}

/// The successor state: the transition the operation performs when it is
/// allowed, and the unchanged state otherwise (a failed acquisition has no
/// side effect).
pub open spec fn step(s: BorrowState, op: BorrowOp) -> BorrowState {
    if !op_allowed(s, op) {
        s
    } else {
        match op {
            BorrowOp::AcquireShared => BorrowState::Shared { n: shared_count(s) + 1 },
            BorrowOp::Duplicate => BorrowState::Shared { n: shared_count(s) + 1 },
            BorrowOp::ReleaseShared => if shared_count(s) == 1 {
                BorrowState::Unused
            } else {
                BorrowState::Shared { n: (shared_count(s) - 1) as nat }
            },
            BorrowOp::AcquireExclusive => BorrowState::Exclusive,
            BorrowOp::ReleaseExclusive => BorrowState::Unused,
        }
    }
}

/// The state after running a whole sequence of operations from `s`.
pub open spec fn run(s: BorrowState, ops: Seq<BorrowOp>) -> BorrowState
    decreases ops.len(),
{
    if ops.len() == 0 {
        s
    } else {
        run(step(s, ops[0]), ops.drop_first())
    }
}

/// Net change in live shared guards caused by `op` in state `s`: each
/// successful shared acquisition or duplication hands out one guard, each
/// shared release consumes one.
pub open spec fn shared_guard_delta(s: BorrowState, op: BorrowOp) -> int {
    if !op_allowed(s, op) {
        0
    } else {
        match op {
            BorrowOp::AcquireShared => 1,
            BorrowOp::Duplicate => 1,
            BorrowOp::ReleaseShared => -1,
            _ => 0,
        }
    }
}

/// Net change in live exclusive guards caused by `op` in state `s`.
pub open spec fn exclusive_guard_delta(s: BorrowState, op: BorrowOp) -> int {
    if !op_allowed(s, op) {
        0
    } else {
        match op {
            BorrowOp::AcquireExclusive => 1,
            BorrowOp::ReleaseExclusive => -1,
            _ => 0,
        }
    }
}

/// Net number of shared guards handed out, over a run of `ops` from `s`.
pub open spec fn live_shared_guards(s: BorrowState, ops: Seq<BorrowOp>) -> int
    decreases ops.len(),
{
    if ops.len() == 0 {
        0
    } else {
        shared_guard_delta(s, ops[0]) + live_shared_guards(step(s, ops[0]), ops.drop_first())
    }
}

/// Net number of exclusive guards handed out, over a run of `ops` from `s`.
pub open spec fn live_exclusive_guards(s: BorrowState, ops: Seq<BorrowOp>) -> int
    decreases ops.len(),
{
    if ops.len() == 0 {
        0
    } else {
        exclusive_guard_delta(s, ops[0]) + live_exclusive_guards(step(s, ops[0]), ops.drop_first())
    }
}

/// Every transition keeps the state well formed.
pub proof fn lemma_step_wf(s: BorrowState, op: BorrowOp)
    requires
        state_wf(s),
    ensures
        state_wf(step(s, op)),
{
}

/// A whole run keeps the state well formed.
pub proof fn lemma_run_wf(s: BorrowState, ops: Seq<BorrowOp>)
    requires
        state_wf(s),
    ensures
        state_wf(run(s, ops)),
    decreases ops.len(),
{
    if ops.len() > 0 {
        lemma_step_wf(s, ops[0]);
        lemma_run_wf(step(s, ops[0]), ops.drop_first());
    }
}

/// Law: after any sequence of operations, the borrow state's recorded
/// shared count equals the number of live shared guards, the recorded
/// exclusive flag equals the number of live exclusive guards (so at most
/// one exclusive guard is ever live), and an exclusive acquisition
/// succeeds exactly when no guard of either kind is live.
pub proof fn lemma_guard_accounting(ops: Seq<BorrowOp>)
    ensures
        shared_count(run(BorrowState::Unused, ops)) == live_shared_guards(
            BorrowState::Unused,
            ops,
        ),
        live_exclusive_guards(BorrowState::Unused, ops) == if exclusive_live(
            run(BorrowState::Unused, ops),
        ) {
            1int
        } else {
            0int
        },
        op_allowed(run(BorrowState::Unused, ops), BorrowOp::AcquireExclusive) <==> {
            &&& live_shared_guards(BorrowState::Unused, ops) == 0
            &&& live_exclusive_guards(BorrowState::Unused, ops) == 0
        },
{
    lemma_guard_accounting_from(BorrowState::Unused, ops);
    lemma_run_wf(BorrowState::Unused, ops);
}

/// Inductive form of [`lemma_guard_accounting`], from an arbitrary start
/// state.
pub proof fn lemma_guard_accounting_from(s: BorrowState, ops: Seq<BorrowOp>)
    requires
        state_wf(s),
    ensures
        shared_count(run(s, ops)) == shared_count(s) + live_shared_guards(s, ops),
        (if exclusive_live(run(s, ops)) {
            1int
        } else {
            0int
        }) == (if exclusive_live(s) {
            1int
        } else {
            0int
        }) + live_exclusive_guards(s, ops),
    decreases ops.len(),
{
    if ops.len() > 0 {
        lemma_step_wf(s, ops[0]);
        lemma_guard_accounting_from(step(s, ops[0]), ops.drop_first());
    }
}

/// Law: while an exclusive lease is live, both a second exclusive
/// acquisition and any shared acquisition fail, and a failure changes
/// nothing.
pub proof fn lemma_exclusive_excludes(s: BorrowState)
    requires
        exclusive_live(s),
    ensures
        !op_allowed(s, BorrowOp::AcquireExclusive),
        !op_allowed(s, BorrowOp::AcquireShared),
        step(s, BorrowOp::AcquireExclusive) == s,
        step(s, BorrowOp::AcquireShared) == s,
{
}

/// Law: releasing the last live guard of either kind returns the state to
/// `Unused`, where both acquisition modes succeed again.
pub proof fn lemma_release_last_reopens(s: BorrowState)
    ensures
        shared_count(s) == 1 ==> step(s, BorrowOp::ReleaseShared) == BorrowState::Unused,
        exclusive_live(s) ==> step(s, BorrowOp::ReleaseExclusive) == BorrowState::Unused,
        op_allowed(BorrowState::Unused, BorrowOp::AcquireShared),
        op_allowed(BorrowState::Unused, BorrowOp::AcquireExclusive),
{
}

/// Executable borrow counter. One machine word per cell: `0` means
/// `Unused`, the all-ones sentinel means `Exclusive`, any other value is
/// the live shared count. The shared count therefore saturates at
/// `usize::MAX - 1`; an acquisition that would collide with the sentinel
/// fails like a mode conflict instead of corrupting the state.
pub struct BorrowFlag {
    count: usize,
}

/// The sentinel `count` value that encodes `Exclusive`.
pub open spec fn exclusive_sentinel() -> usize {
    usize::MAX
}

/// Largest shared count the flag can record without colliding with the
/// sentinel.
pub open spec fn max_shared() -> nat {
    (usize::MAX - 1) as nat
}

impl View for BorrowFlag {
    type V = BorrowState;

    closed spec fn view(&self) -> BorrowState {
        if self.count == 0 {
            BorrowState::Unused
        } else if self.count == exclusive_sentinel() {
            BorrowState::Exclusive
        } else {
            BorrowState::Shared { n: self.count as nat }
        }
    }
}

impl BorrowFlag {
    /// Every state the counter can encode is well formed, so the guard
    /// accounting laws apply to every state a flag actually reaches.
    pub proof fn lemma_state_wf(&self)
        ensures
            state_wf(self@),
    {
    }

    /// A fresh counter: nothing is borrowed.
    pub fn new() -> (flag: Self)
        ensures
            flag@ == BorrowState::Unused,
    {
        BorrowFlag { count: 0 }
    }

    /// Attempt `AcquireShared`: succeeds unless an exclusive lease is live
    /// or the counter is saturated; a failure changes nothing.
    pub fn try_acquire_shared(&mut self) -> (ok: bool)
        ensures
            ok <==> (op_allowed(old(self)@, BorrowOp::AcquireShared) && shared_count(old(self)@)
                < max_shared()),
            ok ==> final(self)@ == step(old(self)@, BorrowOp::AcquireShared),
            !ok ==> final(self)@ == old(self)@,
    {
        if self.count < usize::MAX - 1 {
            self.count = self.count + 1;
            true
        } else {
            false
        }
    }

    /// Perform `Duplicate`: a caller already holding a shared lease raises
    /// the count by one. Only legal while shared leases are live and the
    /// counter is not saturated.
    pub fn duplicate_shared(&mut self)
        requires
            old(self)@ is Shared,
            shared_count(old(self)@) < max_shared(),
        ensures
            final(self)@ == step(old(self)@, BorrowOp::Duplicate),
    {
        self.count = self.count + 1;
    }

    /// Perform `ReleaseShared`: one shared lease ends; `Shared(1)`
    /// collapses back to `Unused`.
    pub fn release_shared(&mut self)
        requires
            old(self)@ is Shared,
        ensures
            final(self)@ == step(old(self)@, BorrowOp::ReleaseShared),
    {
        self.count = self.count - 1;
    }

    /// Attempt `AcquireExclusive`: succeeds exactly from `Unused`; a
    /// failure changes nothing.
    pub fn try_acquire_exclusive(&mut self) -> (ok: bool)
        ensures
            ok <==> op_allowed(old(self)@, BorrowOp::AcquireExclusive),
            ok ==> final(self)@ == step(old(self)@, BorrowOp::AcquireExclusive),
            !ok ==> final(self)@ == old(self)@,
    {
        if self.count == 0 {
            self.count = usize::MAX;
            true
        } else {
            false
        }
    }

    /// Perform `ReleaseExclusive`: the one exclusive lease ends.
    pub fn release_exclusive(&mut self)
        requires
            old(self)@ is Exclusive,
        ensures
            final(self)@ == step(old(self)@, BorrowOp::ReleaseExclusive),
    {
        self.count = 0;
    }
}

/// Witness of one live shared lease. Handed out only by a successful
/// shared acquisition or duplication and consumed by the matching release;
/// it cannot be constructed or copied by callers.
pub struct SharedLease {
    _lease: (),
}

impl SharedLease {
    /// Used by the cell when its flag has granted a shared lease.
    pub(crate) fn grant() -> SharedLease {
        SharedLease { _lease: () }
    }
}

/// Witness of the one live exclusive lease, handed out only by a
/// successful exclusive acquisition and consumed by the release.
pub struct ExclusiveLease {
    _lease: (),
}

impl ExclusiveLease {
    /// Used by the cell when its flag has granted the exclusive lease.
    pub(crate) fn grant() -> ExclusiveLease {
        ExclusiveLease { _lease: () }
    }
}

} // verus!
