use crate::status::Status;
use vstd::prelude::*;
use vstd::rwlock::RwLock;

verus! {

/// The lock-protected state of the primitive: a single `closed` bit.
///
/// It only ever moves from `false` to `true`: the one mutator, [`GateState::shut`],
/// unconditionally sets it, and nothing clears it again.
pub struct GateState {
    pub closed: bool,
}

impl GateState {
    /// A fresh, open state.
    pub fn new() -> (g: GateState)
        ensures
            !g.closed,
    {
        GateState { closed: false }
    }

    /// The status a caller observes on this state.
    pub open spec fn observed(self) -> Status {
        if self.closed {
            Status::Closed
        } else {
            Status::Open
        }
    }

    /// Report the current state: `Open` exactly when `closed` is still
    /// unset. Observing never mutates.
    pub fn observe(&self) -> (r: Status)
        ensures
            r == self.observed(),
            r == Status::Open <==> !self.closed,
    {
        if self.closed {
            Status::Closed
        } else {
            Status::Open
        }
    }

    /// Shut the primitive. Idempotent: the result is closed whatever the
    /// prior state was, and shutting an already closed state changes
    /// nothing.
    pub fn shut(&mut self)
        ensures
            final(self).closed,
            *final(self) == (GateState { closed: true }),
            old(self).closed ==> *final(self) == *old(self),
    {
        self.closed = true;
    }
}

/// The leaf of the primitive: the single source of truth for open/closed,
/// behind a verified mutual-exclusion lock.
///
/// `call` observes the state under the lock and `release` shuts it under
/// the lock, so all observations and closings of one instance are totally
/// ordered. The lock is held only for the O(1) boolean check or store,
/// never across downstream work.
pub struct SimpleThreadsafeFunction {
    lock: RwLock<GateState, spec_fn(GateState) -> bool>,
}

impl SimpleThreadsafeFunction {
    /// The lock accepts every `GateState`: the one bit is unconstrained in
    /// isolation, its discipline (never reopening) lives in the two methods
    /// below, the only writers.
    #[verifier::type_invariant]
    spec fn wf(self) -> bool {
        forall|g: GateState| #[trigger] self.lock.inv(g)
    }

    /// Create a fresh instance, initially open.
    pub fn new() -> SimpleThreadsafeFunction {
        let lock = RwLock::new(GateState::new(), Ghost(|g: GateState| true));
        SimpleThreadsafeFunction { lock }
    }

    /// Attempt an invocation: take the lock and report the state at that
    /// moment, `Open` if not closed yet, `Closed` otherwise. No state is
    /// mutated.
    ///
    /// Which of the two comes back depends on the interleaving with
    /// concurrent `release` calls, so no more than the dichotomy can be
    /// promised here; the decision taken on the value read is the verified
    /// [`GateState::observe`].
    pub fn call(&self) -> (r: Status)
        ensures
            r == Status::Open || r == Status::Closed,
    {
        let read_handle = self.lock.acquire_read();
        let r = read_handle.borrow().observe();
        read_handle.release_read();
        r
    }

    /// Shut the primitive: take the lock and set `closed`. Idempotent —
    /// racing owners may all call this; every call after the first finds
    /// the bit already set and leaves it so. The mutation is the verified
    /// [`GateState::shut`], which never reopens a closed state.
    pub fn release(&self) {
        proof {
            use_type_invariant(self);
        }
        let (mut state, write_handle) = self.lock.acquire_write();
        state.shut();
        write_handle.release_write(state);
    }
}

} // verus!
