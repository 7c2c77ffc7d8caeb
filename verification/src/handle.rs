use crate::status::Status;
use crate::tsfn::SimpleThreadsafeFunction;
use core::sync::atomic::AtomicBool;
use core::sync::atomic::Ordering;
use std::sync::Arc;
use vstd::prelude::*;

verus! {

/// A clonable, reference-counted handle distributing one
/// [`SimpleThreadsafeFunction`] to many owners.
///
/// All clones share the same atomic `aborted` flag and the same underlying
/// instance; the pair lives as long as the longest-lived clone. The flag is
/// a fast path: once it reads `true` under an acquire load, the underlying
/// state is already closed — every closing sequence shuts the inner state
/// first and only then raises the flag with a release store — so the lock
/// can be skipped.
///
/// What a single interleaved execution observes cannot be pinned down in a
/// per-call contract over this shared state; the decision logic each method
/// runs is verified where it acts on the values it read (`GateState`), and
/// the joint behaviour of all owners is stated and proved over the `model`
/// module's state machine, whose steps these methods implement at their
/// linearization points.
#[derive(Clone)]
pub struct HighOrderThreadsafeFunction {
    abort: Arc<AtomicBool>,
    inner: Arc<SimpleThreadsafeFunction>,
}

/// Relies on `std::sync::Arc::strong_count`: it returns the number of strong
/// references to the shared inner instance at some moment during the call.
/// At least one exists, since `inner` itself keeps the allocation alive for
/// the whole call. Under concurrent cloning and dropping the count may be
/// stale by the time it is returned; the one caller below uses it only at
/// teardown, where reading `1` means no other clone can appear anymore.
#[verifier::external_body]
fn shared_reference_count(inner: &Arc<SimpleThreadsafeFunction>) -> (n: usize)
    ensures
        n >= 1,
{
    Arc::strong_count(inner)
}

impl HighOrderThreadsafeFunction {
    /// Create a fresh handle group: an open inner state and a lowered
    /// fast-path flag, with this handle as the single owner. This is the
    /// only creation point of a handle group (`model::init`).
    pub fn new() -> HighOrderThreadsafeFunction {
        HighOrderThreadsafeFunction {
            abort: Arc::new(AtomicBool::new(false)),
            inner: Arc::new(SimpleThreadsafeFunction::new()),
        }
    }

    /// Attempt the guarded invocation: `Open` authorizes the caller to
    /// proceed, `Closed` tells it not to.
    ///
    /// Fast path: an acquire load of the shared flag; `true` reports
    /// `Closed` without touching the lock, which is sound because the flag
    /// is raised only after the inner state is shut. Otherwise the inner
    /// instance is consulted under its lock. A `Closed` answer on this slow
    /// path means a concurrent owner ran a complete close sequence between
    /// the flag load and the lock acquisition; the primitive is then closed
    /// for good and `Closed` is the correct, final answer, so it is
    /// returned rather than treated as a crash — a verified function does
    /// not panic, and at any single instant the flag and the inner state
    /// agree (`model::inv`, proved over every reachable state of the
    /// model).
    pub fn call(&self) -> (r: Status)
        ensures
            r == Status::Open || r == Status::Closed,
    {
        if !self.abort.load(Ordering::Acquire) {
            return self.inner.call();
        }
        Status::Closed
    }

    /// Explicitly and permanently shut the primitive.
    ///
    /// Idempotent: if the flag already reads `true`, someone has completed
    /// the close sequence and there is nothing to do. Otherwise the inner
    /// state is shut under its lock first, and only then is the flag raised
    /// with a release store — the publication order every fast-path reader
    /// relies on. Racing aborts at worst repeat `release`, which
    /// [`GateState::shut`](crate::tsfn::GateState::shut) shows is a no-op
    /// on an already closed state.
    pub fn abort(&self) {
        if self.abort.load(Ordering::Acquire) {
            return;
        }
        self.inner.release();
        self.abort.store(true, Ordering::Release);
    }

    /// One owner's teardown step; the destructor runs exactly this.
    ///
    /// If the flag already reads `true`, the inner state is known closed
    /// and nothing is left to do. Otherwise, if this handle's `inner` is
    /// the last strong reference, no other clone exists or can be made, so
    /// this owner performs the same close-then-flag sequence as
    /// [`Self::abort`]; with other clones still alive, closing is left to
    /// whichever of them aborts or is dropped last.
    pub fn retire(&self) {
        if self.abort.load(Ordering::Acquire) {
            return;
        }
        if shared_reference_count(&self.inner) == 1 {
            self.inner.release();
            self.abort.store(true, Ordering::Release);
        }
    }
}

impl Drop for HighOrderThreadsafeFunction {
    /// Relies on the runtime invoking `drop` once on each handle that goes
    /// out of scope. The body only forwards to the verified
    /// [`HighOrderThreadsafeFunction::retire`]; it cannot itself be
    /// verified because a verified `drop` must promise not to unwind, and
    /// the inner lock acquisition carries no such promise.
    #[verifier::external_body]
    fn drop(&mut self)
        opens_invariants none
        no_unwind
    {
        self.retire();
    }
}

} // verus!
