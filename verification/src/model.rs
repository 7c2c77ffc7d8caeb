use crate::status::Status;
use vstd::prelude::*;

verus! {

/// One atomic step taken by some owner of a handle group.
///
/// `Call` is an invocation attempt, `Abort` an explicit close request,
/// `CloneHandle` hands a new clone to another owner, and `DropHandle` is one
/// owner's teardown (the destructor's logic).
pub enum Op {
    Call,
    Abort,
    CloneHandle,
    DropHandle,
}

/// The shared state of one handle group: the lock-protected `closed` bit,
/// the atomic fast-path flag, and the number of live clones.
///
/// Each operation of the executable types is modelled as one step on this
/// state, taken at the operation's linearization point: reads and writes of
/// the `closed` bit are serialized by the lock, and the closing steps set
/// the bit before raising the flag, so a raised flag always reports an
/// already closed primitive.
pub ghost struct Lineage {
    /// The lock-protected `closed` bit of the inner instance.
    pub closed: bool,
    /// The shared atomic fast-path flag.
    pub aborted: bool,
    /// How many clones of the handle are alive.
    pub owners: nat,
}

/// The state created by `HighOrderThreadsafeFunction::new`: open, flag
/// down, a single owner.
pub open spec fn init() -> Lineage {
    Lineage { closed: false, aborted: false, owners: 1 }
}

/// What a `call` on state `s` observes: `Closed` as soon as either the
/// fast-path flag or the inner bit says so, otherwise `Open`.
pub open spec fn call_result(s: Lineage) -> Status {
    if s.aborted || s.closed {
        Status::Closed
    } else {
        Status::Open
    }
}

/// The state after one step. `Call` never mutates; `Abort` sets the
/// `closed` bit and raises the flag unless the flag is already up;
/// `CloneHandle` adds an owner; `DropHandle` removes one, and when the last
/// owner leaves without a prior abort it performs the same close-then-flag
/// sequence as `Abort`.
pub open spec fn apply(s: Lineage, op: Op) -> Lineage {
    match op {
        Op::Call => s,
        Op::Abort => {
            if s.aborted {
                s
            } else {
                Lineage { closed: true, aborted: true, ..s }
            }
        },
        Op::CloneHandle => Lineage { owners: s.owners + 1, ..s },
        Op::DropHandle => {
            if s.owners == 0 {
                s
            } else if s.aborted {
                Lineage { owners: (s.owners - 1) as nat, ..s }
            } else if s.owners == 1 {
                Lineage { closed: true, aborted: true, owners: 0 }
            } else {
                Lineage { owners: (s.owners - 1) as nat, ..s }
            }
        },
    }
}

/// The state after a whole sequence of steps, applied left to right.
pub open spec fn run(s: Lineage, ops: Seq<Op>) -> Lineage
    decreases ops.len(),
{
    if ops.len() == 0 {
        s
    } else {
        run(apply(s, ops[0]), ops.subrange(1, ops.len() as int))
    }
}

/// The group invariant. The two state bits never diverge: the flag is up
/// exactly when the `closed` bit is set, because the only closing steps set
/// both at their linearization point. In particular the documented
/// publication contract holds (a raised flag implies a closed primitive),
/// and so does its converse. Once no owner is left, the primitive is
/// closed.
pub open spec fn inv(s: Lineage) -> bool {
    &&& s.aborted == s.closed
    &&& s.owners == 0 ==> s.closed
}

/// The initial state satisfies the invariant.
pub proof fn lemma_inv_init()
    ensures
        inv(init()),
{
}

/// Every step preserves the invariant.
pub proof fn lemma_inv_apply(s: Lineage, op: Op)
    requires
        inv(s),
    ensures
        inv(apply(s, op)),
{
}

/// Every sequence of steps preserves the invariant.
pub proof fn lemma_inv_run(s: Lineage, ops: Seq<Op>)
    requires
        inv(s),
    ensures
        inv(run(s, ops)),
    decreases ops.len(),
{
    if ops.len() > 0 {
        lemma_inv_apply(s, ops[0]);
        lemma_inv_run(apply(s, ops[0]), ops.subrange(1, ops.len() as int));
    }
}

/// Closing is permanent: no step lowers the flag or clears the `closed`
/// bit, so once either is set it survives any sequence of steps.
pub proof fn lemma_closing_is_permanent(s: Lineage, ops: Seq<Op>)
    ensures
        s.closed ==> run(s, ops).closed,
        s.aborted ==> run(s, ops).aborted,
    decreases ops.len(),
{
    if ops.len() > 0 {
        lemma_closing_is_permanent(apply(s, ops[0]), ops.subrange(1, ops.len() as int));
    }
}

/// Monotonicity: once a call on some state of a handle group observes
/// `Closed`, every call after any further steps — by any clone — observes
/// `Closed` too; there is no way back to `Open`.
pub proof fn lemma_monotonicity(s: Lineage, ops: Seq<Op>)
    requires
        call_result(s) == Status::Closed,
    ensures
        call_result(run(s, ops)) == Status::Closed,
{
    lemma_closing_is_permanent(s, ops);
}

/// The close sequence is logically idempotent: aborting an already aborted
/// group changes nothing, so there is no observable difference between the
/// close action running once or many times, however many clones race to
/// trigger it.
pub proof fn lemma_abort_idempotent(s: Lineage)
    ensures
        s.aborted ==> apply(s, Op::Abort) == s,
        apply(apply(s, Op::Abort), Op::Abort) == apply(s, Op::Abort),
{
}

/// Exactly-once close, seen from the callers: after any clone's abort has
/// completed, no clone ever again proceeds with the guarded action,
/// whatever steps — calls, further aborts, clones, drops — happen in
/// between.
pub proof fn lemma_no_call_after_abort(s: Lineage, ops: Seq<Op>)
    ensures
        call_result(run(apply(s, Op::Abort), ops)) == Status::Closed,
{
    lemma_monotonicity(apply(s, Op::Abort), ops);
}

/// Steps after which the primitive has no reason to close: no abort, and
/// every drop leaves at least one owner alive.
pub open spec fn keeps_owners(s: Lineage, ops: Seq<Op>) -> bool
    decreases ops.len(),
{
    ops.len() == 0 || {
        &&& !(ops[0] is Abort)
        &&& (ops[0] is DropHandle ==> s.owners >= 2)
        &&& keeps_owners(apply(s, ops[0]), ops.subrange(1, ops.len() as int))
    }
}

/// No premature closing: while at least one clone stays alive and none
/// aborts, an open primitive stays open, and a call on the resulting state
/// observes `Open`.
pub proof fn lemma_no_premature_close(s: Lineage, ops: Seq<Op>)
    requires
        !s.closed,
        !s.aborted,
        keeps_owners(s, ops),
    ensures
        !run(s, ops).closed,
        !run(s, ops).aborted,
        call_result(run(s, ops)) == Status::Open,
    decreases ops.len(),
{
    if ops.len() > 0 {
        lemma_no_premature_close(apply(s, ops[0]), ops.subrange(1, ops.len() as int));
    }
}

/// Dropping both owners of a twice-held group closes the primitive: the
/// first teardown only lowers the owner count, the second finds itself
/// last and runs the close sequence.
pub proof fn lemma_drop_triggers_close(s: Lineage)
    requires
        s.owners == 2,
        !s.aborted,
    ensures
        apply(apply(s, Op::DropHandle), Op::DropHandle).closed,
        apply(apply(s, Op::DropHandle), Op::DropHandle).aborted,
{
}

/// The full lifecycle of the shortest shared group: create, clone once,
/// drop both clones without ever aborting — by the time the second drop
/// completes, the primitive is closed.
pub proof fn lemma_lifecycle_closes()
    ensures
        apply(apply(apply(init(), Op::CloneHandle), Op::DropHandle), Op::DropHandle).closed,
{
}

/// The fatal divergence is unreachable: in every state reachable from a
/// fresh handle group the fast-path flag and the `closed` bit agree, so at
/// no instant does the flag read "still open" while the inner state is
/// already closed, nor the reverse. Each operation is modelled as one step
/// at its linearization point; the executable `call` additionally
/// tolerates a complete close sequence landing between its two observation
/// points by reporting `Closed`, the truthful terminal answer.
pub proof fn lemma_fast_path_consistent(ops: Seq<Op>)
    ensures
        inv(run(init(), ops)),
        !(!run(init(), ops).aborted && run(init(), ops).closed),
{
    lemma_inv_init();
    lemma_inv_run(init(), ops);
}

} // verus!
