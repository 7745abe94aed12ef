use vstd::prelude::*;
use crate::parker::Parker;
use crate::task::Poll;
use crate::wake::WakeHandle;

verus! {

/// What the driving loop does after one poll of its computation.
#[derive(Debug, PartialEq, Eq, Structural)]
pub enum ExecutorAction {
    /// Park the thread; re-poll once the wake handle unparks it.
    Park,
    /// The computation finished with this value; hand it to the caller.
    Done(usize),
}

/// The executor's decision rule: park exactly on "not yet done".
pub open spec fn spec_executor_step(res: Poll) -> ExecutorAction {
    match res {
        Poll::Ready(v) => ExecutorAction::Done(v),
        Poll::Pending => ExecutorAction::Park,
    }
}

/// A fresh driving context: a parker with the given identity, with no
/// resume pending, and a wake handle bound to that very parker — the
/// binding under which a wake stored with the reactor is guaranteed to
/// unblock this context's park.
pub fn new_context(id: u64) -> (ctx: (Parker, WakeHandle))
    ensures
        ctx.0 == (Parker { id, resumable: false }),
        ctx.1.parker_id == id,
{
    let p = Parker::new(id);
    let h = WakeHandle::new(&p);
    (p, h)
}

/// The executor's decision after one poll: park the thread on "not yet
/// done", stop with the final value otherwise. The loop around it — poll,
/// act, repeat — and the blocking wait inside park are the embedding's
/// work; every suspension is one park, resumed by one prior unpark.
pub fn executor_step(res: Poll) -> (a: ExecutorAction)
    ensures
        a == spec_executor_step(res),
{
    match res {
        Poll::Ready(v) => ExecutorAction::Done(v),
        Poll::Pending => ExecutorAction::Park,
    }
}

} // verus!
