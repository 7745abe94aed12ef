use vstd::prelude::*;
use crate::parker::{Parker, park_enabled, spec_unpark};
use crate::reactor::{Event, Reactor, TaskState, spec_finish, spec_register, spec_wake};
use crate::wake::WakeHandle;

verus! {

/// What one poll of a task reports: its completion value — the task's own
/// identity — or "not yet done, re-poll after a wake".
#[derive(Debug, PartialEq, Eq, Structural)]
pub enum Poll {
    Ready(usize),
    Pending,
}

/// A suspendable unit of work waiting on one timed event.
///
/// A task is an identity (caller-chosen, unique among live tasks) and the
/// timer duration, in whole seconds, it waits on. It owns no background
/// resources; all live with the reactor, which the embedding shares between
/// the driving thread and its timers and passes to each poll.
#[derive(Debug, PartialEq, Eq, Structural)]
pub struct Task {
    /// Caller-chosen identity, unique for the task's lifetime.
    pub id: usize,
    /// Seconds the task's timer waits before the wake fires.
    pub data: u64,
}

/// The table after one poll of `id`: a `Ready` record moves to `Finished`
/// (completion is observed); otherwise the record is set — created on the
/// first poll, refreshed on later ones — to `NotReady` with the polling
/// context's handle.
pub open spec fn spec_poll_table(m: Map<usize, TaskState>, id: usize, h: WakeHandle) -> Map<
    usize,
    TaskState,
> {
    if m.contains_key(id) && m[id] is Ready {
        spec_finish(m, id)
    } else {
        spec_register(m, h, id)
    }
}

/// What one poll of `id` reports: its identity exactly when the record is
/// `Ready`, else "not yet done".
pub open spec fn spec_poll_result(m: Map<usize, TaskState>, id: usize) -> Poll {
    if m.contains_key(id) && m[id] is Ready {
        Poll::Ready(id)
    } else {
        Poll::Pending
    }
}

/// The event a poll asks the dispatcher for: one timeout on the first poll
/// (registration), and never again — a task allocates at most one timer.
pub open spec fn spec_poll_event(m: Map<usize, TaskState>, id: usize, duration: u64) -> Option<
    Event,
> {
    if m.contains_key(id) {
        None
    } else {
        Some(Event::Timeout(duration, id))
    }
}

impl Task {
    /// A task with the given timer duration (whole seconds) and identity.
    pub fn new(data: u64, id: usize) -> (t: Task)
        ensures
            t == (Task { id, data }),
    {
        Task { id, data }
    }

    /// One step of the poll protocol, against the shared reactor, with the
    /// wake handle of the current polling context.
    ///
    /// First poll: registers the identity and returns the timeout event the
    /// embedding must send to the dispatcher, reporting `Pending`. Record
    /// still `NotReady`: stores the latest handle, reporting `Pending`.
    /// Record `Ready`: moves it to `Finished` and reports the identity —
    /// the completion is observed by this very poll, exactly once. Polling
    /// after that observation is out of contract, as the record holds.
    pub fn poll(&self, r: &mut Reactor, handle: WakeHandle) -> (res: (Poll, Option<Event>))
        requires
            old(r)@.contains_key(self.id) ==> !(old(r)@[self.id] is Finished),
        ensures
            final(r)@ == spec_poll_table(old(r)@, self.id, handle),
            res.0 == spec_poll_result(old(r)@, self.id),
            res.1 == spec_poll_event(old(r)@, self.id, self.data),
    {
        if r.is_ready(self.id) {
            r.finish(self.id);
            (Poll::Ready(self.id), None)
        } else if r.contains(self.id) {
            r.refresh(self.id, handle);
            (Poll::Pending, None)
        } else {
            let e = r.register(self.data, handle, self.id);
            (Poll::Pending, Some(e))
        }
    }
}

/// Exactly-once completion: for an identity registered once, the poll
/// protocol yields the identity as the result exactly once, and the record
/// ends `Finished`.
///
/// From a table without `id`: the first poll registers it and asks for
/// exactly one timer, reporting `Pending`; every further poll before the
/// wake reports `Pending` and asks for no second timer; after the wake the
/// next poll — and only that one — reports `Ready(id)` and leaves the record
/// `Finished`, where `Task::poll`'s contract admits no further poll of `id`.
pub proof fn lemma_exactly_once_completion(
    m: Map<usize, TaskState>,
    id: usize,
    duration: u64,
    h0: WakeHandle,
    h1: WakeHandle,
)
    requires
        !m.contains_key(id),
    ensures
        ({
            let m1 = spec_poll_table(m, id, h0);
            let m2 = spec_wake(m1, id);
            let m3 = spec_poll_table(m2, id, h1);
            &&& spec_poll_result(m, id) == Poll::Pending
            &&& spec_poll_event(m, id, duration) == Some(Event::Timeout(duration, id))
            &&& m1[id] == TaskState::NotReady(h0)
            &&& spec_poll_result(m1, id) == Poll::Pending
            &&& spec_poll_event(m1, id, duration) == None::<Event>
            &&& spec_poll_table(m1, id, h1)[id] == TaskState::NotReady(h1)
            &&& m2[id] == TaskState::Ready
            &&& spec_poll_result(m2, id) == Poll::Ready(id)
            &&& spec_poll_event(m2, id, duration) == None::<Event>
            &&& m3 == spec_finish(m2, id)
            &&& m3[id] == TaskState::Finished
        }),
{
}

/// The wake chain has no gap: when the timer fires for a registered,
/// still-waiting identity whose stored handle is bound to the executor's
/// parker, the reactor's wake marks the record `Ready`, invoking the handle
/// leaves that parker resumable — so the parked executor returns — and its
/// next poll of the identity completes.
pub proof fn lemma_wake_unblocks_executor(
    m: Map<usize, TaskState>,
    id: usize,
    p: Parker,
    h: WakeHandle,
)
    requires
        m.contains_key(id),
        m[id] == TaskState::NotReady(h),
        h.parker_id == p.id,
    ensures
        spec_wake(m, id)[id] == TaskState::Ready,
        park_enabled(spec_unpark(p)),
        spec_poll_result(spec_wake(m, id), id) == Poll::Ready(id),
{
}

} // verus!
