use vstd::prelude::*;
use std::collections::HashMap;
use crate::wake::WakeHandle;

verus! {

broadcast use vstd::std_specs::hash::group_hash_axioms;

/// The lifecycle of one registered task identity.
///
/// A record moves `NotReady -> Ready` exactly once per registration (the
/// reactor's wake path), then `Ready -> Finished` exactly once (the owning
/// task's poll). No other transition is legal, and the preconditions of
/// `Reactor::wake` and `Reactor::finish` admit no other.
#[derive(Debug, PartialEq, Eq, Structural)]
pub enum TaskState {
    /// Waiting on its timer; holds the wake handle to invoke when it fires.
    NotReady(WakeHandle),
    /// The timer fired; the owning task's next poll completes it.
    Ready,
    /// Completion was observed by the owning task's poll.
    Finished,
}

/// A message for the reactor's dispatcher thread: shut down, or schedule a
/// wake of the given task identity after the given number of seconds.
/// Events are consumed in send order by that single thread — the one place
/// where reactor-affecting operations are serialized.
#[derive(Debug, PartialEq, Eq, Structural)]
pub enum Event {
    Close,
    Timeout(u64, usize),
}

/// What the dispatcher thread does with one received event.
#[derive(Debug, PartialEq, Eq, Structural)]
pub enum DispatchAction {
    /// Stop receiving further events, and first join every timer thread
    /// spawned so far, so that no timer outlives the dispatcher.
    Shutdown,
    /// Spawn a timer that sleeps for the duration and then wakes the
    /// identity through the reactor.
    SpawnTimer(u64, usize),
}

/// The broker between tasks waiting on timers and the timer mechanism: the
/// table of outstanding task records, keyed by caller-chosen identity.
///
/// Viewed as a `Map<usize, TaskState>`. In the running system the table sits
/// behind the reactor's lock and is touched by the driving thread (register,
/// refresh, finish) and the timer threads (wake); each operation here is one
/// such critical section.
pub struct Reactor {
    tasks: HashMap<usize, TaskState>,
}

/// The table after registering identity `id`: a fresh `NotReady` record
/// holding the caller's wake handle.
pub open spec fn spec_register(m: Map<usize, TaskState>, h: WakeHandle, id: usize) -> Map<
    usize,
    TaskState,
> {
    m.insert(id, TaskState::NotReady(h))
}

/// The table after the timer for `id` fired: its record is `Ready`.
pub open spec fn spec_wake(m: Map<usize, TaskState>, id: usize) -> Map<usize, TaskState> {
    m.insert(id, TaskState::Ready)
}

/// The table after the owning task observed completion of `id`.
pub open spec fn spec_finish(m: Map<usize, TaskState>, id: usize) -> Map<usize, TaskState> {
    m.insert(id, TaskState::Finished)
}

/// The dispatcher's decision rule: `Close` stops the loop (joining all
/// timers first), `Timeout` spawns one timer for that registration.
pub open spec fn spec_dispatch(e: Event) -> DispatchAction {
    match e {
        Event::Close => DispatchAction::Shutdown,
        Event::Timeout(duration, id) => DispatchAction::SpawnTimer(duration, id),
    }
}

impl View for Reactor {
    type V = Map<usize, TaskState>;

    closed spec fn view(&self) -> Map<usize, TaskState> {
        self.tasks@
    }
}

impl Reactor {
    /// A reactor with no outstanding records.
    pub fn new() -> (r: Reactor)
        ensures
            r@ == Map::<usize, TaskState>::empty(),
    {
        Reactor { tasks: HashMap::new() }
    }

    /// Register a new task identity: insert a `NotReady` record holding the
    /// task's wake handle, and hand back the timeout event the caller must
    /// send to the dispatcher — exactly one timer per registration.
    ///
    /// Registering an identity that already has a record is a caller bug and
    /// fatal in the running system; the precondition rules it out here, and
    /// the embedding checks `contains` first and aborts as its contract says.
    pub fn register(&mut self, duration: u64, handle: WakeHandle, id: usize) -> (e: Event)
        requires
            !old(self)@.contains_key(id),
        ensures
            final(self)@ == spec_register(old(self)@, handle, id),
            e == Event::Timeout(duration, id),
    {
        self.tasks.insert(id, TaskState::NotReady(handle));
        Event::Timeout(duration, id)
    }

    /// Store the latest polling context's wake handle for a still-waiting
    /// record: the handle may legitimately differ between polls if the
    /// driving context changes.
    pub fn refresh(&mut self, id: usize, handle: WakeHandle)
        requires
            old(self)@.contains_key(id),
            old(self)@[id] is NotReady,
        ensures
            final(self)@ == spec_register(old(self)@, handle, id),
    {
        self.tasks.insert(id, TaskState::NotReady(handle));
    }

    /// The timer for `id` fired: replace its record with `Ready` and return
    /// the wake handle that was stored for it, for the caller to invoke.
    ///
    /// Waking an identity with no record, or one already `Finished` (a
    /// double wake — at most one timer exists per registration), is fatal in
    /// the running system; the precondition admits only a `NotReady` record.
    pub fn wake(&mut self, id: usize) -> (h: WakeHandle)
        requires
            old(self)@.contains_key(id),
            old(self)@[id] is NotReady,
        ensures
            final(self)@ == spec_wake(old(self)@, id),
            old(self)@[id] == TaskState::NotReady(h),
    {
        let h = match self.tasks.get(&id) {
            Some(TaskState::NotReady(w)) => w.clone(),
            _ => vstd::pervasive::unreached(),
        };
        self.tasks.insert(id, TaskState::Ready);
        h
    }

    /// The owning task observed readiness: move the record to `Finished`.
    /// Legal exactly once per registration, from `Ready` alone.
    pub fn finish(&mut self, id: usize)
        requires
            old(self)@.contains_key(id),
            old(self)@[id] is Ready,
        ensures
            final(self)@ == spec_finish(old(self)@, id),
    {
        self.tasks.insert(id, TaskState::Finished);
    }

    /// Whether `id` has a record that is `Ready`: the non-mutating check the
    /// owning task's poll makes first.
    pub fn is_ready(&self, id: usize) -> (b: bool)
        ensures
            b == (self@.contains_key(id) && self@[id] is Ready),
    {
        match self.tasks.get(&id) {
            Some(TaskState::Ready) => true,
            _ => false,
        }
    }

    /// Whether `id` has a record at all.
    pub fn contains(&self, id: usize) -> (b: bool)
        ensures
            b == self@.contains_key(id),
    {
        self.tasks.contains_key(&id)
    }

    /// Whether `id` has a record that is `Finished`. The embedding tests
    /// this before its wake path, to abort on a double wake exactly where
    /// the running system must.
    pub fn is_finished(&self, id: usize) -> (b: bool)
        ensures
            b == (self@.contains_key(id) && self@[id] is Finished),
    {
        match self.tasks.get(&id) {
            Some(TaskState::Finished) => true,
            _ => false,
        }
    }
}

/// The dispatcher thread's decision for one event. Receiving, spawning,
/// sleeping and joining are the embedding's work; this fixes what it must do.
pub fn dispatch(e: Event) -> (a: DispatchAction)
    ensures
        a == spec_dispatch(e),
{
    match e {
        Event::Close => DispatchAction::Shutdown,
        Event::Timeout(duration, id) => DispatchAction::SpawnTimer(duration, id),
    }
}

} // verus!
