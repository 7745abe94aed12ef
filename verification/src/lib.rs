//! The verified core of a minimal cooperative task runtime.
//!
//! The runtime lets a caller express a computation that waits on a timed
//! event as a suspendable task, and drives that task to completion by
//! re-polling it whenever the event fires, without spinning the driving
//! thread. This crate holds the logic of that runtime — the parker's latched
//! resume flag, the wake-handle capability, the reactor's task table with its
//! `NotReady -> Ready -> Finished` state machine, the poll protocol, and the
//! decision rules of the dispatcher and executor loops — each with a proved
//! contract. The blocking wait, the dispatcher thread, and the timer threads
//! that feed events into this logic are the embedding program's work: they
//! call these functions and perform the actions their contracts describe.

pub mod executor;
pub mod parker;
pub mod reactor;
pub mod task;
pub mod wake;

pub use executor::ExecutorAction;
pub use parker::Parker;
pub use reactor::{DispatchAction, Event, Reactor, TaskState};
pub use task::{Poll, Task};
pub use wake::WakeHandle;
