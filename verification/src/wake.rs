use vstd::prelude::*;
use crate::parker::{Parker, spec_unpark};

verus! {

/// A notification capability bound to one `Parker` instance.
///
/// Code that knows nothing of the parker — a suspended task's table entry,
/// a timer — holds one of these and can still trigger an unpark. The
/// capability offers four operations: `clone`, `wake` (by value, a one-shot
/// consuming use of the handle), `wake_by_ref` (the holder keeps the handle),
/// and the implicit drop. The host's ownership tracking does the reference
/// accounting that a hand-rolled vtable would otherwise need: every clone is
/// released exactly once, by `wake` or by going out of scope.
#[derive(Debug, PartialEq, Eq, Structural)]
pub struct WakeHandle {
    /// Identity of the parker this handle is bound to.
    pub parker_id: u64,
}

impl WakeHandle {
    /// A handle bound to the given parker.
    pub fn new(p: &Parker) -> (h: WakeHandle)
        ensures
            h.parker_id == p.id,
    {
        WakeHandle { parker_id: p.id }
    }

    /// Wake by value: unpark the bound parker, consuming this handle.
    pub fn wake(self, p: &mut Parker)
        requires
            self.parker_id == old(p).id,
        ensures
            *final(p) == spec_unpark(*old(p)),
    {
        p.unpark();
    }

    /// Wake without giving the handle up, for a holder that may need to
    /// wake again later.
    pub fn wake_by_ref(&self, p: &mut Parker)
        requires
            self.parker_id == old(p).id,
        ensures
            *final(p) == spec_unpark(*old(p)),
    {
        p.unpark();
    }
}

impl Clone for WakeHandle {
    /// A new handle sharing the same bound parker.
    fn clone(&self) -> (h: Self)
        ensures
            h == *self,
    {
        WakeHandle { parker_id: self.parker_id }
    }
}

} // verus!
