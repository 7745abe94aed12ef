use vstd::prelude::*;

verus! {

/// The executor's blocking primitive: a latched "resumable" flag.
///
/// In the running system the flag sits behind a mutex with a condition
/// variable, and `park` blocks until the flag is set; because the signal is
/// latched rather than edge-triggered, an `unpark` delivered before the
/// matching `park` is never lost. This type is the flag's state machine:
/// `park` carries the precondition that a resume is pending, which is exactly
/// the condition under which the blocking wait returns, and the embedding
/// supplies the wait itself.
pub struct Parker {
    /// Identity of this parker instance, so that a wake handle can be
    /// checked to be bound to the instance it is invoked on.
    pub id: u64,
    /// The latch: true when an `unpark` has been delivered and not yet
    /// consumed by a `park`.
    pub resumable: bool,
}

/// The state after `unpark`: the resume latch is set, whatever it was.
pub open spec fn spec_unpark(p: Parker) -> Parker {
    Parker { resumable: true, ..p }
}

/// The state after a `park` returns: the latch has been consumed.
pub open spec fn spec_park(p: Parker) -> Parker {
    Parker { resumable: false, ..p }
}

/// A `park` returns (rather than blocks) exactly when a resume is pending.
pub open spec fn park_enabled(p: Parker) -> bool {
    p.resumable
}

/// The state after `n` consecutive calls to `unpark`.
pub open spec fn spec_unpark_n(p: Parker, n: nat) -> Parker
    decreases n,
{
    if n == 0 {
        p
    } else {
        spec_unpark(spec_unpark_n(p, (n - 1) as nat))
    }
}

/// The state after `n` rounds of `unpark` immediately followed by `park`.
pub open spec fn spec_unpark_park_rounds(p: Parker, n: nat) -> Parker
    decreases n,
{
    if n == 0 {
        p
    } else {
        spec_park(spec_unpark(spec_unpark_park_rounds(p, (n - 1) as nat)))
    }
}

impl Parker {
    /// A fresh parker with the given identity and no pending resume.
    pub fn new(id: u64) -> (p: Parker)
        ensures
            p == (Parker { id, resumable: false }),
    {
        Parker { id, resumable: false }
    }

    /// Consume the pending resume.
    ///
    /// The caller parks only when a resume is pending; in the running system
    /// this precondition is met by waiting on the condition variable until
    /// the flag is observed set, re-checking across spurious signals.
    pub fn park(&mut self)
        requires
            park_enabled(*old(self)),
        ensures
            *final(self) == spec_park(*old(self)),
    {
        self.resumable = false;
    }

    /// Latch a pending resume, so that the next `park` returns at once.
    ///
    /// Safe to call any number of times before the matching `park`: repeated
    /// calls collapse to a single pending resume (`lemma_unpark_collapses`).
    pub fn unpark(&mut self)
        ensures
            *final(self) == spec_unpark(*old(self)),
    {
        self.resumable = true;
    }
}

/// No missed wakeup: if `unpark` is delivered before `park` is called, the
/// subsequent `park` returns immediately rather than blocking, and consumes
/// the pending resume.
pub proof fn lemma_no_missed_wakeup(p: Parker)
    ensures
        park_enabled(spec_unpark(p)),
        !spec_park(spec_unpark(p)).resumable,
        spec_park(spec_unpark(p)).id == p.id,
{
}

/// Repeated `unpark` collapses to a single pending resume: after any positive
/// number of unparks the parker's state is that of one `unpark`, exactly one
/// `park` returns without blocking, and a second `park` with no intervening
/// `unpark` finds no resume pending. Only one thread ever parks on a given
/// instance, so the latch need not count.
pub proof fn lemma_unpark_collapses(p: Parker, n: nat)
    requires
        n >= 1,
    ensures
        spec_unpark_n(p, n) == spec_unpark(p),
        park_enabled(spec_unpark_n(p, n)),
        !park_enabled(spec_park(spec_unpark_n(p, n))),
    decreases n,
{
    if n == 1 {
        assert(spec_unpark_n(p, 1) == spec_unpark(spec_unpark_n(p, 0)));
        assert(spec_unpark_n(p, 0) == p);
    } else {
        lemma_unpark_collapses(p, (n - 1) as nat);
        assert(spec_unpark_n(p, n) == spec_unpark(spec_unpark_n(p, (n - 1) as nat)));
    }
}

/// Pairing `unpark` with `park`, any number of rounds: at every round the
/// `park` finds the resume pending (returns without blocking), and each round
/// leaves the parker with the latch clear, ready for the next round.
pub proof fn lemma_unpark_park_rounds(p: Parker, n: nat)
    ensures
        park_enabled(spec_unpark(spec_unpark_park_rounds(p, n))),
        n >= 1 ==> !spec_unpark_park_rounds(p, n).resumable,
        spec_unpark_park_rounds(p, n).id == p.id,
    decreases n,
{
    if n >= 1 {
        lemma_unpark_park_rounds(p, (n - 1) as nat);
    }
}

} // verus!
