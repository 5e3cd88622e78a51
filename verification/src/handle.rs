//! The one-shot handle that carries a job's terminal result from the
//! background worker to the polling side.

use vstd::prelude::*;
use crate::job::JobResult;

verus! {

/// A single-slot transfer cell: written exactly once by the worker
/// (`resolve`), read at most once by the poller (`try_take`). Once the result
/// has been taken, every later poll observes "not yet", never the same result
/// twice.
pub struct JobHandle {
    slot: Option<JobResult>,
    resolved: bool,
}

/// The handle as a poll leaves it: the slot is empty, whether the poll
/// yielded a result or found none.
pub closed spec fn spec_after_take(h: JobHandle) -> JobHandle {
    JobHandle { slot: None, resolved: h.resolved }
}

impl JobHandle {
    /// Whether `resolve` has been called on this handle.
    pub closed spec fn is_resolved(self) -> bool {
        self.resolved
    }

    /// Whether the result has been handed out already.
    pub closed spec fn is_consumed(self) -> bool {
        self.resolved && self.slot is None
    }

    /// A result can only wait in the slot once the handle is resolved.
    pub closed spec fn wf(self) -> bool {
        self.slot is Some ==> self.resolved
    }

    /// The result waiting to be taken, if any.
    pub closed spec fn pending(self) -> Option<JobResult> {
        self.slot
    }

    /// A fresh, unresolved handle.
    pub fn new() -> (h: JobHandle)
        ensures
            !h.is_resolved(),
            !h.is_consumed(),
            h.pending() is None,
            h.wf(),
    {
        JobHandle { slot: None, resolved: false }
    }

    /// Whether `resolve` has been called on this handle.
    pub fn resolved_yet(&self) -> (r: bool)
        ensures
            r == self.is_resolved(),
    {
        self.resolved
    }

    /// Writes the terminal result. May be called at most once per handle;
    /// never blocks — it only fills the in-memory slot.
    pub fn resolve(&mut self, outcome: JobResult)
        requires
            !old(self).is_resolved(),
        ensures
            final(self).is_resolved(),
            !final(self).is_consumed(),
            final(self).pending() == Some(outcome),
            final(self).wf(),
    {
        self.slot = Some(outcome);
        self.resolved = true;
    }

    /// Polls for the result without blocking: a branch and a move, no loop,
    /// no wait. Yields the result the first time one is available; after
    /// that — and before the handle resolves — yields "not yet".
    pub fn try_take(&mut self) -> (r: Option<JobResult>)
        ensures
            r == old(self).pending(),
            *final(self) == spec_after_take(*old(self)),
            final(self).pending() is None,
            final(self).is_resolved() == old(self).is_resolved(),
            final(self).is_consumed() == old(self).is_resolved(),
            final(self).wf(),
            old(self).pending() is None ==> *final(self) == *old(self),
            old(self).wf() && !old(self).is_consumed() && old(self).pending() is None
                ==> !final(self).is_consumed(),
    {
        self.slot.take()
    }
}

/// Single consumption: the handle a poll leaves behind holds nothing, and
/// polling it again leaves it unchanged — so once a poll has yielded a
/// result, every later poll on the same handle yields "not yet", never the
/// same result twice.
pub proof fn lemma_single_consumption(h: JobHandle)
    ensures
        spec_after_take(h).pending() is None,
        spec_after_take(h).is_resolved() == h.is_resolved(),
        spec_after_take(spec_after_take(h)) == spec_after_take(h),
        h.pending() is Some && h.wf() ==> spec_after_take(h).is_consumed(),
{
}

} // verus!
