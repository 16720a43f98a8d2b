use vstd::prelude::*;
use crate::error::InvariantViolation;

verus! {

/// A call that releases a native handle.
#[derive(Clone, Copy, Debug, PartialEq, Eq, Structural)]
pub enum ReleaseStep {
    /// Close the connection; its status is observed and ignored.
    Close,
    /// Free the handle; afterwards the handle must be null.
    Free,
    /// Nothing is left to release.
    Done,
}

/// The release of one native handle: close (for a device) then free, each at
/// most once, whatever the close reports.
pub struct Teardown {
    close_pending: bool,
    free_pending: bool,
}

impl Teardown {
    pub closed spec fn spec_close_pending(self) -> bool {
        self.close_pending
    }

    pub closed spec fn spec_free_pending(self) -> bool {
        self.free_pending
    }

    /// A handle is never closed after it was freed.
    pub open spec fn wf(self) -> bool {
        self.spec_close_pending() ==> self.spec_free_pending()
    }

    /// The calls still to make, in order.
    pub open spec fn remaining(self) -> Seq<ReleaseStep> {
        if self.spec_close_pending() && self.spec_free_pending() {
            seq![ReleaseStep::Close, ReleaseStep::Free]
        } else if self.spec_free_pending() {
            seq![ReleaseStep::Free]
        } else {
            Seq::empty()
        }
    }

    /// The release of an open device: close, then free.
    pub fn for_device() -> (r: Self)
        ensures
            r.wf(),
            r.remaining() == seq![ReleaseStep::Close, ReleaseStep::Free],
    {
        Teardown { close_pending: true, free_pending: true }
    }

    /// The release of an assertion handle: free only.
    pub fn for_assertion() -> (r: Self)
        ensures
            r.wf(),
            r.remaining() == seq![ReleaseStep::Free],
    {
        Teardown { close_pending: false, free_pending: true }
    }

    /// The call to make now: the first of `remaining`, or `Done`.
    pub fn next_step(&self) -> (r: ReleaseStep)
        requires
            self.wf(),
        ensures
            self.remaining().len() > 0 ==> r == self.remaining()[0],
            self.remaining().len() == 0 <==> r == ReleaseStep::Done,
    {
        if self.close_pending {
            ReleaseStep::Close
        } else if self.free_pending {
            ReleaseStep::Free
        } else {
            ReleaseStep::Done
        }
    }

    /// Records that the close was made. Its status does not matter: the free
    /// comes next in any case.
    pub fn close_done(&mut self, status: i32)
        requires
            old(self).wf(),
            old(self).remaining().len() > 0,
            old(self).remaining()[0] == ReleaseStep::Close,
        ensures
            final(self).wf(),
            final(self).remaining() == old(self).remaining().drop_first(),
            final(self).remaining() == seq![ReleaseStep::Free],
    {
        self.close_pending = false;
        assert(old(self).remaining().drop_first() =~= seq![ReleaseStep::Free]);
    }

    /// Records that the free was made and whether the handle is null after it.
    /// A handle that is not null was not released: an invariant violation.
    pub fn free_done(&mut self, handle_is_null: bool) -> (r: Result<(), InvariantViolation>)
        requires
            old(self).wf(),
            old(self).remaining().len() > 0,
            old(self).remaining()[0] == ReleaseStep::Free,
        ensures
            final(self).wf(),
            final(self).remaining() == old(self).remaining().drop_first(),
            final(self).remaining().len() == 0,
            r is Ok <==> handle_is_null,
            r matches Err(e) ==> e == InvariantViolation::NotReleased,
    {
        self.free_pending = false;
        assert(old(self).remaining().drop_first() =~= Seq::<ReleaseStep>::empty());
        if handle_is_null {
            Ok(())
        } else {
            Err(InvariantViolation::NotReleased)
        }
    }
}

/// How many times `s` occurs in `steps`.
pub open spec fn occurrences(steps: Seq<ReleaseStep>, s: ReleaseStep) -> nat
    decreases steps.len(),
{
    if steps.len() == 0 {
        0
    } else {
        occurrences(steps.drop_last(), s) + if steps.last() == s { 1nat } else { 0nat }
    }
}

/// Every release frees its handle exactly once, as the last call, and closes
/// at most once, before the free.
pub proof fn lemma_released_exactly_once(t: Teardown)
    requires
        t.wf(),
        t.spec_free_pending(),
    ensures
        occurrences(t.remaining(), ReleaseStep::Free) == 1,
        occurrences(t.remaining(), ReleaseStep::Close) <= 1,
        t.remaining().last() == ReleaseStep::Free,
{
    let r = t.remaining();
    reveal_with_fuel(occurrences, 3);
    if t.spec_close_pending() {
        assert(r.drop_last() =~= seq![ReleaseStep::Close]);
        assert(r.drop_last().drop_last() =~= Seq::<ReleaseStep>::empty());
    } else {
        assert(r.drop_last() =~= Seq::<ReleaseStep>::empty());
    }
}

/// Once freed, a handle is never released again: nothing remains.
pub proof fn lemma_no_release_after_free(t: Teardown)
    requires
        t.wf(),
        !t.spec_free_pending(),
    ensures
        t.remaining().len() == 0,
        occurrences(t.remaining(), ReleaseStep::Free) == 0,
{
}

} // verus!
