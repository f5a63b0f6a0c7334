use crate::work::ClientWork;
use std::collections::VecDeque;
use vstd::prelude::*;

verus! {

/// The abstract state of a client's work latch: the work waiting, oldest
/// first, and whether a worker holds the right to drain it.
pub ghost struct LatchModel {
    pub pending: Seq<ClientWork>,
    pub busy: bool,
}

/// The latch's invariant: while no worker drains, nothing waits.
pub open spec fn latch_wf(m: LatchModel) -> bool {
    !m.busy ==> m.pending.len() == 0
}

/// The state after `w` is submitted: it joins the tail and the latch is held.
pub open spec fn submitted(m: LatchModel, w: ClientWork) -> LatchModel {
    LatchModel { pending: m.pending.push(w), busy: true }
}

/// The state after a drainer finishes a pass: the latch is released if and
/// only if nothing arrived meanwhile.
pub open spec fn finished(m: LatchModel) -> LatchModel {
    LatchModel { pending: m.pending, busy: m.pending.len() > 0 }
}

/// A client's pending-work queue with a busy flag that admits one drainer
/// at a time. A drainer takes the work in passes and, when a pass finds
/// nothing more, releases the flag; work that arrives during a pass keeps
/// the flag held, so none is left behind.
pub struct WorkLatch {
    work_list: VecDeque<ClientWork>,
    work_lock: bool,
}

impl View for WorkLatch {
    type V = LatchModel;

    closed spec fn view(&self) -> LatchModel {
        LatchModel { pending: self.work_list@, busy: self.work_lock }
    }
}

impl WorkLatch {
    /// An idle latch with no work.
    pub fn new() -> (r: Self)
        ensures
            r@.pending == Seq::<ClientWork>::empty(),
            !r@.busy,
            latch_wf(r@),
    {
        WorkLatch { work_list: VecDeque::new(), work_lock: false }
    }

    /// Whether a drainer holds the latch.
    pub fn is_busy(&self) -> (r: bool)
        ensures
            r == self@.busy,
    {
        self.work_lock
    }

    /// Appends `work` and tries to take the latch. Returns whether the latch
    /// was free, in which case the caller is now the one drainer.
    pub fn submit(&mut self, work: ClientWork) -> (acquired: bool)
        requires
            latch_wf(old(self)@),
        ensures
            acquired == !old(self)@.busy,
            final(self)@ == submitted(old(self)@, work),
            latch_wf(final(self)@),
    {
        self.work_list.push_back(work);
        if self.work_lock {
            false
        } else {
            self.work_lock = true;
            true
        }
    }

    /// Hands the holder of the latch all work waiting, oldest first.
    pub fn take_all(&mut self) -> (r: Vec<ClientWork>)
        requires
            latch_wf(old(self)@),
            old(self)@.busy,
        ensures
            r@ == old(self)@.pending,
            final(self)@.pending.len() == 0,
            final(self)@.busy,
            latch_wf(final(self)@),
    {
        let mut r: Vec<ClientWork> = Vec::new();
        while self.work_list.len() > 0
            invariant
                self.work_lock,
                r@ + self.work_list@ == old(self)@.pending,
            decreases self.work_list@.len(),
        {
            match self.work_list.pop_front() {
                Some(w) => {
                    r.push(w);
                    assert(r@ + self.work_list@ =~= old(self)@.pending);
                },
                None => {},
            }
        }
        assert(r@ =~= old(self)@.pending);
        r
    }

    /// Ends a drain pass: releases the latch if nothing is waiting and
    /// returns `false`; otherwise keeps it and returns `true`, and the
    /// caller drains again.
    pub fn finish_drain(&mut self) -> (again: bool)
        requires
            latch_wf(old(self)@),
            old(self)@.busy,
        ensures
            again == (old(self)@.pending.len() > 0),
            final(self)@ == finished(old(self)@),
            latch_wf(final(self)@),
    {
        if self.work_list.len() > 0 {
            true
        } else {
            self.work_lock = false;
            false
        }
    }
}

/// One drainer at a time: while the latch is held, a submission does not
/// admit a second drainer, whatever was submitted before.
pub proof fn lemma_single_drainer(m: LatchModel, w1: ClientWork, w2: ClientWork)
    ensures
        submitted(m, w1).busy,
        submitted(submitted(m, w1), w2).busy,
{
}

/// No work is stranded: whenever the latch is released, nothing waits, so
/// every submission either admits a drainer or lands in a queue whose
/// drainer will find it on its next pass.
pub proof fn lemma_no_stranded_work(m: LatchModel, w: ClientWork)
    requires
        latch_wf(m),
        m.busy,
    ensures
        latch_wf(finished(m)),
        !finished(m).busy ==> finished(m).pending.len() == 0,
        submitted(m, w).pending.last() == w,
        finished(submitted(m, w)).busy,
{
}

} // verus!
