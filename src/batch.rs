use vstd::prelude::*;

use crate::pipeline::JobFinish;

verus! {

/// Bounded-parallel fan-out over the tracks of a batch: tracks start in
/// order while fewer than `parallel` run, and a fatal error stops the batch.
#[derive(Debug, Clone, Copy, PartialEq, Eq, Structural)]
pub struct Batch {
    pub parallel: usize,
    pub total: usize,
    /// Tracks started so far; the next one to start has this index.
    pub started: usize,
    /// Tracks started and not finished.
    pub active: usize,
    /// A track ended with a fatal error.
    pub aborted: bool,
}

impl Batch {
    pub open spec fn wf(&self) -> bool {
        &&& self.parallel > 0
        &&& self.active <= self.parallel
        &&& self.active <= self.started
        &&& self.started <= self.total
    }

    pub open spec fn finished(&self) -> bool {
        self.aborted || (self.started == self.total && self.active == 0)
    }

    pub fn new(total: usize, parallel: usize) -> (r: Self)
        requires
            parallel > 0,
        ensures
            r.wf(),
            r == (Batch { parallel, total, started: 0, active: 0, aborted: false }),
    {
        Batch { parallel, total, started: 0, active: 0, aborted: false }
    }

    /// Starts the next track when a slot is free, none has failed fatally and
    /// one is left; returns its index.
    pub fn start_next(&mut self) -> (r: Option<usize>)
        requires
            old(self).wf(),
        ensures
            final(self).wf(),
            *final(self) == after_start(*old(self)),
            final(self).active <= final(self).parallel,
            (!old(self).aborted && old(self).active < old(self).parallel && old(self).started
                < old(self).total) ==> r == Some(old(self).started) && *final(self) == (Batch {
                started: (old(self).started + 1) as usize,
                active: (old(self).active + 1) as usize,
                ..*old(self)
            }),
            !(!old(self).aborted && old(self).active < old(self).parallel && old(self).started
                < old(self).total) ==> r.is_none() && *final(self) == *old(self),
    {
        if !self.aborted && self.active < self.parallel && self.started < self.total {
            let index = self.started;
            self.started = self.started + 1;
            self.active = self.active + 1;
            Some(index)
        } else {
            None
        }
    }

    /// Records that a running track finished as `finish` says.
    pub fn job_finished(&mut self, finish: JobFinish)
        requires
            old(self).wf(),
            old(self).active > 0,
        ensures
            final(self).wf(),
            *final(self) == after_finish(*old(self), finish),
            final(self).active == old(self).active - 1,
            final(self).aborted == (old(self).aborted || finish == JobFinish::Abort),
            final(self).started == old(self).started,
            final(self).parallel == old(self).parallel,
            final(self).total == old(self).total,
    {
        self.active = self.active - 1;
        if let JobFinish::Abort = finish {
            self.aborted = true;
        }
    }

    /// Whether nothing more will start or run.
    pub fn is_finished(&self) -> (r: bool)
        ensures
            r == self.finished(),
    {
        self.aborted || (self.started == self.total && self.active == 0)
    }

    /// Whether the batch as a whole succeeded so far: no track was fatal.
    pub fn succeeded(&self) -> (r: bool)
        ensures
            r == !self.aborted,
    {
        !self.aborted
    }
}

/// A call made on a batch.
#[derive(Debug, Clone, Copy, PartialEq, Eq, Structural)]
pub enum BatchOp {
    Start,
    Finish(JobFinish),
}

/// The batch after `start_next`.
pub open spec fn after_start(b: Batch) -> Batch {
    if !b.aborted && b.active < b.parallel && b.started < b.total {
        Batch { started: (b.started + 1) as usize, active: (b.active + 1) as usize, ..b }
    } else {
        b
    }
}

/// The batch after `job_finished`; a finish with nothing running is ignored.
pub open spec fn after_finish(b: Batch, finish: JobFinish) -> Batch {
    if b.active == 0 {
        b
    } else {
        Batch {
            active: (b.active - 1) as usize,
            aborted: b.aborted || finish == JobFinish::Abort,
            ..b
        }
    }
}

/// The batch after the calls `ops`, in order.
pub open spec fn apply_ops(b: Batch, ops: Seq<BatchOp>) -> Batch
    decreases ops.len(),
{
    if ops.len() == 0 {
        b
    } else {
        let next = match ops[0] {
            BatchOp::Start => after_start(b),
            BatchOp::Finish(f) => after_finish(b, f),
        };
        apply_ops(next, ops.drop_first())
    }
}

/// Whatever calls are made, never more than `parallel` tracks run at once;
/// and once a running track has failed fatally the batch reports failure and
/// starts nothing more, whatever the other tracks do.
pub proof fn lemma_batch_calls(b: Batch, ops: Seq<BatchOp>)
    requires
        b.wf(),
    ensures
        apply_ops(b, ops).wf(),
        apply_ops(b, ops).active <= b.parallel,
        apply_ops(b, ops).started >= b.started,
        b.aborted ==> apply_ops(b, ops).aborted && apply_ops(b, ops).started == b.started,
        (exists|i: int|
            0 <= i < ops.len() && #[trigger] ops[i] == BatchOp::Finish(JobFinish::Abort)
                && apply_ops(b, ops.take(i)).active > 0) ==> apply_ops(b, ops).aborted,
    decreases ops.len(),
{
    if ops.len() > 0 {
        let next = match ops[0] {
            BatchOp::Start => after_start(b),
            BatchOp::Finish(f) => after_finish(b, f),
        };
        let rest = ops.drop_first();
        lemma_batch_calls(next, rest);
        if exists|i: int|
            0 <= i < ops.len() && #[trigger] ops[i] == BatchOp::Finish(JobFinish::Abort)
                && apply_ops(b, ops.take(i)).active > 0 {
            let i = choose|i: int|
                0 <= i < ops.len() && #[trigger] ops[i] == BatchOp::Finish(JobFinish::Abort)
                    && apply_ops(b, ops.take(i)).active > 0;
            if i == 0 {
                assert(ops.take(0) =~= Seq::<BatchOp>::empty());
                assert(next.aborted);
            } else {
                assert(ops.take(i).drop_first() =~= rest.take(i - 1));
                assert(rest[i - 1] == ops[i]);
            }
        }
    }
}

} // verus!
