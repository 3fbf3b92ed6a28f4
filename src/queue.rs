use std::collections::VecDeque;
use vstd::prelude::*;

use crate::errors::PoolExecuteError;

verus! {

/// What a worker finds when it looks into the queue.
pub enum Received<J> {
    /// The oldest waiting job, now owned by the caller.
    Job(J),
    /// The queue is closed and every job has been handed out: the worker exits.
    Closed,
    /// Nothing to do yet, but more may come: the worker waits.
    Pending,
}

/// The text of the error that a closed channel reports to a sender.
pub open spec fn closed_channel_message() -> Seq<char> {
    "sending on a closed channel"@
}

/// The job channel between a pool and its workers: an unbounded first-in
/// first-out queue, the sender's open flag, and the number of workers that
/// still listen. The ghost logs record every job accepted and every job
/// handed out, so that exactly-once delivery can be stated.
pub struct JobQueue<J> {
    jobs: VecDeque<J>,
    open: bool,
    receivers: usize,
    sent: Ghost<Seq<J>>,
    delivered: Ghost<Seq<J>>,
}

impl<J> JobQueue<J> {
    /// Jobs accepted and not yet handed out, oldest first.
    pub closed spec fn pending(&self) -> Seq<J> {
        self.jobs@
    }

    /// Whether the sending end is still held.
    pub closed spec fn is_open(&self) -> bool {
        self.open
    }

    /// How many workers listen on the receiving end.
    pub closed spec fn listeners(&self) -> nat {
        self.receivers as nat
    }

    /// Every job ever accepted, in the order it was accepted.
    pub closed spec fn sent(&self) -> Seq<J> {
        self.sent@
    }

    /// Every job ever handed to a worker, in the order it was handed out.
    pub closed spec fn delivered(&self) -> Seq<J> {
        self.delivered@
    }

    /// Each accepted job has either been handed out or is still waiting, and
    /// nothing else is in either log.
    pub closed spec fn wf(&self) -> bool {
        self.delivered@ + self.jobs@ == self.sent@
    }

    /// An open, empty queue that nobody listens on yet.
    pub fn new() -> (r: Self)
        ensures
            r.wf(),
            r.is_open(),
            r.listeners() == 0,
            r.pending() == Seq::<J>::empty(),
            r.sent() == Seq::<J>::empty(),
            r.delivered() == Seq::<J>::empty(),
    {
        let r = JobQueue {
            jobs: VecDeque::new(),
            open: true,
            receivers: 0,
            sent: Ghost(Seq::empty()),
            delivered: Ghost(Seq::empty()),
        };
        proof {
            assert(r.delivered@ + r.jobs@ =~= r.sent@);
        }
        r
    }

    /// Registers one more worker on the receiving end.
    pub fn attach_receiver(&mut self)
        requires
            old(self).wf(),
            old(self).listeners() < usize::MAX,
        ensures
            final(self).wf(),
            final(self).listeners() == old(self).listeners() + 1,
            final(self).is_open() == old(self).is_open(),
            final(self).pending() == old(self).pending(),
            final(self).sent() == old(self).sent(),
            final(self).delivered() == old(self).delivered(),
    {
        self.receivers = self.receivers + 1;
    }

    /// Removes one worker from the receiving end, when its thread ends.
    pub fn detach_receiver(&mut self)
        requires
            old(self).wf(),
            old(self).listeners() > 0,
        ensures
            final(self).wf(),
            final(self).listeners() == old(self).listeners() - 1,
            final(self).is_open() == old(self).is_open(),
            final(self).pending() == old(self).pending(),
            final(self).sent() == old(self).sent(),
            final(self).delivered() == old(self).delivered(),
    {
        self.receivers = self.receivers - 1;
    }

    /// Enqueues `job`. This fails, and the job is dropped unrun, when the
    /// sending end is closed or no worker listens any more.
    pub fn send(&mut self, job: J) -> (r: Result<(), PoolExecuteError>)
        requires
            old(self).wf(),
        ensures
            final(self).wf(),
            final(self).is_open() == old(self).is_open(),
            final(self).listeners() == old(self).listeners(),
            final(self).delivered() == old(self).delivered(),
            r is Ok <==> (old(self).is_open() && old(self).listeners() > 0),
            r is Ok ==> final(self).pending() == old(self).pending().push(job)
                && final(self).sent() == old(self).sent().push(job),
            r matches Err(PoolExecuteError::JobCreationError(m)) ==> m@ == closed_channel_message()
                && final(self).pending() == old(self).pending()
                && final(self).sent() == old(self).sent(),
    {
        if self.open && self.receivers > 0 {
            proof {
                self.sent@ = self.sent@.push(job);
            }
            self.jobs.push_back(job);
            proof {
                assert(self.delivered@ + self.jobs@ =~= self.sent@);
            }
            Ok(())
        } else {
            let m = "sending on a closed channel".to_owned();
            proof {
                reveal_strlit("sending on a closed channel");
            }
            Err(PoolExecuteError::JobCreationError(m))
        }
    }

    /// Takes the oldest waiting job. With none waiting, reports whether the
    /// queue is closed (the worker exits) or may still receive work.
    pub fn recv(&mut self) -> (r: Received<J>)
        requires
            old(self).wf(),
        ensures
            final(self).wf(),
            final(self).is_open() == old(self).is_open(),
            final(self).listeners() == old(self).listeners(),
            final(self).sent() == old(self).sent(),
            match r {
                Received::Job(j) => {
                    &&& old(self).pending().len() > 0
                    &&& j == old(self).pending()[0]
                    &&& final(self).pending() == old(self).pending().drop_first()
                    &&& final(self).delivered() == old(self).delivered().push(j)
                },
                Received::Closed => {
                    &&& old(self).pending().len() == 0
                    &&& !old(self).is_open()
                    &&& final(self).pending() == old(self).pending()
                    &&& final(self).delivered() == old(self).delivered()
                },
                Received::Pending => {
                    &&& old(self).pending().len() == 0
                    &&& old(self).is_open()
                    &&& final(self).pending() == old(self).pending()
                    &&& final(self).delivered() == old(self).delivered()
                },
            },
    {
        match self.jobs.pop_front() {
            Some(j) => {
                proof {
                    let old_jobs = old(self).jobs@;
                    self.delivered@ = self.delivered@.push(j);
                    assert(self.jobs@ =~= old_jobs.drop_first());
                    assert(self.delivered@ + self.jobs@ =~= old(self).delivered@ + old_jobs);
                }
                Received::Job(j)
            },
            None => {
                if self.open {
                    Received::Pending
                } else {
                    Received::Closed
                }
            },
        }
    }

    /// Drops the sending end. Jobs already waiting stay and are still handed
    /// out; from now on `send` fails. Returns whether the queue was open.
    pub fn close(&mut self) -> (was_open: bool)
        requires
            old(self).wf(),
        ensures
            final(self).wf(),
            was_open == old(self).is_open(),
            !final(self).is_open(),
            final(self).listeners() == old(self).listeners(),
            final(self).pending() == old(self).pending(),
            final(self).sent() == old(self).sent(),
            final(self).delivered() == old(self).delivered(),
    {
        let was_open = self.open;
        self.open = false;
        was_open
    }

    /// Whether the sending end is still held.
    pub fn open(&self) -> (r: bool)
        ensures
            r == self.is_open(),
    {
        self.open
    }

    /// How many workers listen on the receiving end.
    pub fn listener_count(&self) -> (r: usize)
        ensures
            r == self.listeners(),
    {
        self.receivers
    }

    /// The number of jobs waiting.
    pub fn len(&self) -> (r: usize)
        ensures
            r == self.pending().len(),
    {
        self.jobs.len()
    }
}

/// Every accepted job is handed out at most once and in the order it was
/// accepted: the jobs handed out are exactly the oldest ones sent, and the
/// jobs still waiting are exactly the rest.
pub proof fn lemma_each_job_delivered_once<J>(q: &JobQueue<J>)
    requires
        q.wf(),
    ensures
        q.delivered().len() + q.pending().len() == q.sent().len(),
        forall|i: int| 0 <= i < q.delivered().len() ==> #[trigger] q.delivered()[i] == q.sent()[i],
        forall|i: int|
            0 <= i < q.pending().len() ==> #[trigger] q.pending()[i] == q.sent()[q.delivered().len()
                + i],
{
    assert forall|i: int| 0 <= i < q.delivered().len() implies #[trigger] q.delivered()[i]
        == q.sent()[i] by {
        assert((q.delivered() + q.pending())[i] == q.delivered()[i]);
    }
    assert forall|i: int| 0 <= i < q.pending().len() implies #[trigger] q.pending()[i]
        == q.sent()[q.delivered().len() + i] by {
        assert((q.delivered() + q.pending())[q.delivered().len() + i] == q.pending()[i]);
    }
}

/// Drain: a queue that is closed and has nothing waiting, the only state in
/// which a worker is told to exit, has handed out every job ever accepted,
/// each exactly once and in order.
pub proof fn lemma_closed_queue_is_drained<J>(q: &JobQueue<J>)
    requires
        q.wf(),
        !q.is_open(),
        q.pending().len() == 0,
    ensures
        q.delivered() == q.sent(),
{
    assert(q.delivered() + q.pending() =~= q.delivered());
}

/// Jobs sent one after another, with no worker taking any in between, are
/// waiting in the order they were sent, after what was already waiting.
pub proof fn lemma_sends_keep_order<J>(q1: &JobQueue<J>, q2: &JobQueue<J>)
    requires
        q1.wf(),
        q2.wf(),
        q2.delivered() == q1.delivered(),
        q1.sent().len() <= q2.sent().len(),
        q2.sent().subrange(0, q1.sent().len() as int) == q1.sent(),
    ensures
        q2.pending() == q1.pending() + q2.sent().subrange(q1.sent().len() as int, q2.sent().len() as int),
{
    let d = q1.delivered();
    assert(d + q2.pending() == q2.sent());
    assert(d + q1.pending() == q1.sent());
    assert(q2.pending() =~= q2.sent().subrange(d.len() as int, q2.sent().len() as int));
    assert(q1.pending() =~= q1.sent().subrange(d.len() as int, q1.sent().len() as int));
    assert(q2.pending() =~= q1.pending() + q2.sent().subrange(q1.sent().len() as int, q2.sent().len() as int));
}

} // verus!
