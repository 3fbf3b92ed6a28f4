use vstd::prelude::*;

use crate::errors::{PoolCreationError, WorkerCreationError};

verus! {

/// Where a pool is in its life.
#[derive(Debug, Clone, Copy, PartialEq, Eq, Structural)]
pub enum PoolState {
    /// Accepting jobs; every worker runs.
    Active,
    /// The channel is closed; workers are being joined in construction order.
    ShuttingDown,
    /// Every worker has been joined.
    Stopped,
}

/// Starting worker `id` with `spawn` can give back a handle.
pub open spec fn started<H, F: Fn(usize) -> Result<H, WorkerCreationError>>(
    spawn: F,
    id: usize,
) -> bool {
    exists|h: H| spawn.ensures((id,), Ok::<H, WorkerCreationError>(h))
}

/// One worker: its number, and the handle of its thread until it is joined.
pub struct Worker<H> {
    pub id: usize,
    pub thread: Option<H>,
}

/// The pool's bookkeeping over its workers, generic over the handle that
/// starting a worker's thread gives back.
pub struct ThreadPool<H> {
    workers: Vec<Worker<H>>,
    state: PoolState,
    joined: usize,
}

impl<H> ThreadPool<H> {
    /// The workers, in construction order.
    pub closed spec fn workers(&self) -> Seq<Worker<H>> {
        self.workers@
    }

    pub closed spec fn lifecycle(&self) -> PoolState {
        self.state
    }

    /// How many workers have been handed out for joining.
    pub closed spec fn joined_count(&self) -> nat {
        self.joined as nat
    }

    /// How many workers still hold a thread handle.
    pub open spec fn remaining(&self) -> nat {
        (self.workers().len() - self.joined_count()) as nat
    }

    /// Worker `i` has id `i`; the workers before `joined_count` have given up
    /// their handle and the others still hold one; an active pool has joined
    /// none; a stopped pool has joined all.
    pub closed spec fn wf(&self) -> bool {
        &&& self.workers@.len() > 0
        &&& self.joined <= self.workers@.len()
        &&& forall|i: int| 0 <= i < self.workers@.len() ==> #[trigger] self.workers@[i].id == i
        &&& forall|i: int| 0 <= i < self.workers@.len() ==>
            (#[trigger] self.workers@[i].thread is Some <==> i >= self.joined)
        &&& self.state == PoolState::Active ==> self.joined == 0
        &&& self.state == PoolState::Stopped ==> self.joined == self.workers@.len()
    }

    /// Builds a pool of `size` workers, starting worker `id` with
    /// `spawn(id)` for `id` from 0 up. A size of zero is refused before any
    /// thread is started; the first start that fails ends the build with
    /// its error, every start before it having succeeded, and the handles
    /// already made are dropped.
    pub fn build<F>(size: usize, spawn: F) -> (r: Result<ThreadPool<H>, PoolCreationError>)
        where
            F: Fn(usize) -> Result<H, WorkerCreationError>,
        requires
            forall|id: usize| id < size ==> #[trigger] spawn.requires((id,)),
        ensures
            size == 0 <==> r matches Err(PoolCreationError::ZeroSize),
            r matches Ok(p) ==> {
                &&& p.wf()
                &&& p.lifecycle() == PoolState::Active
                &&& p.workers().len() == size
                &&& p.remaining() == size
                &&& forall|i: int| 0 <= i < size ==> (#[trigger] p.workers()[i]).id == i
                &&& forall|i: int| 0 <= i < size ==> (#[trigger] p.workers()[i]).thread is Some
                &&& forall|i: int| 0 <= i < size ==> spawn.ensures(
                    (i as usize,),
                    Ok::<H, WorkerCreationError>(#[trigger] p.workers()[i].thread->Some_0),
                )
            },
            r is Err && r->Err_0 is WorkerCreationError ==> exists|k: usize|
                {
                    &&& k < size
                    &&& #[trigger] spawn.ensures(
                        (k,),
                        Err::<H, WorkerCreationError>(r->Err_0->WorkerCreationError_0),
                    )
                    &&& forall|j: usize| j < k ==> #[trigger] started::<H, F>(spawn, j)
                },
    {
        if size == 0 {
            return Err(PoolCreationError::ZeroSize);
        }
        let mut workers: Vec<Worker<H>> = Vec::with_capacity(size);
        let mut id: usize = 0;
        while id < size
            invariant
                id <= size,
                workers@.len() == id,
                forall|i: usize| i < size ==> #[trigger] spawn.requires((i,)),
                forall|i: int| 0 <= i < id ==> #[trigger] workers@[i].id == i,
                forall|i: int| 0 <= i < id ==> (#[trigger] workers@[i].thread) is Some,
                forall|i: int| 0 <= i < id ==> spawn.ensures(
                    (i as usize,),
                    Ok::<H, WorkerCreationError>(#[trigger] workers@[i].thread->Some_0),
                ),
            decreases size - id,
        {
            match spawn(id) {
                Ok(h) => {
                    workers.push(Worker { id, thread: Some(h) });
                },
                Err(e) => {
                    let r: Result<ThreadPool<H>, PoolCreationError> = Err(
                        PoolCreationError::WorkerCreationError(e),
                    );
                    proof {
                        assert(spawn.ensures(
                            (id,),
                            Err::<H, WorkerCreationError>(r->Err_0->WorkerCreationError_0),
                        ));
                        assert forall|j: usize| j < id implies #[trigger] started::<H, F>(
                            spawn,
                            j,
                        ) by {
                            let w = workers@[j as int];
                            assert(spawn.ensures(
                                (j,),
                                Ok::<H, WorkerCreationError>(w.thread->Some_0),
                            ));
                        }
                    }
                    return r;
                },
            }
            id = id + 1;
        }
        Ok(ThreadPool { workers, state: PoolState::Active, joined: 0 })
    }

    /// The number of workers, fixed at construction.
    pub fn size(&self) -> (r: usize)
        requires
            self.wf(),
        ensures
            r == self.workers().len(),
    {
        self.workers.len()
    }

    pub fn state(&self) -> (r: PoolState)
        ensures
            r == self.lifecycle(),
    {
        self.state
    }

    /// How many workers still hold a thread handle.
    pub fn live_workers(&self) -> (r: usize)
        requires
            self.wf(),
        ensures
            r == self.remaining(),
    {
        self.workers.len() - self.joined
    }

    /// Starts teardown. Returns `true` exactly once, on the first call, when
    /// the caller must close the job channel before joining any worker.
    pub fn begin_shutdown(&mut self) -> (close_channel: bool)
        requires
            old(self).wf(),
        ensures
            final(self).wf(),
            close_channel == (old(self).lifecycle() == PoolState::Active),
            old(self).lifecycle() == PoolState::Active ==> final(self).lifecycle()
                == PoolState::ShuttingDown,
            old(self).lifecycle() != PoolState::Active ==> final(self).lifecycle()
                == old(self).lifecycle(),
            final(self).workers().len() == old(self).workers().len(),
            final(self).joined_count() == old(self).joined_count(),
    {
        if self.state == PoolState::Active {
            self.state = PoolState::ShuttingDown;
            true
        } else {
            false
        }
    }

    /// During teardown, hands out the next worker to join, in construction
    /// order, with its handle. Once every worker has been handed out the
    /// pool is stopped and `None` comes back.
    pub fn next_to_join(&mut self) -> (r: Option<(usize, H)>)
        requires
            old(self).wf(),
            old(self).lifecycle() != PoolState::Active,
        ensures
            final(self).wf(),
            final(self).workers().len() == old(self).workers().len(),
            match r {
                Some((id, h)) => {
                    &&& old(self).lifecycle() == PoolState::ShuttingDown
                    &&& final(self).lifecycle() == PoolState::ShuttingDown
                    &&& id == old(self).joined_count()
                    &&& old(self).workers()[id as int].thread == Some(h)
                    &&& final(self).workers()[id as int].id == id
                    &&& final(self).workers()[id as int].thread is None
                    &&& forall|k: int| 0 <= k < old(self).workers().len() && k != id ==>
                        #[trigger] final(self).workers()[k] == old(self).workers()[k]
                    &&& final(self).joined_count() == old(self).joined_count() + 1
                    &&& final(self).remaining() + 1 == old(self).remaining()
                },
                None => {
                    &&& old(self).remaining() == 0
                    &&& final(self).lifecycle() == PoolState::Stopped
                    &&& final(self).workers() == old(self).workers()
                    &&& final(self).joined_count() == old(self).joined_count()
                },
            },
    {
        if self.joined == self.workers.len() {
            self.state = PoolState::Stopped;
            return None;
        }
        let i = self.joined;
        let mut w = Worker { id: 0, thread: None };
        std::mem::swap(&mut w, &mut self.workers[i]);
        let id = w.id;
        let h = w.thread;
        self.workers.set(i, Worker { id, thread: None });
        self.joined = i + 1;
        proof {
            assert forall|k: int| 0 <= k < self.workers@.len() implies
                (#[trigger] self.workers@[k].thread is Some <==> k >= self.joined) by {
                if k != i {
                    assert(self.workers@[k] == old(self).workers@[k]);
                }
            }
        }
        match h {
            Some(h) => Some((id, h)),
            None => None,
        }
    }

    /// Joins every worker not yet joined, in construction order, by handing
    /// its id and handle to `join`, which returns once that thread has ended.
    /// Returns what each call gave back, in the order of the calls: one call
    /// per worker still held, each with that worker's id and handle. The loop
    /// then stops the pool, so teardown ends whenever every `join` does.
    pub fn join_all<F, J>(&mut self, join: F) -> (r: Vec<J>)
        where
            F: Fn(usize, H) -> J,
        requires
            old(self).wf(),
            old(self).lifecycle() != PoolState::Active,
            forall|id: usize, h: H| #[trigger] join.requires((id, h)),
        ensures
            final(self).wf(),
            final(self).lifecycle() == PoolState::Stopped,
            final(self).remaining() == 0,
            final(self).workers().len() == old(self).workers().len(),
            r@.len() == old(self).remaining(),
            forall|i: int|
                0 <= i < r@.len() ==> join.ensures(
                    (
                        (old(self).joined_count() + i) as usize,
                        old(self).workers()[old(self).joined_count() + i].thread->Some_0,
                    ),
                    #[trigger] r@[i],
                ),
    {
        let ghost w0 = self.workers();
        let ghost j0 = self.joined_count();
        let mut out: Vec<J> = Vec::new();
        loop
            invariant
                self.wf(),
                self.lifecycle() != PoolState::Active,
                w0 == old(self).workers(),
                j0 == old(self).joined_count(),
                self.workers().len() == w0.len(),
                self.joined_count() == j0 + out@.len(),
                forall|k: int|
                    self.joined_count() <= k < w0.len() ==> #[trigger] self.workers()[k] == w0[k],
                forall|id: usize, h: H| #[trigger] join.requires((id, h)),
                forall|i: int|
                    0 <= i < out@.len() ==> join.ensures(
                        ((j0 + i) as usize, w0[j0 + i].thread->Some_0),
                        #[trigger] out@[i],
                    ),
            ensures
                self.wf(),
                self.lifecycle() == PoolState::Stopped,
                self.remaining() == 0,
                self.workers().len() == w0.len(),
                self.joined_count() == j0 + out@.len(),
                forall|i: int|
                    0 <= i < out@.len() ==> join.ensures(
                        ((j0 + i) as usize, w0[j0 + i].thread->Some_0),
                        #[trigger] out@[i],
                    ),
            decreases self.remaining(),
        {
            match self.next_to_join() {
                Some((id, h)) => {
                    let ghost before = out@;
                    let ghost n = out@.len() as int;
                    let v = join(id, h);
                    out.push(v);
                    proof {
                        assert(w0[j0 + n].thread == Some(h));
                        assert forall|i: int| 0 <= i < out@.len() implies join.ensures(
                            ((j0 + i) as usize, w0[j0 + i].thread->Some_0),
                            #[trigger] out@[i],
                        ) by {
                            if i < n {
                                assert(out@[i] == before[i]);
                            }
                        }
                    }
                },
                None => break,
            }
        }
        out
    }
}

/// Teardown cannot be reported done early: once a pool is stopped, every
/// one of its workers has been handed out for joining and none still holds
/// a thread handle.
pub proof fn lemma_stopped_pool_has_joined_all<H>(p: &ThreadPool<H>)
    requires
        p.wf(),
        p.lifecycle() == PoolState::Stopped,
    ensures
        p.remaining() == 0,
        p.joined_count() == p.workers().len(),
        forall|i: int| 0 <= i < p.workers().len() ==> (#[trigger] p.workers()[i]).thread is None,
{
}

/// A pool always has at least one worker, and never more handed out for
/// joining than it has.
pub proof fn lemma_pool_never_empty<H>(p: &ThreadPool<H>)
    requires
        p.wf(),
    ensures
        p.workers().len() > 0,
        p.joined_count() <= p.workers().len(),
        p.lifecycle() == PoolState::Active ==> p.remaining() == p.workers().len(),
{
}

} // verus!
