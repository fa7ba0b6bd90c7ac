//! The core of a fixed-size worker pool.
//!
//! The pool is written as a monitor: one value holds the control channel and
//! the lifecycle of every worker, and each operation is a single atomic step on
//! it. Threads, locks and waiting are left to the caller, who serialises the
//! steps, runs the jobs that [`ThreadPool::dispatch`] hands out, and parks a
//! worker whenever there is nothing for it.

pub mod channel;
pub mod laws;
pub mod message;
pub mod model;
pub mod worker;

use vstd::prelude::*;
use crate::pool::channel::Channel;
use crate::pool::message::Message;
use crate::pool::model::{JobStatus, PoolState};
use crate::pool::worker::{
    report_of, Directive, JobFailure, JobOutcome, JoinFailure, Worker, WorkerState,
};

verus! {

/// Why a pool could not be created.
#[derive(Clone, Copy, Debug, PartialEq, Eq, Structural)]
pub enum PoolCreationError {
    /// A pool needs at least one worker.
    NoWorkers,
}

/// A fixed set of workers and the control channel that feeds them.
///
/// `J` is the type of a job. The pool never looks inside a job: it queues it,
/// hands it to one worker, and is told when that worker is done with it.
pub struct ThreadPool<J> {
    /// The workers, in registration order.
    workers: Vec<Worker>,
    /// The queue of messages between submitters and workers.
    channel: Channel<J>,
    /// How many workers have been joined.
    joined: usize,
    /// Whether shutdown has begun.
    stopping: bool,
    /// Whether every join so far was in good order.
    clean: bool,
    /// For each worker, the number of the job it is executing.
    current: Ghost<Seq<Option<int>>>,
    /// How many stop messages are queued.
    stops: Ghost<nat>,
    /// Every job ever submitted, in order.
    submitted: Ghost<Seq<J>>,
    /// What became of each job that a worker has taken.
    status: Ghost<Seq<JobStatus>>,
}

impl<J> View for ThreadPool<J> {
    type V = PoolState<J>;

    /// The pool as a state of the state machine.
    closed spec fn view(&self) -> PoolState<J> {
        PoolState {
            workers: Seq::new(self.workers@.len(), |i: int| self.workers@[i].state()),
            current: self.current@,
            joined: self.joined as nat,
            stopping: self.stopping,
            stops: self.stops@,
            submitted: self.submitted@,
            status: self.status@,
            clean: self.clean,
        }
    }
}

impl<J> ThreadPool<J> {
    /// The pool's state obeys the invariant of the state machine, the workers
    /// are numbered in registration order, and the channel holds what the
    /// state says is queued, with one receiver for each worker that has not
    /// terminated and its sender in place until teardown is complete.
    pub closed spec fn wf(&self) -> bool {
        &&& self@.inv()
        &&& forall|i: int| 0 <= i < self.workers@.len() ==> (#[trigger] self.workers@[i]).id() == i
        &&& self.channel@ == self@.queue()
        &&& self.channel.receivers() == self@.live()
        &&& self.channel.is_connected() == !self@.closed()
    }

    /// The state of a pool satisfies the invariant of the state machine, so
    /// that what is proved of states that satisfy it holds of every pool.
    pub proof fn lemma_state_inv(&self)
        requires
            self.wf(),
        ensures
            self@.inv(),
    {
    }

    /// Creates a pool of `size` workers, all of them waiting for work.
    pub fn new(size: usize) -> (pool: ThreadPool<J>)
        requires
            size > 0,
        ensures
            pool.wf(),
            pool@ == PoolState::<J>::init(size as nat),
    {
        let mut workers: Vec<Worker> = Vec::with_capacity(size);
        let mut id: usize = 0;
        while id < size
            invariant
                id <= size,
                workers@.len() == id,
                forall|i: int|
                    0 <= i < id ==> (#[trigger] workers@[i]).id() == i && workers@[i].state()
                        == WorkerState::Running,
            decreases size - id,
        {
            workers.push(Worker::new(id));
            id = id + 1;
        }
        let pool = ThreadPool {
            workers,
            channel: Channel::new(size),
            joined: 0,
            stopping: false,
            clean: true,
            current: Ghost(Seq::new(size as nat, |i: int| None)),
            stops: Ghost(0),
            submitted: Ghost(Seq::empty()),
            status: Ghost(Seq::empty()),
        };
        proof {
            PoolState::<J>::lemma_init_inv(size as nat);
            assert(pool@.workers =~= PoolState::<J>::init(size as nat).workers);
        }
        pool
    }

    /// Creates a pool of `size` workers, or says why there can be none.
    pub fn build(size: usize) -> (built: Result<ThreadPool<J>, PoolCreationError>)
        ensures
            size == 0 <==> built is Err,
            built matches Err(e) ==> e == PoolCreationError::NoWorkers,
            built matches Ok(pool) ==> pool.wf() && pool@ == PoolState::<J>::init(size as nat),
    {
        if size == 0 {
            Err(PoolCreationError::NoWorkers)
        } else {
            Ok(ThreadPool::new(size))
        }
    }

    /// The number of workers, fixed at creation.
    pub fn size(&self) -> (n: usize)
        ensures
            n == self@.size(),
    {
        self.workers.len()
    }

    /// Worker number `index`.
    pub fn worker(&self, index: usize) -> (worker: &Worker)
        requires
            self.wf(),
            index < self@.size(),
        ensures
            worker.id() == index,
            worker.state() == self@.workers[index as int],
    {
        &self.workers[index]
    }

    /// The number of messages waiting on the control channel.
    pub fn pending(&self) -> (n: usize)
        requires
            self.wf(),
        ensures
            n == self@.queue().len(),
    {
        self.channel.len()
    }

    /// Whether shutdown has begun.
    pub fn is_stopping(&self) -> (stopping: bool)
        ensures
            stopping == self@.stopping,
    {
        self.stopping
    }

    /// Whether teardown is complete.
    pub fn is_closed(&self) -> (closed: bool)
        ensures
            closed == self@.closed(),
    {
        self.stopping && self.joined == self.workers.len()
    }

    /// Whether every worker joined so far had ended in good order.
    pub fn is_clean(&self) -> (clean: bool)
        ensures
            clean == self@.clean,
    {
        self.clean
    }

    /// Submits a job: wraps it in a message and queues it behind everything
    /// submitted before. Does not wait for the job to start or to end.
    pub fn execute(&mut self, job: J)
        requires
            old(self).wf(),
            !old(self)@.stopping,
        ensures
            final(self).wf(),
            final(self)@ == old(self)@.submit(job),
    {
        proof {
            self@.lemma_submit_inv(job);
        }
        // While the pool is open every worker listens, so the channel takes
        // the message.
        let sent = self.channel.send(Message::NewJob(job));
        assert(sent is Ok);
        proof {
            self.submitted@ = self.submitted@.push(job);
            assert(self@.workers =~= old(self)@.workers);
        }
    }

    /// Begins shutdown: queues exactly one stop message for every worker,
    /// behind the jobs already submitted.
    pub fn shutdown(&mut self)
        requires
            old(self).wf(),
            !old(self)@.stopping,
        ensures
            final(self).wf(),
            final(self)@ == old(self)@.stop(),
    {
        proof {
            self@.lemma_stop_inv();
        }
        let size: usize = self.workers.len();
        let mut sent: usize = 0;
        while sent < size
            invariant
                sent <= size,
                size == old(self)@.size(),
                size == self.channel.receivers(),
                size > 0,
                self.channel.is_connected() == old(self).channel.is_connected(),
                self.channel@ == old(self).channel@ + Seq::new(
                    sent as nat,
                    |k: int| Message::<J>::Terminate,
                ),
                self.workers == old(self).workers,
                self.joined == old(self).joined,
                self.stopping == old(self).stopping,
                self.clean == old(self).clean,
                self.current == old(self).current,
                self.stops == old(self).stops,
                self.submitted == old(self).submitted,
                self.status == old(self).status,
            decreases size - sent,
        {
            let queued = self.channel.send(Message::Terminate);
            assert(queued is Ok);
            sent = sent + 1;
        }
        self.stopping = true;
        proof {
            self.stops@ = size as nat;
            assert(self@.workers =~= old(self)@.workers);
        }
    }

    /// Worker `id`, which is waiting, asks for the next message.
    ///
    /// With nothing queued the answer is `None` and nothing changes: the
    /// worker has to wait. Otherwise the oldest message leaves the queue. A job
    /// is handed out to be run and the worker is `Executing` until
    /// [`ThreadPool::complete`] is called for it; the stop message makes the
    /// worker `Terminated`.
    pub fn dispatch(&mut self, id: usize) -> (directive: Option<Directive<J>>)
        requires
            old(self).wf(),
            id < old(self)@.size(),
            old(self)@.workers[id as int] == WorkerState::Running,
        ensures
            final(self).wf(),
            directive == old(self)@.directive(),
            final(self)@ == old(self)@.dispatch(id as int),
    {
        proof {
            self@.lemma_dispatch_inv(id as int);
        }
        match self.channel.try_recv() {
            Ok(msg) => {
                let stop = msg.is_terminate();
                let directive = self.workers[id].receive(msg);
                if stop {
                    // A worker that stops listens no more.
                    self.channel.drop_receiver();
                }
                proof {
                    if stop {
                        self.stops@ = (self.stops@ - 1) as nat;
                    } else {
                        self.current@ = self.current@.update(
                            id as int,
                            Some(self.status@.len() as int),
                        );
                        self.status@ = self.status@.push(JobStatus::Running(id as int));
                    }
                    assert(self@.workers =~= old(self)@.dispatch(id as int).workers);
                }
                Some(directive)
            },
            Err(_) => {
                proof {
                    assert(self@.workers =~= old(self)@.workers);
                }
                None
            },
        }
    }

    /// Worker `id` has finished the job it was given, with `outcome`.
    ///
    /// The worker goes back to waiting whatever the outcome. A failure is
    /// returned as a report for the caller to pass on; it reaches nobody else
    /// and stops nothing.
    pub fn complete(&mut self, id: usize, outcome: JobOutcome) -> (report: Option<JobFailure>)
        requires
            old(self).wf(),
            id < old(self)@.size(),
            old(self)@.workers[id as int] == WorkerState::Executing,
        ensures
            final(self).wf(),
            report == report_of(id, outcome),
            final(self)@ == old(self)@.finish(id as int, outcome),
    {
        proof {
            self@.lemma_finish_inv(id as int, outcome);
        }
        let report = self.workers[id].finish(outcome);
        proof {
            let job = self.current@[id as int];
            if let Some(k) = job {
                self.status@ = self.status@.update(k, JobStatus::Done(outcome));
            }
            self.current@ = self.current@.update(id as int, None);
            assert(self@.workers =~= old(self)@.finish(id as int, outcome).workers);
        }
        report
    }

    /// The worker whose thread is to be joined next, in registration order;
    /// `None` before shutdown and once all are joined.
    pub fn next_to_join(&self) -> (next: Option<usize>)
        requires
            self.wf(),
        ensures
            next == if self@.stopping && self@.joined < self@.size() {
                Some(self@.joined as usize)
            } else {
                None
            },
    {
        if self.stopping && self.joined < self.workers.len() {
            Some(self.joined)
        } else {
            None
        }
    }

    /// Records that the thread of the next worker in registration order has
    /// been waited for.
    ///
    /// `thread_ok` says whether the thread ended without failure. The join is
    /// in good order if it did and the worker had terminated. After any other
    /// join the worker is written off, which is reported, and the remaining
    /// workers are joined all the same. With the last join the channel's
    /// sender goes.
    pub fn record_join(&mut self, thread_ok: bool) -> (report: Option<JoinFailure>)
        requires
            old(self).wf(),
            old(self)@.stopping,
            old(self)@.joined < old(self)@.size(),
        ensures
            final(self).wf(),
            final(self)@ == old(self)@.join(old(self)@.in_order(thread_ok)),
            report == if old(self)@.in_order(thread_ok) {
                None
            } else {
                Some(JoinFailure { worker: old(self)@.joined as usize })
            },
    {
        let size: usize = self.workers.len();
        let id: usize = self.joined;
        let terminated = self.workers[id].state() == WorkerState::Terminated;
        let in_order = thread_ok && terminated;
        proof {
            self@.lemma_join_inv(in_order);
        }
        if !terminated {
            self.workers[id].abandon();
            self.channel.drop_receiver();
        }
        proof {
            if let Some(k) = self.current@[id as int] {
                self.status@ = self.status@.update(k, JobStatus::Abandoned);
            }
            self.current@ = self.current@.update(id as int, None);
        }
        self.clean = self.clean && in_order;
        self.joined = id + 1;
        if self.joined == size {
            self.channel.disconnect();
        }
        proof {
            assert(self@.workers =~= old(self)@.join(in_order).workers);
        }
        if in_order {
            None
        } else {
            Some(JoinFailure { worker: id })
        }
    }
}

} // verus!
