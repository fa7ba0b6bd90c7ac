//! The pool as a state machine: its abstract state, the steps that change it,
//! and the invariant that every step keeps.

use vstd::prelude::*;
use crate::pool::message::Message;
use crate::pool::worker::{Directive, JobOutcome, WorkerState};

verus! {

/// What became of a job once a worker had taken it.
pub enum JobStatus {
    /// The worker with this index is executing it.
    Running(int),
    /// Its execution has ended, with this outcome.
    Done(JobOutcome),
    /// Its worker's thread was lost while executing it.
    Abandoned,
}

/// The abstract state of a pool.
///
/// Jobs are known by the order of their submission: job `k` is
/// `submitted[k]`. The workers take them in that order, so the jobs taken so
/// far are the first `status.len()` of them, and `status[k]` says what became
/// of job `k`. The queue itself is not stored: it holds the jobs not yet taken,
/// in order, followed by `stops` stop messages.
pub struct PoolState<J> {
    /// The lifecycle of each worker, in registration order.
    pub workers: Seq<WorkerState>,
    /// For each worker, the job it is executing.
    pub current: Seq<Option<int>>,
    /// How many workers have been joined; they are joined in registration
    /// order.
    pub joined: nat,
    /// Whether shutdown has begun.
    pub stopping: bool,
    /// The stop messages still queued.
    pub stops: nat,
    /// Every job ever submitted, in order.
    pub submitted: Seq<J>,
    /// One entry for each job taken by a worker.
    pub status: Seq<JobStatus>,
    /// Whether every join so far found a thread that had ended in good order.
    pub clean: bool,
}

/// How many of `workers` are in state `state`.
pub open spec fn count_in(workers: Seq<WorkerState>, state: WorkerState) -> nat
    decreases workers.len(),
{
    if workers.len() == 0 {
        0
    } else {
        count_in(workers.drop_last(), state) + if workers.last() == state {
            1nat
        } else {
            0nat
        }
    }
}

/// A count is at most the number of workers; it is zero when no worker is in
/// the state counted, and all of them when every worker is.
pub proof fn lemma_count_bounds(workers: Seq<WorkerState>, state: WorkerState)
    ensures
        count_in(workers, state) <= workers.len(),
        count_in(workers, state) == 0 <==> forall|i: int|
            0 <= i < workers.len() ==> workers[i] != state,
        count_in(workers, state) == workers.len() <==> forall|i: int|
            0 <= i < workers.len() ==> workers[i] == state,
    decreases workers.len(),
{
    if workers.len() > 0 {
        let front = workers.drop_last();
        lemma_count_bounds(front, state);
        assert(forall|i: int| 0 <= i < front.len() ==> front[i] == workers[i]);
        if count_in(workers, state) == 0 {
            assert(forall|i: int| 0 <= i < workers.len() ==> workers[i] != state) by {
                assert(forall|i: int| 0 <= i < front.len() ==> front[i] != state);
            }
        }
        if count_in(workers, state) == workers.len() {
            assert(forall|i: int| 0 <= i < workers.len() ==> workers[i] == state) by {
                assert(forall|i: int| 0 <= i < front.len() ==> front[i] == state);
            }
        }
    }
}

/// A worker that changes state moves from one count to another.
pub proof fn lemma_count_update(
    workers: Seq<WorkerState>,
    i: int,
    to: WorkerState,
    state: WorkerState,
)
    requires
        0 <= i < workers.len(),
    ensures
        count_in(workers.update(i, to), state) + (if workers[i] == state {
            1nat
        } else {
            0nat
        }) == count_in(workers, state) + (if to == state {
            1nat
        } else {
            0nat
        }),
    decreases workers.len(),
{
    let updated = workers.update(i, to);
    if i == workers.len() - 1 {
        assert(updated.drop_last() =~= workers.drop_last());
    } else {
        lemma_count_update(workers.drop_last(), i, to, state);
        assert(updated.drop_last() =~= workers.drop_last().update(i, to));
    }
}

/// Workers that are all in one state are all counted for it, and for no
/// other.
pub proof fn lemma_count_uniform(n: nat, of: WorkerState, state: WorkerState)
    ensures
        count_in(Seq::new(n, |i: int| of), state) == if of == state {
            n
        } else {
            0
        },
    decreases n,
{
    if n > 0 {
        lemma_count_uniform((n - 1) as nat, of, state);
        assert(Seq::new(n, |i: int| of).drop_last() =~= Seq::new((n - 1) as nat, |i: int| of));
    }
}

impl<J> PoolState<J> {
    /// The number of workers.
    pub open spec fn size(self) -> nat {
        self.workers.len()
    }

    /// The number of jobs that workers have taken so far.
    pub open spec fn taken(self) -> nat {
        self.status.len()
    }

    /// The number of jobs still queued.
    pub open spec fn waiting(self) -> nat {
        (self.submitted.len() - self.status.len()) as nat
    }

    /// The workers that have not terminated.
    pub open spec fn live(self) -> nat {
        (self.workers.len() - count_in(self.workers, WorkerState::Terminated)) as nat
    }

    /// The workers that are executing a job.
    pub open spec fn busy(self) -> nat {
        count_in(self.workers, WorkerState::Executing)
    }

    /// The control channel's contents, oldest message first: the jobs not yet
    /// taken, then the stop messages.
    pub open spec fn queue(self) -> Seq<Message<J>> {
        Seq::new(
            self.waiting() + self.stops,
            |k: int|
                if k < self.waiting() {
                    Message::NewJob(self.submitted[self.taken() + k])
                } else {
                    Message::Terminate
                },
        )
    }

    /// Whether teardown is complete: shutdown has begun and every worker has
    /// been joined.
    pub open spec fn closed(self) -> bool {
        self.stopping && self.joined == self.size()
    }

    /// A new pool of `n` workers: nothing submitted, everybody waiting.
    pub open spec fn init(n: nat) -> PoolState<J> {
        PoolState {
            workers: Seq::new(n, |i: int| WorkerState::Running),
            current: Seq::new(n, |i: int| None),
            joined: 0,
            stopping: false,
            stops: 0,
            submitted: Seq::empty(),
            status: Seq::empty(),
            clean: true,
        }
    }

    /// A job is submitted: it joins the queue behind every earlier one.
    pub open spec fn submit(self, job: J) -> PoolState<J> {
        PoolState { submitted: self.submitted.push(job), ..self }
    }

    /// Shutdown begins: one stop message for every worker joins the queue.
    pub open spec fn stop(self) -> PoolState<J> {
        PoolState { stopping: true, stops: self.size(), ..self }
    }

    /// What the worker that takes the next message is told to do; `None` when
    /// nothing is queued.
    pub open spec fn directive(self) -> Option<Directive<J>> {
        if self.taken() < self.submitted.len() {
            Some(Directive::Run(self.submitted[self.taken() as int]))
        } else if self.stops > 0 {
            Some(Directive::Exit)
        } else {
            None
        }
    }

    /// Worker `i` takes the next message, if there is one.
    pub open spec fn dispatch(self, i: int) -> PoolState<J> {
        if self.taken() < self.submitted.len() {
            PoolState {
                workers: self.workers.update(i, WorkerState::Executing),
                current: self.current.update(i, Some(self.taken() as int)),
                status: self.status.push(JobStatus::Running(i)),
                ..self
            }
        } else if self.stops > 0 {
            PoolState {
                workers: self.workers.update(i, WorkerState::Terminated),
                stops: (self.stops - 1) as nat,
                ..self
            }
        } else {
            self
        }
    }

    /// Worker `i` reports that the job it was executing has ended.
    pub open spec fn finish(self, i: int, outcome: JobOutcome) -> PoolState<J> {
        PoolState {
            workers: self.workers.update(i, WorkerState::Running),
            current: self.current.update(i, None),
            status: match self.current[i] {
                Some(k) => self.status.update(k, JobStatus::Done(outcome)),
                None => self.status,
            },
            ..self
        }
    }

    /// Whether the join of the next worker in registration order is in good
    /// order: its thread ended without failure, and the worker had terminated.
    pub open spec fn in_order(self, thread_ok: bool) -> bool {
        thread_ok && self.workers[self.joined as int] == WorkerState::Terminated
    }

    /// The next worker in registration order is joined. Where its thread did
    /// not end in good order, the worker is written off together with the job
    /// it may have been executing.
    pub open spec fn join(self, in_order: bool) -> PoolState<J> {
        let i = self.joined as int;
        PoolState {
            workers: self.workers.update(i, WorkerState::Terminated),
            current: self.current.update(i, None),
            status: match self.current[i] {
                Some(k) => self.status.update(k, JobStatus::Abandoned),
                None => self.status,
            },
            joined: self.joined + 1,
            clean: self.clean && in_order,
            ..self
        }
    }

    /// What holds of a pool at every moment of its life.
    pub open spec fn inv(self) -> bool {
        &&& self.size() > 0
        &&& self.current.len() == self.size()
        &&& self.joined <= self.size()
        &&& self.taken() <= self.submitted.len()
        // Before shutdown nothing has been stopped or joined.
        &&& !self.stopping ==> self.joined == 0 && self.stops == 0 && self.live() == self.size()
        // No stop message is taken while a job is still queued.
        &&& self.stops <= self.size()
        &&& self.stopping && self.stops < self.size() ==> self.waiting() == 0
        // Every worker that can still ask for a message has a stop message
        // waiting for it, and there is none to spare unless a thread was lost.
        &&& self.stopping ==> self.live() <= self.stops
        &&& self.stopping && self.clean ==> self.live() == self.stops
        // Joined workers have terminated.
        &&& forall|i: int| 0 <= i < self.joined ==> self.workers[i] == WorkerState::Terminated
        // Workers and the jobs they execute point at each other.
        &&& forall|i: int|
            0 <= i < self.size() ==> (self.workers[i] == WorkerState::Executing
                <==> #[trigger] self.current[i] is Some)
        &&& forall|i: int|
            0 <= i < self.size() ==> (#[trigger] self.current[i] matches Some(k) ==> 0 <= k
                < self.taken() && self.status[k] == JobStatus::Running(i))
        &&& forall|k: int|
            0 <= k < self.taken() ==> (#[trigger] self.status[k] matches JobStatus::Running(i)
                ==> 0 <= i < self.size() && self.current[i] == Some(k))
        // Jobs are abandoned only with a lost thread.
        &&& self.clean ==> forall|k: int|
            0 <= k < self.taken() ==> !(#[trigger] self.status[k] is Abandoned)
    }

    /// A new pool satisfies the invariant; its queue is empty and all its
    /// workers are live.
    pub proof fn lemma_init_inv(n: nat)
        requires
            n > 0,
        ensures
            Self::init(n).inv(),
            Self::init(n).queue() == Seq::<Message<J>>::empty(),
            Self::init(n).live() == n,
    {
        let s = Self::init(n);
        lemma_count_uniform(n, WorkerState::Running, WorkerState::Terminated);
        assert(s.queue() =~= Seq::<Message<J>>::empty());
    }

    /// A submission keeps the invariant and puts the job at the back of the
    /// queue.
    pub proof fn lemma_submit_inv(self, job: J)
        requires
            self.inv(),
            !self.stopping,
        ensures
            self.submit(job).inv(),
            self.submit(job).queue() == self.queue().push(Message::NewJob(job)),
            self.submit(job).live() == self.live(),
    {
        let t = self.submit(job);
        assert(t.queue() =~= self.queue().push(Message::NewJob(job)));
    }

    /// The start of shutdown keeps the invariant and puts one stop message for
    /// each worker at the back of the queue.
    pub proof fn lemma_stop_inv(self)
        requires
            self.inv(),
            !self.stopping,
        ensures
            self.stop().inv(),
            self.stop().queue() == self.queue() + Seq::new(
                self.size(),
                |k: int| Message::<J>::Terminate,
            ),
            self.stop().live() == self.live(),
    {
        let t = self.stop();
        assert(t.queue() =~= self.queue() + Seq::new(
            self.size(),
            |k: int| Message::<J>::Terminate,
        ));
    }

    /// A waiting worker that asks for a message keeps the invariant. It is
    /// given the message at the front of the queue, if there is one, and
    /// ceases to be live exactly when that is a stop message.
    pub proof fn lemma_dispatch_inv(self, i: int)
        requires
            self.inv(),
            0 <= i < self.size(),
            self.workers[i] == WorkerState::Running,
        ensures
            self.dispatch(i).inv(),
            self.queue().len() == 0 <==> self.directive() is None,
            self.queue().len() > 0 ==> self.dispatch(i).queue() == self.queue().skip(1) && (
            match self.queue()[0] {
                Message::NewJob(job) => self.directive() == Some(Directive::Run(job)),
                Message::Terminate => self.directive() == Some(Directive::<J>::Exit),
            }),
            self.queue().len() == 0 ==> self.dispatch(i) == self,
            self.dispatch(i).live() == if self.directive() == Some(Directive::<J>::Exit) {
                (self.live() - 1) as nat
            } else {
                self.live()
            },
            self.directive() == Some(Directive::<J>::Exit) ==> self.live() > 0,
    {
        let t = self.dispatch(i);
        lemma_count_bounds(self.workers, WorkerState::Terminated);
        if self.taken() < self.submitted.len() {
            lemma_count_update(self.workers, i, WorkerState::Executing, WorkerState::Terminated);
            assert(t.queue() =~= self.queue().skip(1));
        } else if self.stops > 0 {
            lemma_count_update(self.workers, i, WorkerState::Terminated, WorkerState::Terminated);
            assert(t.queue() =~= self.queue().skip(1));
        }
    }

    /// The end of a job keeps the invariant and leaves the queue alone.
    pub proof fn lemma_finish_inv(self, i: int, outcome: JobOutcome)
        requires
            self.inv(),
            0 <= i < self.size(),
            self.workers[i] == WorkerState::Executing,
        ensures
            self.finish(i, outcome).inv(),
            self.finish(i, outcome).queue() == self.queue(),
            self.finish(i, outcome).live() == self.live(),
    {
        let t = self.finish(i, outcome);
        lemma_count_update(self.workers, i, WorkerState::Running, WorkerState::Terminated);
        assert(t.queue() =~= self.queue());
    }

    /// A join keeps the invariant and leaves the queue alone. The worker
    /// joined ceases to be live if it had not terminated.
    pub proof fn lemma_join_inv(self, in_order: bool)
        requires
            self.inv(),
            self.stopping,
            self.joined < self.size(),
            in_order ==> self.workers[self.joined as int] == WorkerState::Terminated,
        ensures
            self.join(in_order).inv(),
            self.join(in_order).queue() == self.queue(),
            self.join(in_order).live() == if self.workers[self.joined as int]
                == WorkerState::Terminated {
                self.live()
            } else {
                (self.live() - 1) as nat
            },
            self.workers[self.joined as int] != WorkerState::Terminated ==> self.live() > 0,
    {
        let i = self.joined as int;
        let t = self.join(in_order);
        lemma_count_bounds(self.workers, WorkerState::Terminated);
        lemma_count_update(self.workers, i, WorkerState::Terminated, WorkerState::Terminated);
        assert(t.queue() =~= self.queue());
    }
}

} // verus!
