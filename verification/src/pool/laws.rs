//! What holds of every pool, whatever the order in which submitters and
//! workers take their steps.
//!
//! A schedule is a sequence of steps. Each operation of
//! [`ThreadPool`](crate::pool::ThreadPool) takes one step, and its contract
//! says which; so the laws below, which speak of every schedule that a pool
//! admits, speak of every interleaving of the pool's callers.

use vstd::prelude::*;
use crate::pool::model::{
    lemma_count_bounds, lemma_count_uniform, lemma_count_update, JobStatus, PoolState,
};
use crate::pool::worker::{JobOutcome, WorkerState};

verus! {

/// One atomic step of a pool.
pub enum Step<J> {
    /// A job is submitted.
    Submit(J),
    /// Shutdown begins.
    Stop,
    /// The worker with this index takes the oldest message.
    Dispatch(int),
    /// The worker with this index ends the job it was executing.
    Finish(int, JobOutcome),
    /// The next worker in registration order is joined; the flag says whether
    /// its thread had ended in good order.
    Join(bool),
}

/// The jobs that a schedule submits, in order.
pub open spec fn submissions<J>(steps: Seq<Step<J>>) -> Seq<J>
    decreases steps.len(),
{
    if steps.len() == 0 {
        Seq::empty()
    } else {
        match steps.last() {
            Step::Submit(job) => submissions(steps.drop_last()).push(job),
            _ => submissions(steps.drop_last()),
        }
    }
}

impl<J> PoolState<J> {
    /// Whether `step` can be taken in this state.
    ///
    /// Jobs are submitted and shutdown begins only before shutdown. A worker
    /// takes a message only while it waits and something is queued, and ends a
    /// job only while it executes one. Workers are joined after shutdown has
    /// begun, and a thread can have ended in good order only if its worker had
    /// terminated.
    pub open spec fn enabled(self, step: Step<J>) -> bool {
        match step {
            Step::Submit(_) => !self.stopping,
            Step::Stop => !self.stopping,
            Step::Dispatch(i) => 0 <= i < self.size() && self.workers[i] == WorkerState::Running
                && self.directive() is Some,
            Step::Finish(i, _) => 0 <= i < self.size() && self.workers[i]
                == WorkerState::Executing,
            Step::Join(in_order) => self.stopping && self.joined < self.size() && (in_order
                ==> self.workers[self.joined as int] == WorkerState::Terminated),
        }
    }

    /// The state after `step`.
    pub open spec fn step(self, step: Step<J>) -> PoolState<J> {
        match step {
            Step::Submit(job) => self.submit(job),
            Step::Stop => self.stop(),
            Step::Dispatch(i) => self.dispatch(i),
            Step::Finish(i, outcome) => self.finish(i, outcome),
            Step::Join(in_order) => self.join(in_order),
        }
    }

    /// The state after the steps of `steps`, taken in order.
    pub open spec fn run(self, steps: Seq<Step<J>>) -> PoolState<J>
        decreases steps.len(),
    {
        if steps.len() == 0 {
            self
        } else {
            self.run(steps.drop_last()).step(steps.last())
        }
    }

    /// Whether each step of `steps` can be taken when its turn comes.
    pub open spec fn admits(self, steps: Seq<Step<J>>) -> bool
        decreases steps.len(),
    {
        steps.len() == 0 || (self.admits(steps.drop_last()) && self.run(
            steps.drop_last(),
        ).enabled(steps.last()))
    }

    /// The steps that stand between this state and a completed teardown, if
    /// nothing more is submitted and no thread is lost: two for each job
    /// queued, one for each job being executed, one for each stop message to
    /// be sent or taken, and one for each worker to be joined.
    pub open spec fn work_left(self) -> nat {
        let to_send: nat = if self.stopping {
            0
        } else {
            self.size() + 1
        };
        (2 * self.waiting() + self.busy() + self.stops + to_send + (self.size() - self.joined))
            as nat
    }

    /// Every step keeps the invariant, and pays for itself: it brings the
    /// teardown one step nearer, or more where a thread was lost, except that
    /// a submission adds the three steps that its job will take.
    pub proof fn lemma_step(self, step: Step<J>)
        requires
            self.inv(),
            self.enabled(step),
        ensures
            self.step(step).inv(),
            self.step(step).size() == self.size(),
            self.step(step).clean ==> self.clean,
            self.stopping ==> self.step(step).stopping,
            step is Submit ==> self.step(step).work_left() == self.work_left() + 2,
            !(step is Submit) ==> self.step(step).work_left() < self.work_left(),
            !(step is Submit) && self.step(step).clean ==> self.step(step).work_left() + 1
                == self.work_left(),
    {
        lemma_count_bounds(self.workers, WorkerState::Executing);
        lemma_count_bounds(self.workers, WorkerState::Terminated);
        match step {
            Step::Submit(job) => {
                self.lemma_submit_inv(job);
            },
            Step::Stop => {
                self.lemma_stop_inv();
            },
            Step::Dispatch(i) => {
                self.lemma_dispatch_inv(i);
                if self.taken() < self.submitted.len() {
                    lemma_count_update(
                        self.workers,
                        i,
                        WorkerState::Executing,
                        WorkerState::Executing,
                    );
                } else {
                    lemma_count_update(
                        self.workers,
                        i,
                        WorkerState::Terminated,
                        WorkerState::Executing,
                    );
                }
            },
            Step::Finish(i, outcome) => {
                self.lemma_finish_inv(i, outcome);
                lemma_count_update(self.workers, i, WorkerState::Running, WorkerState::Executing);
            },
            Step::Join(in_order) => {
                self.lemma_join_inv(in_order);
                lemma_count_update(
                    self.workers,
                    self.joined as int,
                    WorkerState::Terminated,
                    WorkerState::Executing,
                );
            },
        }
    }

    /// The invariant holds after every schedule that the pool admits, and the
    /// length of the schedule is accounted for: three steps for each job
    /// submitted, and otherwise only steps that bring the teardown nearer.
    /// Unless a thread was lost, no step brings it nearer by more than one.
    pub proof fn lemma_run(self, steps: Seq<Step<J>>)
        requires
            self.inv(),
            self.admits(steps),
        ensures
            self.run(steps).inv(),
            self.run(steps).size() == self.size(),
            self.run(steps).clean ==> self.clean,
            self.stopping ==> self.run(steps).stopping,
            self.run(steps).submitted == self.submitted + submissions(steps),
            steps.len() + self.run(steps).work_left() <= self.work_left() + 3 * submissions(
                steps,
            ).len(),
            self.run(steps).clean ==> steps.len() + self.run(steps).work_left()
                == self.work_left() + 3 * submissions(steps).len(),
        decreases steps.len(),
    {
        if steps.len() == 0 {
            assert(self.submitted + submissions(steps) =~= self.submitted);
        } else {
            let before = steps.drop_last();
            let mid = self.run(before);
            self.lemma_run(before);
            mid.lemma_step(steps.last());
            match steps.last() {
                Step::Submit(job) => {
                    assert(self.submitted + submissions(steps) =~= (self.submitted + submissions(
                        before,
                    )).push(job));
                },
                _ => {},
            }
        }
    }

    /// A new pool satisfies the invariant and has `2 * n + 1` steps of
    /// teardown before it: one to send the stop messages, one for each worker
    /// to take its own, and one to join each worker.
    pub proof fn lemma_init(n: nat)
        requires
            n > 0,
        ensures
            Self::init(n).inv(),
            Self::init(n).work_left() == 2 * n + 1,
    {
        Self::lemma_init_inv(n);
        lemma_count_uniform(n, WorkerState::Running, WorkerState::Executing);
    }

    /// In a pool whose teardown is complete every worker has terminated and no
    /// job is being executed. If no thread was lost, the queue is empty too:
    /// every job submitted has been taken and executed to its end, and every
    /// stop message has been taken.
    pub proof fn lemma_closed(self)
        requires
            self.inv(),
            self.closed(),
        ensures
            forall|i: int| 0 <= i < self.size() ==> self.workers[i] == WorkerState::Terminated,
            self.busy() == 0,
            forall|k: int| 0 <= k < self.taken() ==> !(#[trigger] self.status[k] is Running),
            self.clean ==> self.queue().len() == 0,
            self.clean ==> self.status.len() == self.submitted.len(),
            self.clean ==> forall|k: int|
                0 <= k < self.submitted.len() ==> #[trigger] self.status[k] is Done,
            self.clean ==> self.work_left() == 0,
    {
        lemma_count_bounds(self.workers, WorkerState::Executing);
        lemma_count_bounds(self.workers, WorkerState::Terminated);
    }
}

/// Teardown of an idle pool. Take a pool of `n > 0` workers and any schedule
/// without a submission that it admits and that ends with the teardown
/// complete and no thread lost. Then the schedule has exactly `2 * n + 1`
/// steps: the stop messages are sent, each of the `n` workers takes one, and
/// each of the `n` workers is joined. At its end every worker has terminated,
/// `n` workers have been joined and the queue is empty.
pub proof fn law_idle_teardown<J>(n: nat, steps: Seq<Step<J>>)
    requires
        n > 0,
        PoolState::<J>::init(n).admits(steps),
        submissions(steps).len() == 0,
        PoolState::<J>::init(n).run(steps).closed(),
        PoolState::<J>::init(n).run(steps).clean,
    ensures
        steps.len() == 2 * n + 1,
        PoolState::<J>::init(n).run(steps).joined == n,
        PoolState::<J>::init(n).run(steps).size() == n,
        forall|i: int|
            0 <= i < n ==> PoolState::<J>::init(n).run(steps).workers[i]
                == WorkerState::Terminated,
        PoolState::<J>::init(n).run(steps).queue().len() == 0,
{
    let start = PoolState::<J>::init(n);
    PoolState::<J>::lemma_init(n);
    start.lemma_run(steps);
    start.run(steps).lemma_closed();
}

/// No job is lost and none runs twice. Take a pool of `n > 0` workers and any
/// schedule that it admits and that ends with the teardown complete and no
/// thread lost. Then the jobs taken by workers are the jobs that the schedule
/// submits, each taken once and in the order of submission, and each has been
/// executed to its end, whether it completed or failed. The schedule has
/// three steps for each job (submitted, taken, ended) beside the `2 * n + 1`
/// of the teardown.
pub proof fn law_every_job_runs_once<J>(n: nat, steps: Seq<Step<J>>)
    requires
        n > 0,
        PoolState::<J>::init(n).admits(steps),
        PoolState::<J>::init(n).run(steps).closed(),
        PoolState::<J>::init(n).run(steps).clean,
    ensures
        PoolState::<J>::init(n).run(steps).submitted == submissions(steps),
        PoolState::<J>::init(n).run(steps).status.len() == submissions(steps).len(),
        forall|k: int|
            0 <= k < submissions(steps).len() ==> #[trigger] PoolState::<J>::init(n).run(
                steps,
            ).status[k] is Done,
        steps.len() == 3 * submissions(steps).len() + 2 * n + 1,
{
    let start = PoolState::<J>::init(n);
    PoolState::<J>::lemma_init(n);
    start.lemma_run(steps);
    start.run(steps).lemma_closed();
    assert(start.submitted + submissions(steps) =~= submissions(steps));
}

/// A failed job is contained. When worker `i` ends a job, the pool is left
/// the same whether the job completed or failed, but for the outcome recorded
/// for that job: the worker waits for its next message, and whatever step
/// could be taken after a success can be taken after a failure.
pub proof fn law_failure_is_contained<J>(pool: PoolState<J>, i: int, step: Step<J>)
    requires
        pool.inv(),
        pool.enabled(Step::Finish(i, JobOutcome::Failed)),
    ensures
        pool.finish(i, JobOutcome::Failed).inv(),
        pool.finish(i, JobOutcome::Failed).workers[i] == WorkerState::Running,
        pool.finish(i, JobOutcome::Failed) == (PoolState {
            status: pool.finish(i, JobOutcome::Failed).status,
            ..pool.finish(i, JobOutcome::Completed)
        }),
        pool.finish(i, JobOutcome::Failed).enabled(step) == pool.finish(
            i,
            JobOutcome::Completed,
        ).enabled(step),
{
    pool.lemma_finish_inv(i, JobOutcome::Failed);
}

/// Teardown waits for the jobs in hand. Take a pool of `n > 0` workers and any
/// schedule that it admits. If the teardown is complete at its end, no worker
/// is executing a job and no job that a worker took is still running, and a
/// worker is joined in good order only once it has terminated.
pub proof fn law_teardown_waits<J>(n: nat, steps: Seq<Step<J>>)
    requires
        n > 0,
        PoolState::<J>::init(n).admits(steps),
        PoolState::<J>::init(n).run(steps).closed(),
    ensures
        PoolState::<J>::init(n).run(steps).busy() == 0,
        forall|i: int|
            0 <= i < n ==> PoolState::<J>::init(n).run(steps).workers[i]
                == WorkerState::Terminated,
        forall|k: int|
            0 <= k < PoolState::<J>::init(n).run(steps).taken() ==> !(
            #[trigger] PoolState::<J>::init(n).run(steps).status[k] is Running),
{
    let start = PoolState::<J>::init(n);
    PoolState::<J>::lemma_init(n);
    start.lemma_run(steps);
    start.run(steps).lemma_closed();
}

/// Nobody is left waiting for ever. Take a pool of `n > 0` workers and any
/// schedule that it admits and in which shutdown has begun. Unless the
/// teardown is complete, a further step can be taken: a worker that executes
/// a job can end it, a worker that waits finds a message queued, and once all
/// workers have terminated the next one can be joined in good order.
pub proof fn law_teardown_goes_on<J>(n: nat, steps: Seq<Step<J>>) -> (next: Step<J>)
    requires
        n > 0,
        PoolState::<J>::init(n).admits(steps),
        PoolState::<J>::init(n).run(steps).stopping,
        !PoolState::<J>::init(n).run(steps).closed(),
    ensures
        PoolState::<J>::init(n).run(steps).enabled(next),
        !(next is Submit),
        next matches Step::Join(in_order) ==> in_order,
{
    let start = PoolState::<J>::init(n);
    PoolState::<J>::lemma_init(n);
    start.lemma_run(steps);
    let pool = start.run(steps);
    lemma_count_bounds(pool.workers, WorkerState::Terminated);
    if forall|i: int| 0 <= i < pool.size() ==> pool.workers[i] == WorkerState::Terminated {
        Step::Join(true)
    } else {
        let i = choose|i: int| 0 <= i < pool.size() && pool.workers[i] != WorkerState::Terminated;
        if pool.workers[i] == WorkerState::Executing {
            Step::Finish(i, JobOutcome::Completed)
        } else {
            Step::Dispatch(i)
        }
    }
}

/// Teardown ends. Take a pool of `n > 0` workers and any schedule that it
/// admits. Its length is at most `2 * n + 1` and three for each job that it
/// submits: no worker can go on taking steps for ever.
pub proof fn law_schedules_are_bounded<J>(n: nat, steps: Seq<Step<J>>)
    requires
        n > 0,
        PoolState::<J>::init(n).admits(steps),
    ensures
        steps.len() <= 3 * submissions(steps).len() + 2 * n + 1,
{
    let start = PoolState::<J>::init(n);
    PoolState::<J>::lemma_init(n);
    start.lemma_run(steps);
}

/// A terminated worker stays terminated. Take any state that satisfies the
/// invariant and any schedule that it admits: a worker that has terminated at
/// the start has terminated at the end.
pub proof fn law_terminated_is_final<J>(pool: PoolState<J>, steps: Seq<Step<J>>, i: int)
    requires
        pool.inv(),
        pool.admits(steps),
        0 <= i < pool.size(),
        pool.workers[i] == WorkerState::Terminated,
    ensures
        pool.run(steps).workers[i] == WorkerState::Terminated,
    decreases steps.len(),
{
    if steps.len() > 0 {
        law_terminated_is_final(pool, steps.drop_last(), i);
        pool.lemma_run(steps.drop_last());
    }
}

/// Workers only receive. A step that a worker takes, be it to take a message
/// or to end a job, submits nothing and puts nothing on the queue: the queue
/// is what it was, or what it was without its first message.
pub proof fn law_workers_only_receive<J>(pool: PoolState<J>, step: Step<J>)
    requires
        pool.inv(),
        pool.enabled(step),
        step is Dispatch || step is Finish,
    ensures
        pool.step(step).submitted == pool.submitted,
        pool.step(step).stopping == pool.stopping,
        step is Finish ==> pool.step(step).queue() == pool.queue(),
        step is Dispatch ==> pool.queue().len() > 0 && pool.step(step).queue()
            == pool.queue().skip(1),
{
    match step {
        Step::Dispatch(i) => {
            pool.lemma_dispatch_inv(i);
        },
        Step::Finish(i, outcome) => {
            pool.lemma_finish_inv(i, outcome);
        },
        _ => {},
    }
}

/// The schedule in which `jobs` are submitted one after the other.
pub open spec fn submit_all<J>(jobs: Seq<J>) -> Seq<Step<J>> {
    Seq::new(jobs.len(), |k: int| Step::Submit(jobs[k]))
}

/// The schedule in which the first `count` workers take a message each, in
/// registration order.
pub open spec fn dispatch_each<J>(count: nat) -> Seq<Step<J>> {
    Seq::new(count, |k: int| Step::Dispatch(k))
}

impl<J> PoolState<J> {
    /// Two schedules run one after the other are one schedule.
    pub proof fn lemma_run_in_two(self, first: Seq<Step<J>>, then: Seq<Step<J>>)
        ensures
            self.run(first + then) == self.run(first).run(then),
            self.admits(first + then) == (self.admits(first) && self.run(first).admits(then)),
        decreases then.len(),
    {
        if then.len() == 0 {
            assert(first + then =~= first);
        } else {
            self.lemma_run_in_two(first, then.drop_last());
            assert((first + then).drop_last() =~= first + then.drop_last());
            assert((first + then).last() == then.last());
        }
    }

    /// Before shutdown any jobs can be submitted, and they queue up in order.
    pub proof fn lemma_submit_all(self, jobs: Seq<J>)
        requires
            !self.stopping,
        ensures
            self.admits(submit_all(jobs)),
            self.run(submit_all(jobs)) == (PoolState {
                submitted: self.submitted + jobs,
                ..self
            }),
        decreases jobs.len(),
    {
        if jobs.len() == 0 {
            assert(self.submitted + jobs =~= self.submitted);
        } else {
            self.lemma_submit_all(jobs.drop_last());
            assert(submit_all(jobs).drop_last() =~= submit_all(jobs.drop_last()));
            assert(self.submitted + jobs =~= (self.submitted + jobs.drop_last()).push(
                jobs.last(),
            ));
        }
    }

    /// The state in which the first `count` workers execute the first `count`
    /// jobs, one each, and nothing else has happened since the jobs were
    /// submitted.
    pub open spec fn side_by_side(n: nat, jobs: Seq<J>, count: nat) -> PoolState<J> {
        PoolState {
            workers: Seq::new(
                n,
                |i: int|
                    if i < count {
                        WorkerState::Executing
                    } else {
                        WorkerState::Running
                    },
            ),
            current: Seq::new(
                n,
                |i: int|
                    if i < count {
                        Some(i)
                    } else {
                        None
                    },
            ),
            status: Seq::new(count, |k: int| JobStatus::Running(k)),
            submitted: jobs,
            ..Self::init(n)
        }
    }

    /// With enough jobs queued, worker after worker takes one, and none has to
    /// wait for another to end.
    pub proof fn lemma_dispatch_each(n: nat, jobs: Seq<J>, count: nat)
        requires
            count <= n,
            count <= jobs.len(),
        ensures
            Self::side_by_side(n, jobs, 0).admits(dispatch_each(count)),
            Self::side_by_side(n, jobs, 0).run(dispatch_each(count)) == Self::side_by_side(
                n,
                jobs,
                count,
            ),
        decreases count,
    {
        if count > 0 {
            let before = (count - 1) as nat;
            Self::lemma_dispatch_each(n, jobs, before);
            assert(dispatch_each::<J>(count).drop_last() =~= dispatch_each::<J>(before));
            let mid = Self::side_by_side(n, jobs, before);
            let end = Self::side_by_side(n, jobs, count);
            let next = mid.dispatch(before as int);
            assert(next.workers =~= end.workers);
            assert(next.current =~= end.current);
            assert(next.status =~= end.status);
        }
    }
}

/// Workers run side by side. Take a pool of `n > 0` workers and at least `n`
/// jobs. The pool admits the schedule in which the jobs are submitted and the
/// workers then take one each, and at its end all `n` workers are executing
/// at once, worker `i` the job submitted as number `i`, while the remaining
/// jobs wait in order: no worker waits for another to end its job.
pub proof fn law_workers_run_side_by_side<J>(n: nat, jobs: Seq<J>)
    requires
        n > 0,
        jobs.len() >= n,
    ensures
        PoolState::<J>::init(n).admits(submit_all(jobs) + dispatch_each(n)),
        PoolState::<J>::init(n).run(submit_all(jobs) + dispatch_each(n)).busy() == n,
        forall|i: int|
            0 <= i < n ==> PoolState::<J>::init(n).run(
                submit_all(jobs) + dispatch_each(n),
            ).current[i] == Some(i),
        PoolState::<J>::init(n).run(submit_all(jobs) + dispatch_each(n)).submitted == jobs,
        PoolState::<J>::init(n).run(submit_all(jobs) + dispatch_each(n)).waiting() == jobs.len()
            - n,
{
    let start = PoolState::<J>::init(n);
    start.lemma_submit_all(jobs);
    start.lemma_run_in_two(submit_all(jobs), dispatch_each(n));
    let queued = start.run(submit_all(jobs));
    assert(start.submitted + jobs =~= jobs);
    assert(queued.workers =~= PoolState::<J>::side_by_side(n, jobs, 0).workers);
    assert(queued.current =~= PoolState::<J>::side_by_side(n, jobs, 0).current);
    assert(queued.status =~= PoolState::<J>::side_by_side(n, jobs, 0).status);
    assert(queued == PoolState::<J>::side_by_side(n, jobs, 0));
    PoolState::<J>::lemma_dispatch_each(n, jobs, n);
    let all = PoolState::<J>::side_by_side(n, jobs, n);
    assert(all.workers =~= Seq::new(n, |i: int| WorkerState::Executing));
    lemma_count_uniform(n, WorkerState::Executing, WorkerState::Executing);
}

} // verus!
