//! One worker of the pool: its identity and its lifecycle.

use vstd::prelude::*;
use crate::pool::message::Message;

verus! {

/// Where a worker stands in its lifecycle.
///
/// `Running` waits for a message, `Executing` is busy with a job, and
/// `Terminated` has left its loop for good.
#[derive(Clone, Copy, Debug, PartialEq, Eq, Structural)]
pub enum WorkerState {
    Running,
    Executing,
    Terminated,
}

/// What a worker has to do after taking a message.
#[derive(Debug)]
pub enum Directive<J> {
    /// Run this job, then report how it ended.
    Run(J),
    /// Leave the loop; the thread ends.
    Exit,
}

/// How the execution of a job ended.
#[derive(Clone, Copy, Debug, PartialEq, Eq, Structural)]
pub enum JobOutcome {
    Completed,
    Failed,
}

/// A contained job failure, to be handed to whoever listens for them.
#[derive(Clone, Copy, Debug, PartialEq, Eq, Structural)]
pub struct JobFailure {
    /// The worker on which the job failed.
    pub worker: usize,
}

/// A worker whose thread did not end in good order, to be handed to whoever
/// listens for failures.
#[derive(Clone, Copy, Debug, PartialEq, Eq, Structural)]
pub struct JoinFailure {
    /// The worker that was written off.
    pub worker: usize,
}

/// What a `Running` worker is told to do with `msg`.
pub open spec fn directive_of<J>(msg: Message<J>) -> Directive<J> {
    match msg {
        Message::NewJob(job) => Directive::Run(job),
        Message::Terminate => Directive::Exit,
    }
}

/// The state in which a `Running` worker finds itself after taking `msg`.
pub open spec fn state_after<J>(msg: Message<J>) -> WorkerState {
    match msg {
        Message::NewJob(_) => WorkerState::Executing,
        Message::Terminate => WorkerState::Terminated,
    }
}

/// What is reported when a job on worker `id` ends with `outcome`: a failure,
/// and nothing else.
pub open spec fn report_of(id: usize, outcome: JobOutcome) -> Option<JobFailure> {
    match outcome {
        JobOutcome::Completed => None,
        JobOutcome::Failed => Some(JobFailure { worker: id }),
    }
}

/// A worker: a number and a place in the lifecycle. Its thread is the
/// caller's business.
pub struct Worker {
    id: usize,
    state: WorkerState,
}

impl Worker {
    /// The worker's number.
    pub closed spec fn spec_id(&self) -> usize {
        self.id
    }

    /// Where the worker stands in its lifecycle.
    pub closed spec fn spec_state(&self) -> WorkerState {
        self.state
    }

    /// A worker that waits for its first message.
    pub fn new(id: usize) -> (worker: Worker)
        ensures
            worker.id() == id,
            worker.state() == WorkerState::Running,
    {
        Worker { id, state: WorkerState::Running }
    }

    /// The worker's number, used for diagnostics only.
    #[verifier::when_used_as_spec(spec_id)]
    pub fn id(&self) -> (id: usize)
        ensures
            id == self.spec_id(),
    {
        self.id
    }

    /// Where the worker stands in its lifecycle.
    #[verifier::when_used_as_spec(spec_state)]
    pub fn state(&self) -> (state: WorkerState)
        ensures
            state == self.spec_state(),
    {
        self.state
    }

    /// Takes the next message off the channel's hands.
    ///
    /// A job makes the worker `Executing` and is passed on to be run; the stop
    /// message makes it `Terminated`.
    pub fn receive<J>(&mut self, msg: Message<J>) -> (directive: Directive<J>)
        requires
            old(self).state() == WorkerState::Running,
        ensures
            final(self).id() == old(self).id(),
            final(self).state() == state_after(msg),
            directive == directive_of(msg),
    {
        match msg {
            Message::NewJob(job) => {
                self.state = WorkerState::Executing;
                Directive::Run(job)
            },
            Message::Terminate => {
                self.state = WorkerState::Terminated;
                Directive::Exit
            },
        }
    }

    /// Records that the job in hand has ended, and goes back to waiting.
    ///
    /// A failed job is reported and otherwise changes nothing: the worker is
    /// `Running` again whatever the outcome.
    pub fn finish(&mut self, outcome: JobOutcome) -> (report: Option<JobFailure>)
        requires
            old(self).state() == WorkerState::Executing,
        ensures
            final(self).id() == old(self).id(),
            final(self).state() == WorkerState::Running,
            report == report_of(old(self).id(), outcome),
    {
        self.state = WorkerState::Running;
        match outcome {
            JobOutcome::Completed => None,
            JobOutcome::Failed => Some(JobFailure { worker: self.id }),
        }
    }

    /// Writes the worker off: its thread is gone, whatever it was doing.
    pub fn abandon(&mut self)
        ensures
            final(self).id() == old(self).id(),
            final(self).state() == WorkerState::Terminated,
    {
        self.state = WorkerState::Terminated;
    }
}

} // verus!
