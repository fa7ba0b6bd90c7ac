use rust_book::pool::channel::{Channel, SendError, TryRecvError};
use rust_book::pool::message::Message;
use rust_book::pool::worker::{
    Directive, JobFailure, JobOutcome, JoinFailure, Worker, WorkerState,
};
use rust_book::pool::{PoolCreationError, ThreadPool};
use std::cell::RefCell;
use std::rc::Rc;

type Job = Box<dyn FnOnce() -> Result<(), String>>;

/// Plays the part of the threads: holds the job that each worker has in hand
/// and lets the workers take their steps in whatever order a test asks for.
struct Stage {
    pool: ThreadPool<Job>,
    in_hand: Vec<Option<Job>>,
    failures: Vec<JobFailure>,
    ran_on: Vec<usize>,
}

impl Stage {
    fn new(size: usize) -> Stage {
        let pool = ThreadPool::build(size).expect("a pool of at least one worker");
        let mut in_hand = Vec::new();
        for _ in 0..size {
            in_hand.push(None);
        }
        Stage { pool, in_hand, failures: Vec::new(), ran_on: Vec::new() }
    }

    fn state(&self, id: usize) -> WorkerState {
        self.pool.worker(id).state()
    }

    /// Worker `id` asks for a message if it is waiting. Says whether it moved.
    fn take(&mut self, id: usize) -> bool {
        if self.state(id) != WorkerState::Running {
            return false;
        }
        match self.pool.dispatch(id) {
            Some(Directive::Run(job)) => {
                self.in_hand[id] = Some(job);
                true
            }
            Some(Directive::Exit) => true,
            None => false,
        }
    }

    /// Worker `id` runs the job it has in hand, if any, and reports.
    fn run(&mut self, id: usize) -> bool {
        match self.in_hand[id].take() {
            Some(job) => {
                let outcome = match job() {
                    Ok(()) => JobOutcome::Completed,
                    Err(_) => JobOutcome::Failed,
                };
                self.ran_on.push(id);
                if let Some(failure) = self.pool.complete(id, outcome) {
                    self.failures.push(failure);
                }
                true
            }
            None => false,
        }
    }

    /// One step of worker `id`: finish what it has in hand, or take the next
    /// message.
    fn step(&mut self, id: usize) -> bool {
        self.run(id) || self.take(id)
    }

    /// Lets the workers step in the order given by `pick` until none can move.
    fn settle(&mut self, mut pick: impl FnMut(usize) -> usize) -> usize {
        let size = self.pool.size();
        let mut steps = 0;
        let mut round = 0;
        loop {
            let first = pick(round) % size;
            let mut moved = false;
            for offset in 0..size {
                if self.step((first + offset) % size) {
                    moved = true;
                    steps += 1;
                    break;
                }
            }
            if !moved {
                return steps;
            }
            round += 1;
        }
    }

    /// Joins every worker in registration order and says how many were joined.
    fn join_all(&mut self) -> usize {
        let mut joined = 0;
        while let Some(id) = self.pool.next_to_join() {
            assert_eq!(self.state(id), WorkerState::Terminated);
            assert_eq!(id, joined);
            assert_eq!(self.pool.record_join(true), None);
            joined += 1;
        }
        joined
    }
}

fn recorder(log: &Rc<RefCell<Vec<u32>>>, id: u32) -> Job {
    let log = Rc::clone(log);
    Box::new(move || {
        log.borrow_mut().push(id);
        Ok(())
    })
}

fn failing(log: &Rc<RefCell<Vec<u32>>>, id: u32) -> Job {
    let log = Rc::clone(log);
    Box::new(move || {
        log.borrow_mut().push(id);
        Err(format!("job {} failed", id))
    })
}

fn sorted(mut ids: Vec<u32>) -> Vec<u32> {
    ids.sort();
    ids
}

#[test]
fn idle_pool_tears_down_and_joins_every_worker() {
    for size in 1..=8usize {
        let mut stage = Stage::new(size);
        assert_eq!(stage.pool.size(), size);
        assert_eq!(stage.pool.pending(), 0);
        assert!(!stage.pool.is_stopping());
        assert_eq!(stage.pool.next_to_join(), None);
        stage.pool.shutdown();
        assert!(stage.pool.is_stopping());
        assert_eq!(stage.pool.pending(), size);
        let steps = stage.settle(|round| size - 1 - round % size);
        assert_eq!(steps, size);
        assert_eq!(stage.pool.pending(), 0);
        for id in 0..size {
            assert_eq!(stage.state(id), WorkerState::Terminated);
        }
        assert!(!stage.pool.is_closed());
        assert_eq!(stage.join_all(), size);
        assert!(stage.pool.is_closed());
        assert!(stage.pool.is_clean());
        assert_eq!(stage.pool.next_to_join(), None);
    }
}

#[test]
fn pool_without_workers_is_refused() {
    let built: Result<ThreadPool<Job>, PoolCreationError> = ThreadPool::build(0);
    assert!(matches!(built, Err(PoolCreationError::NoWorkers)));
    assert!(ThreadPool::<Job>::build(1).is_ok());
}

#[test]
fn new_pool_has_its_workers_waiting_in_order() {
    let pool: ThreadPool<Job> = ThreadPool::new(3);
    assert_eq!(pool.size(), 3);
    for id in 0..3 {
        assert_eq!(pool.worker(id).id(), id);
        assert_eq!(pool.worker(id).state(), WorkerState::Running);
    }
    assert!(!pool.is_stopping());
    assert!(!pool.is_closed());
    assert!(pool.is_clean());
}

#[test]
fn every_job_runs_exactly_once_whatever_the_order() {
    let jobs: u32 = 23;
    for seed in 0..12usize {
        let log = Rc::new(RefCell::new(Vec::new()));
        let mut stage = Stage::new(4);
        let mut state = seed * 7919 + 1;
        for id in 0..jobs {
            stage.pool.execute(recorder(&log, id));
            if id % 3 == 0 {
                state = (state * 1103515245 + 12345) % 2147483648;
                stage.step(state % 4);
            }
        }
        stage.pool.shutdown();
        stage.settle(|_| {
            state = (state * 1103515245 + 12345) % 2147483648;
            state / 65536
        });
        assert_eq!(stage.join_all(), 4);
        assert!(stage.pool.is_closed());
        assert!(stage.pool.is_clean());
        assert_eq!(stage.pool.pending(), 0);
        let expected: Vec<u32> = (0..jobs).collect();
        assert_eq!(sorted(log.borrow().clone()), expected);
        assert!(stage.failures.is_empty());
    }
}

#[test]
fn jobs_are_handed_out_in_the_order_submitted() {
    let log = Rc::new(RefCell::new(Vec::new()));
    let mut stage = Stage::new(2);
    for id in 0..6 {
        stage.pool.execute(recorder(&log, id));
    }
    assert_eq!(stage.pool.pending(), 6);
    stage.settle(|_| 1);
    assert_eq!(*log.borrow(), vec![0, 1, 2, 3, 4, 5]);
    assert_eq!(stage.pool.pending(), 0);
    assert_eq!(stage.pool.dispatch(0).map(|_| ()), None);
    assert_eq!(stage.state(0), WorkerState::Running);
}

#[test]
fn failed_job_is_reported_and_the_rest_still_runs() {
    let log = Rc::new(RefCell::new(Vec::new()));
    let mut stage = Stage::new(1);
    stage.pool.execute(recorder(&log, 1));
    stage.pool.execute(failing(&log, 2));
    stage.pool.execute(recorder(&log, 3));
    stage.settle(|_| 0);
    assert_eq!(stage.state(0), WorkerState::Running);
    stage.pool.execute(recorder(&log, 4));
    stage.pool.shutdown();
    stage.settle(|_| 0);
    assert_eq!(*log.borrow(), vec![1, 2, 3, 4]);
    assert_eq!(stage.failures, vec![JobFailure { worker: 0 }]);
    assert_eq!(stage.join_all(), 1);
    assert!(stage.pool.is_closed());
    assert!(stage.pool.is_clean());
}

#[test]
fn ten_jobs_for_each_worker_take_ten_rounds() {
    for size in [1usize, 2, 3, 8] {
        let log = Rc::new(RefCell::new(Vec::new()));
        let mut stage = Stage::new(size);
        let jobs = 10 * size as u32;
        for id in 0..jobs {
            stage.pool.execute(recorder(&log, id));
        }
        let mut rounds = 0;
        while stage.pool.pending() > 0 {
            let mut busy = 0;
            for id in 0..size {
                if stage.take(id) {
                    busy += 1;
                }
            }
            assert_eq!(busy, size);
            for id in 0..size {
                assert_eq!(stage.state(id), WorkerState::Executing);
            }
            for id in 0..size {
                assert!(stage.run(id));
            }
            rounds += 1;
        }
        assert_eq!(rounds, 10);
        stage.pool.shutdown();
        assert_eq!(stage.settle(|round| round), size);
        assert_eq!(stage.join_all(), size);
        let expected: Vec<u32> = (0..jobs).collect();
        assert_eq!(sorted(log.borrow().clone()), expected);
        for id in 0..size {
            assert_eq!(stage.ran_on.iter().filter(|&&w| w == id).count(), 10);
        }
    }
}

#[test]
fn teardown_waits_for_the_job_in_hand() {
    let log = Rc::new(RefCell::new(Vec::new()));
    let mut stage = Stage::new(2);
    stage.pool.execute(recorder(&log, 99));
    assert!(stage.take(0));
    assert_eq!(stage.state(0), WorkerState::Executing);
    stage.pool.shutdown();
    assert!(stage.take(1));
    assert_eq!(stage.state(1), WorkerState::Terminated);
    // The first worker to be joined is still busy: teardown cannot go on.
    assert_eq!(stage.pool.next_to_join(), Some(0));
    assert_eq!(stage.state(0), WorkerState::Executing);
    assert!(!stage.pool.is_closed());
    assert!(log.borrow().is_empty());
    assert!(stage.run(0));
    assert_eq!(*log.borrow(), vec![99]);
    assert!(stage.take(0));
    assert_eq!(stage.state(0), WorkerState::Terminated);
    assert_eq!(stage.join_all(), 2);
    assert!(stage.pool.is_closed());
    assert!(stage.pool.is_clean());
}

#[test]
fn two_jobs_on_four_workers() {
    let log: Rc<RefCell<Vec<&'static str>>> = Rc::new(RefCell::new(Vec::new()));
    let mut stage = Stage::new(4);
    let log_a = Rc::clone(&log);
    let job_a: Job = Box::new(move || {
        log_a.borrow_mut().push("A");
        Ok(())
    });
    let log_b = Rc::clone(&log);
    let job_b: Job = Box::new(move || {
        log_b.borrow_mut().push("B");
        Ok(())
    });
    stage.pool.execute(job_a);
    stage.pool.execute(job_b);
    assert!(stage.take(3));
    assert!(stage.take(1));
    assert!(stage.run(1));
    assert!(stage.run(3));
    stage.pool.shutdown();
    assert_eq!(stage.settle(|round| round), 4);
    assert_eq!(stage.join_all(), 4);
    let mut seen = log.borrow().clone();
    seen.sort();
    assert_eq!(seen, vec!["A", "B"]);
    assert_eq!(stage.ran_on.len(), 2);
    assert!(stage.ran_on.iter().all(|&worker| worker < 4));
}

#[test]
fn lost_thread_is_written_off_and_the_others_are_still_joined() {
    let log = Rc::new(RefCell::new(Vec::new()));
    let mut stage = Stage::new(3);
    stage.pool.execute(recorder(&log, 1));
    assert!(stage.take(0));
    stage.pool.shutdown();
    assert!(stage.take(1));
    assert!(stage.take(2));
    // Worker 0 never reports back: its thread is gone.
    assert_eq!(stage.pool.next_to_join(), Some(0));
    assert_eq!(stage.pool.record_join(false), Some(JoinFailure { worker: 0 }));
    assert_eq!(stage.state(0), WorkerState::Terminated);
    assert!(!stage.pool.is_clean());
    assert_eq!(stage.pool.next_to_join(), Some(1));
    assert_eq!(stage.pool.record_join(true), None);
    assert_eq!(stage.pool.next_to_join(), Some(2));
    assert_eq!(stage.pool.record_join(true), None);
    assert!(stage.pool.is_closed());
    assert!(!stage.pool.is_clean());
    // The stop message meant for the lost worker is still there.
    assert_eq!(stage.pool.pending(), 1);
}

#[test]
fn join_of_a_thread_that_failed_after_its_worker_stopped_is_not_clean() {
    let mut stage = Stage::new(1);
    stage.pool.shutdown();
    assert!(stage.take(0));
    assert_eq!(stage.pool.record_join(false), Some(JoinFailure { worker: 0 }));
    assert!(stage.pool.is_closed());
    assert!(!stage.pool.is_clean());
    assert_eq!(stage.pool.pending(), 0);
}

#[test]
fn thread_that_ended_before_its_worker_stopped_is_written_off() {
    let mut stage = Stage::new(2);
    stage.pool.shutdown();
    assert!(stage.take(1));
    // The thread of worker 0 ended well, but the worker never took its stop
    // message: that is not in good order either.
    assert_eq!(stage.pool.record_join(true), Some(JoinFailure { worker: 0 }));
    assert_eq!(stage.state(0), WorkerState::Terminated);
    assert_eq!(stage.pool.record_join(true), None);
    assert!(stage.pool.is_closed());
    assert!(!stage.pool.is_clean());
}

#[test]
fn worker_goes_through_its_states() {
    let mut worker = Worker::new(7);
    assert_eq!(worker.id(), 7);
    assert_eq!(worker.state(), WorkerState::Running);
    match worker.receive(Message::NewJob(41u32)) {
        Directive::Run(job) => assert_eq!(job, 41),
        Directive::Exit => panic!("a job is to be run"),
    }
    assert_eq!(worker.state(), WorkerState::Executing);
    assert_eq!(worker.finish(JobOutcome::Completed), None);
    assert_eq!(worker.state(), WorkerState::Running);
    assert!(matches!(worker.receive(Message::NewJob(42u32)), Directive::Run(42)));
    assert_eq!(worker.finish(JobOutcome::Failed), Some(JobFailure { worker: 7 }));
    assert_eq!(worker.state(), WorkerState::Running);
    assert!(matches!(worker.receive(Message::<u32>::Terminate), Directive::Exit));
    assert_eq!(worker.state(), WorkerState::Terminated);
    assert_eq!(worker.id(), 7);
}

#[test]
fn abandoned_worker_is_terminated() {
    let mut worker = Worker::new(2);
    assert!(matches!(worker.receive(Message::NewJob(1u8)), Directive::Run(1)));
    worker.abandon();
    assert_eq!(worker.state(), WorkerState::Terminated);
    assert_eq!(worker.id(), 2);
}

#[test]
fn message_knows_whether_it_stops() {
    assert!(Message::<u8>::Terminate.is_terminate());
    assert!(!Message::NewJob(0u8).is_terminate());
}

#[test]
fn channel_is_first_in_first_out() {
    let mut channel: Channel<u32> = Channel::new(2);
    assert!(channel.is_empty());
    assert_eq!(channel.receivers(), 2);
    assert!(channel.is_connected());
    assert!(channel.send(Message::NewJob(1)).is_ok());
    assert!(channel.send(Message::Terminate).is_ok());
    assert!(channel.send(Message::NewJob(3)).is_ok());
    assert_eq!(channel.len(), 3);
    assert!(matches!(channel.try_recv(), Ok(Message::NewJob(1))));
    assert!(matches!(channel.try_recv(), Ok(Message::Terminate)));
    assert!(matches!(channel.try_recv(), Ok(Message::NewJob(3))));
    assert!(matches!(channel.try_recv(), Err(TryRecvError::Empty)));
    assert!(channel.is_empty());
}

#[test]
fn send_fails_only_when_no_receiver_is_left() {
    let mut channel: Channel<u32> = Channel::new(1);
    assert!(channel.send(Message::NewJob(5)).is_ok());
    channel.drop_receiver();
    assert_eq!(channel.receivers(), 0);
    match channel.send(Message::NewJob(6)) {
        Err(SendError(Message::NewJob(job))) => assert_eq!(job, 6),
        _ => panic!("nobody is left to receive"),
    }
    assert_eq!(channel.len(), 1);
}

#[test]
fn receive_tells_an_empty_channel_from_a_dead_one() {
    let mut channel: Channel<u32> = Channel::new(1);
    assert!(channel.send(Message::NewJob(5)).is_ok());
    assert!(matches!(channel.try_recv(), Ok(Message::NewJob(5))));
    assert_eq!(channel.try_recv().err(), Some(TryRecvError::Empty));
    assert!(channel.send(Message::NewJob(6)).is_ok());
    channel.disconnect();
    assert!(!channel.is_connected());
    assert!(matches!(channel.try_recv(), Ok(Message::NewJob(6))));
    assert_eq!(channel.try_recv().err(), Some(TryRecvError::Disconnected));
}
